//! Layouts of the early boot page tables, before the kernel maps memory itself.
use vstd::prelude::*;

verus! {

/// How a block of the boot address space is mapped.
#[derive(Debug, Clone, Copy, PartialEq, Eq, Structural)]
pub enum BlockKind {
    /// Readable, writable device memory.
    Device,
    /// Readable, writable, executable normal memory.
    Normal,
}

/// One block mapping: virtual block `index` of the table maps `paddr`.
#[derive(Debug, Clone, Copy, PartialEq, Eq, Structural)]
pub struct BlockMapping {
    pub index: usize,
    pub paddr: u64,
    pub kind: BlockKind,
}

/// The number of 1 MiB sections of the ARMv7-A first-level table.
pub const ARM_SECTIONS: usize = 4096;
/// Size of an ARMv7-A section.
pub const ARM_SECTION_SIZE: u64 = 0x10_0000;
/// First section of RAM on the ARM QEMU virt board.
pub const ARM_RAM_FIRST_SECTION: usize = 0x400;
/// One past the last section of RAM on the ARM QEMU virt board.
pub const ARM_RAM_END_SECTION: usize = 0x480;

/// The identity mapping of section `i` on the ARM QEMU virt board: the 128 MiB of
/// RAM at 1 GiB is normal memory, the rest of the 4 GiB is device memory.
pub open spec fn arm_section(i: int) -> BlockMapping {
    BlockMapping {
        index: i as usize,
        paddr: (i * ARM_SECTION_SIZE) as u64,
        kind: if ARM_RAM_FIRST_SECTION <= i < ARM_RAM_END_SECTION { BlockKind::Normal } else { BlockKind::Device },
    }
}

/// Every section of the ARM QEMU virt boot page table, in order.
pub fn arm_boot_sections() -> (r: Vec<BlockMapping>)
    ensures
        r@.len() == ARM_SECTIONS,
        forall|i: int| 0 <= i < ARM_SECTIONS ==> #[trigger] r@[i] == arm_section(i),
{
    let mut r: Vec<BlockMapping> = Vec::new();
    let mut i: usize = 0;
    while i < ARM_SECTIONS
        invariant
            i <= ARM_SECTIONS,
            r@.len() == i,
            forall|k: int| 0 <= k < i ==> #[trigger] r@[k] == arm_section(k),
        decreases ARM_SECTIONS - i,
    {
        let kind = if ARM_RAM_FIRST_SECTION <= i && i < ARM_RAM_END_SECTION {
            BlockKind::Normal
        } else {
            BlockKind::Device
        };
        r.push(BlockMapping { index: i, paddr: (i as u64) * ARM_SECTION_SIZE, kind });
        i = i + 1;
    }
    r
}

/// Size of a LoongArch second-level block.
pub const LA_BLOCK_SIZE: u64 = 0x4000_0000;

/// The 1 GiB blocks of the LoongArch QEMU virt second-level boot table: device
/// memory in the first GiB, normal memory in the second and third.
pub open spec fn loongarch_blocks_spec() -> Seq<BlockMapping> {
    seq![
        BlockMapping { index: 0, paddr: 0, kind: BlockKind::Device },
        BlockMapping { index: 2, paddr: 0x8000_0000, kind: BlockKind::Normal },
        BlockMapping { index: 1, paddr: 0x4000_0000, kind: BlockKind::Normal },
    ]
}

/// The blocks of the LoongArch QEMU virt second-level boot table, in the order they
/// are written.
pub fn loongarch_boot_blocks() -> (r: Vec<BlockMapping>)
    ensures
        r@ == loongarch_blocks_spec(),
{
    let r = vec![
        BlockMapping { index: 0, paddr: 0, kind: BlockKind::Device },
        BlockMapping { index: 2, paddr: 2 * LA_BLOCK_SIZE, kind: BlockKind::Normal },
        BlockMapping { index: 1, paddr: LA_BLOCK_SIZE, kind: BlockKind::Normal },
    ];
    assert(r@ =~= loongarch_blocks_spec());
    r
}

/// The CPUCFG word-2 bit that announces the LoongArch virtualization extension.
pub const CPUCFG2_LVZ: u64 = 0x400;
/// The guest TLB configuration written when the extension is enabled: 32 entries
/// for guests, guest id 1.
pub const GTLBC_CONFIG: u64 = 0x1_0020;

/// Whether CPUCFG word 2 `cpucfg2` announces the virtualization extension.
pub fn lvz_available(cpucfg2: u64) -> (r: bool)
    ensures
        r == (cpucfg2 & CPUCFG2_LVZ != 0),
{
    cpucfg2 & CPUCFG2_LVZ != 0
}

/// A step of the x86 INIT-SIPI-SIPI sequence that starts an application processor.
#[derive(Debug, Clone, Copy, PartialEq, Eq, Structural)]
pub enum StartupStep {
    /// Send INIT to the APIC id.
    Init { apic_id: u32 },
    /// Send a startup IPI pointing at the 4 KiB page `page` to the APIC id.
    Sipi { page: u8, apic_id: u32 },
    /// Wait this many microseconds.
    WaitMicros { micros: u64 },
}

/// The page, in 4 KiB units, where application processors start.
pub const START_PAGE_IDX: u8 = 6;

/// The INIT-SIPI-SIPI sequence for `apic_id`, with the waits between the steps.
pub open spec fn startup_spec(apic_id: u32) -> Seq<StartupStep> {
    seq![
        StartupStep::Init { apic_id },
        StartupStep::WaitMicros { micros: 10_000 },
        StartupStep::Sipi { page: START_PAGE_IDX, apic_id },
        StartupStep::WaitMicros { micros: 200 },
        StartupStep::Sipi { page: START_PAGE_IDX, apic_id },
    ]
}

/// The steps that start the application processor with APIC id `apic_id`.
pub fn startup_sequence(apic_id: u32) -> (r: Vec<StartupStep>)
    ensures
        r@ == startup_spec(apic_id),
{
    let r = vec![
        StartupStep::Init { apic_id },
        StartupStep::WaitMicros { micros: 10_000 },
        StartupStep::Sipi { page: START_PAGE_IDX, apic_id },
        StartupStep::WaitMicros { micros: 200 },
        StartupStep::Sipi { page: START_PAGE_IDX, apic_id },
    ];
    assert(r@ =~= startup_spec(apic_id));
    r
}

} // verus!

//! Physical memory layout of the RISC-V QEMU virt board.
use vstd::prelude::*;
use crate::dtb::{DtbParser, DtbView, MemoryRange, memory_ranges_spec};

verus! {

/// Start of physical memory.
pub const PHYS_MEMORY_BASE: u64 = 0x8000_0000;
/// Size of physical memory.
pub const PHYS_MEMORY_SIZE: u64 = 0x800_0000;
/// Physical address where the kernel is loaded.
pub const KERNEL_BASE_PADDR: u64 = 0x8020_0000;
/// Offset from a physical address to the virtual address it is mapped at.
pub const PHYS_VIRT_OFFSET: u64 = 0xffff_ffc0_0000_0000;
/// At most this many ranges are taken from the device tree.
pub const MAX_RAM_RANGES: usize = 4;

/// A physical memory range as (start, size).
pub type RawRange = (u64, u64);

/// The RAM ranges reported: the device tree's first four, when it gives any, or
/// else the memory from the kernel image to the end of physical memory.
pub open spec fn phys_ram_ranges_spec(dtb: Option<DtbView>) -> Seq<RawRange> {
    if dtb is Some && memory_ranges_spec(dtb->0).len() > 0 {
        let m = memory_ranges_spec(dtb->0);
        let n = if m.len() < MAX_RAM_RANGES { m.len() as int } else { MAX_RAM_RANGES as int };
        m.subrange(0, n).map_values(|r: MemoryRange| (r.base, r.size))
    } else {
        seq![(KERNEL_BASE_PADDR, (PHYS_MEMORY_BASE + PHYS_MEMORY_SIZE - KERNEL_BASE_PADDR) as u64)]
    }
}

/// The physical RAM ranges of the board, free for allocation except where reserved.
pub fn phys_ram_ranges(dtb: Option<&DtbParser>) -> (r: Vec<RawRange>)
    ensures
        r@ == phys_ram_ranges_spec(match dtb {
            Some(p) => Some(p@),
            None => None,
        }),
{
    if let Some(p) = dtb {
        let found = p.get_memory_ranges();
        if found.len() > 0 {
            let n = if found.len() < MAX_RAM_RANGES { found.len() } else { MAX_RAM_RANGES };
            let mut r: Vec<RawRange> = Vec::new();
            let mut i: usize = 0;
            while i < n
                invariant
                    n <= found@.len(),
                    i <= n,
                    r@ =~= found@.subrange(0, i as int).map_values(|m: MemoryRange| (m.base, m.size)),
                decreases n - i,
            {
                r.push((found[i].base, found[i].size));
                i = i + 1;
            }
            return r;
        }
    }
    let size = PHYS_MEMORY_BASE + PHYS_MEMORY_SIZE - KERNEL_BASE_PADDR;
    let r = vec![(KERNEL_BASE_PADDR, size)];
    assert(r@ =~= seq![(KERNEL_BASE_PADDR, (PHYS_MEMORY_BASE + PHYS_MEMORY_SIZE - KERNEL_BASE_PADDR) as u64)]);
    r
}

/// The virtual address at which physical address `paddr` is mapped.
pub fn phys_to_virt(paddr: u64) -> (r: u64)
    requires
        paddr <= u64::MAX - PHYS_VIRT_OFFSET,
    ensures
        r == paddr + PHYS_VIRT_OFFSET,
{
    paddr + PHYS_VIRT_OFFSET
}

/// The physical address mapped at virtual address `vaddr`.
pub fn virt_to_phys(vaddr: u64) -> (r: u64)
    requires
        vaddr >= PHYS_VIRT_OFFSET,
    ensures
        r == vaddr - PHYS_VIRT_OFFSET,
{
    vaddr - PHYS_VIRT_OFFSET
}

} // verus!

use axplat::apic::{raw_apic_id, ApicIrq, ApicRequest};
use axplat::boot::{hardware_cpu_id, BootHandoff, HandoffError, PrimaryEntry};
use axplat::boot_pt::{arm_boot_sections, loongarch_boot_blocks, lvz_available, startup_sequence, BlockKind, StartupStep};
use axplat::console::write_bytes;
use axplat::gic::{sgir_value_all_except_self, sgir_value_one, Gic, GicRequest};
use axplat::ipi::{destinations, loongarch_ipi_values, make_ipi_send_value, riscv_ipi_masks, IpiTarget};
use axplat::loongarch::{IrqType, LaRequest, LoongArchIrq, EIOINTC_IRQ, IPI_IRQ, TIMER_IRQ};
use axplat::mem::{phys_ram_ranges, phys_to_virt, virt_to_phys};
use axplat::plic::{claimed, Plic, PlicError, RegBits, RegWrite};
use axplat::riscv::{RiscvIrq, RvRequest, SieLine, INTC_IRQ_BASE, S_EXT, S_SOFT, S_TIMER};
use lazyinit::LazyInit;
use std::sync::atomic::{AtomicUsize, Ordering};

static GIC_CALLS: AtomicUsize = AtomicUsize::new(0);
static LA_CALLS: AtomicUsize = AtomicUsize::new(0);
static RV_TIMER_CALLS: AtomicUsize = AtomicUsize::new(0);
static RV_DEVICE_CALLS: AtomicUsize = AtomicUsize::new(0);

fn gic_handler() {
    GIC_CALLS.fetch_add(1, Ordering::SeqCst);
}

fn la_handler() {
    LA_CALLS.fetch_add(1, Ordering::SeqCst);
}

fn rv_timer_handler() {
    RV_TIMER_CALLS.fetch_add(1, Ordering::SeqCst);
}

fn rv_device_handler() {
    RV_DEVICE_CALLS.fetch_add(1, Ordering::SeqCst);
}

fn nop() {}

#[test]
fn broadcast_skips_the_sender() {
    let target = IpiTarget::AllExceptCurrent { cpu_id: 2, cpu_num: 4 };
    assert_eq!(destinations(target), vec![0, 1, 3]);
    assert!(!destinations(target).contains(&2));
    assert_eq!(destinations(IpiTarget::Other { cpu_id: 7 }), vec![7]);
    assert_eq!(destinations(IpiTarget::Current { cpu_id: 1 }), vec![1]);
    assert_eq!(riscv_ipi_masks(target), vec![1, 2, 8]);
    assert_eq!(loongarch_ipi_values(target), vec![0x8000_0000, 0x8001_0000, 0x8003_0000]);
}

#[test]
fn ipi_send_value_packs_fields() {
    assert_eq!(make_ipi_send_value(3, 0, true), 0x8003_0000);
    assert_eq!(make_ipi_send_value(1, 5, false), 0x0001_0005);
}

/// A board of four cores: the primary core enters, the kernel function bound to the
/// primary entry asks for the other cores, and each enters the secondary entry.
#[test]
fn four_core_boot_enters_each_core_once() {
    let mut handoff = BootHandoff::new(4);
    let mut booted: Vec<usize> = Vec::new();
    assert_eq!(handoff.enter_primary(0, 0xDEAD_BEEF), Ok(()));
    for core in 1..4 {
        booted.push(core);
    }
    for core in booted.iter().rev() {
        assert_eq!(handoff.enter_secondary(*core), Ok(()));
    }
    let mut entries = handoff.entries();
    assert_eq!(entries.len(), 4);
    entries.sort();
    assert_eq!(entries, vec![0, 1, 2, 3]);
    assert_eq!(handoff.primary(), Some(PrimaryEntry { cpu_id: 0, arg: 0xDEAD_BEEF }));
    assert_eq!(handoff.enter_secondary(2), Err(HandoffError::AlreadyEntered));
    assert_eq!(handoff.enter_primary(1, 0), Err(HandoffError::PrimaryAlreadyEntered));
    assert_eq!(handoff.enter_secondary(4), Err(HandoffError::CpuOutOfRange));
    assert_eq!(handoff.entries().len(), 4);
}

#[test]
fn primary_core_cannot_reenter() {
    let mut handoff = BootHandoff::new(2);
    assert_eq!(handoff.enter_secondary(1), Ok(()));
    assert_eq!(handoff.enter_primary(1, 0), Err(HandoffError::AlreadyEntered));
    assert!(handoff.entered(1));
    assert!(!handoff.entered(0));
}

#[test]
fn deferred_cell_refuses_second_init() {
    let cell: LazyInit<u64> = LazyInit::new();
    assert!(!cell.is_inited());
    cell.init_once(7);
    assert!(cell.call_once(|| 9).is_none());
    assert_eq!(*cell, 7);
    assert_eq!(cell.get(), Some(&7));
}

#[test]
fn plic_after_init_gives_register_accesses() {
    let mut plic = Plic::new();
    let writes = plic.init().unwrap();
    assert!(plic.is_initialized());
    assert_eq!(writes.len(), 1024);
    assert_eq!(writes[0], RegWrite { addr: 0x0c00_0004, value: 1 });
    assert_eq!(writes[1023], RegWrite { addr: 0x0c20_0000, value: 0 });
    assert_eq!(plic.set_priority(10, 3), Ok(RegWrite { addr: 0x0c00_0028, value: 3 }));
    assert_eq!(plic.enable_interrupt(1, 33), Ok(RegBits { addr: 0x0c00_2084, mask: 2 }));
    assert_eq!(plic.set_threshold(2, 5), Ok(RegWrite { addr: 0x0c20_2000, value: 5 }));
    assert_eq!(plic.claim(1), Ok(0x0c20_1004));
    assert_eq!(plic.complete(0, 9), Ok(RegWrite { addr: 0x0c20_0004, value: 9 }));
    assert_eq!(plic.is_pending(64), Ok(RegBits { addr: 0x0c00_1008, mask: 1 }));
    assert_eq!(plic.get_priority(0), Err(PlicError::InvalidInterruptId));
    assert_eq!(plic.enable_interrupts_batch(0, &[1, 40]).unwrap().len(), 2);
    assert_eq!(plic.disable_interrupts_batch(0, &[1, 1024]), Err(PlicError::InvalidInterruptId));
    assert_eq!(claimed(0), None);
    assert_eq!(claimed(17), Some(17));
    let bits = RegBits { addr: 0, mask: 4 };
    assert_eq!(bits.set_in(1), 5);
    assert_eq!(bits.clear_in(7), 3);
    assert!(bits.any_in(4));
    assert!(!bits.any_in(3));
}

#[test]
fn gic_enables_on_register_and_disables_on_unregister() {
    let mut gic: Gic<fn()> = Gic::new();
    assert!(gic.register_handler(30, gic_handler as fn()));
    assert!(!gic.register_handler(30, nop as fn()));
    assert!(!gic.register_handler(1024, nop as fn()));
    assert!(gic.handle_irq(30));
    assert!(!gic.handle_irq(31));
    assert_eq!(GIC_CALLS.load(Ordering::SeqCst), 1);
    assert!(gic.unregister_handler(30).is_some());
    gic.send_ipi_one(2, 1);
    gic.send_ipi_all_others(1, 0, 4);
    gic.init_gicc();
    assert_eq!(
        gic.take_requests(),
        vec![
            GicRequest::SetEnable { irq_num: 30, enabled: true },
            GicRequest::SetEnable { irq_num: 30, enabled: false },
            GicRequest::SendSgi { dest_cpu_id: 2, irq_num: 1 },
            GicRequest::SendSgiAllExceptSelf { irq_num: 1 },
            GicRequest::InitCpuInterface,
        ]
    );
    assert!(gic.take_requests().is_empty());
}

#[test]
fn loongarch_irq_types_and_dispatch() {
    assert_eq!(IrqType::new(TIMER_IRQ), IrqType::Timer);
    assert_eq!(IrqType::new(IPI_IRQ), IrqType::Ipi);
    assert_eq!(IrqType::new(EIOINTC_IRQ), IrqType::Io);
    assert_eq!(IrqType::new(5), IrqType::Ex(5));
    assert_eq!(IrqType::Ex(5).as_usize(), 5);
    assert_eq!(IrqType::Timer.as_usize(), 11);

    let mut irq: LoongArchIrq<fn()> = LoongArchIrq::new();
    assert!(irq.register(5, la_handler as fn()));
    assert!(irq.register(TIMER_IRQ, nop as fn()));
    assert_eq!(irq.handle(EIOINTC_IRQ, Some(5)), Some(5));
    assert_eq!(irq.handle(EIOINTC_IRQ, None), None);
    assert_eq!(irq.handle(TIMER_IRQ, None), Some(TIMER_IRQ));
    assert_eq!(LA_CALLS.load(Ordering::SeqCst), 1);
    assert!(irq.unregister(6).is_none());
    assert!(irq.unregister(5).is_some());
    irq.send_ipi(IPI_IRQ, IpiTarget::Other { cpu_id: 1 });
    assert_eq!(
        irq.take_requests(),
        vec![
            LaRequest::External { irq: 5, enabled: true },
            LaRequest::TimerLine { enabled: true },
            LaRequest::CompleteExternal { irq: 5 },
            LaRequest::ClearTimer,
            LaRequest::External { irq: 5, enabled: false },
            LaRequest::SendIpi { value: 0x8001_0000 },
        ]
    );
}

#[test]
fn apic_ids_and_vectors() {
    assert_eq!(raw_apic_id(5, true), 5);
    assert_eq!(raw_apic_id(5, false), 0x0500_0000);
    let mut apic: ApicIrq<fn()> = ApicIrq::new();
    assert!(apic.register(0x21, nop as fn()));
    assert!(apic.register(0xf0, nop as fn()));
    assert!(apic.handle(0x21));
    assert!(!apic.handle(0x22));
    assert!(apic.unregister(0xf0).is_some());
    assert_eq!(
        apic.take_requests(),
        vec![
            ApicRequest::IoApicLine { vector: 0x21, enabled: true },
            ApicRequest::EndOfInterrupt,
            ApicRequest::EndOfInterrupt,
        ]
    );
}

#[test]
fn riscv_causes_and_dispatch() {
    assert_eq!(INTC_IRQ_BASE, 1usize << (usize::BITS - 1));
    assert_eq!(S_TIMER, INTC_IRQ_BASE + 5);
    let mut irq: RiscvIrq<fn()> = RiscvIrq::new();
    assert!(irq.register(S_TIMER, rv_timer_handler as fn()));
    assert!(!irq.register(S_TIMER, nop as fn()));
    assert!(!irq.register(S_EXT, nop as fn()));
    assert!(irq.handle(S_TIMER, None));
    assert_eq!(RV_TIMER_CALLS.load(Ordering::SeqCst), 1);
    assert!(!irq.handle(S_SOFT, None));
    assert_eq!(irq.take_requests(), vec![RvRequest::ClearSoftPending]);

    assert!(irq.register(10, rv_device_handler as fn()));
    assert!(irq.take_requests().is_empty());
    irq.init_percpu();
    assert!(irq.plic().is_initialized());
    let init = irq.take_requests();
    assert_eq!(init.len(), 1027);
    assert_eq!(init[1026], RvRequest::Sie { line: SieLine::External, enabled: true });
    irq.set_enable(10, true);
    assert!(irq.handle(S_EXT, Some(10)));
    assert_eq!(RV_DEVICE_CALLS.load(Ordering::SeqCst), 1);
    assert_eq!(
        irq.take_requests(),
        vec![
            RvRequest::PlicSet { bits: RegBits { addr: 0x0c00_2000, mask: 1 << 10 } },
            RvRequest::PlicWrite { write: RegWrite { addr: 0x0c20_0004, value: 10 } },
        ]
    );
    assert!(irq.unregister(S_TIMER).is_some());
    assert!(irq.unregister(S_TIMER).is_none());
    irq.send_ipi(1, IpiTarget::AllExceptCurrent { cpu_id: 0, cpu_num: 3 });
    assert_eq!(
        irq.take_requests(),
        vec![
            RvRequest::Sie { line: SieLine::Timer, enabled: false },
            RvRequest::SbiSendIpi { mask: 2 },
            RvRequest::SbiSendIpi { mask: 4 },
        ]
    );
    assert!(irq.unregister(10).is_some());
    assert!(irq.unregister(10).is_none());
    assert_eq!(
        irq.take_requests(),
        vec![RvRequest::PlicClear { bits: RegBits { addr: 0x0c00_2000, mask: 1 << 10 } }]
    );
    irq.init_percpu();
    assert_eq!(irq.take_requests().len(), 3);
    assert!(irq.dispatch_target(S_SOFT, None).is_none());
}

#[test]
fn console_expands_line_feeds() {
    assert_eq!(write_bytes(b"a\nb"), b"a\r\nb".to_vec());
    assert_eq!(write_bytes(b""), Vec::<u8>::new());
}

#[test]
fn boot_layouts() {
    let sections = arm_boot_sections();
    assert_eq!(sections.len(), 4096);
    assert_eq!(sections[0x3ff].kind, BlockKind::Device);
    assert_eq!(sections[0x400].kind, BlockKind::Normal);
    assert_eq!(sections[0x47f].kind, BlockKind::Normal);
    assert_eq!(sections[0x480].kind, BlockKind::Device);
    assert_eq!(sections[0x400].paddr, 0x4000_0000);
    let blocks = loongarch_boot_blocks();
    assert_eq!(blocks[1].paddr, 0x8000_0000);
    assert!(lvz_available(0x400));
    assert!(!lvz_available(0x3ff));
    let steps = startup_sequence(0x0300_0000);
    assert_eq!(steps[0], StartupStep::Init { apic_id: 0x0300_0000 });
    assert_eq!(steps[2], StartupStep::Sipi { page: 6, apic_id: 0x0300_0000 });
}

#[test]
fn memory_layout() {
    assert_eq!(phys_ram_ranges(None), vec![(0x8020_0000, 0x7e0_0000)]);
    assert_eq!(phys_to_virt(0x8020_0000), 0xffff_ffc0_8020_0000);
    assert_eq!(virt_to_phys(0xffff_ffc0_8020_0000), 0x8020_0000);
}

#[test]
fn sgi_register_values() {
    assert_eq!(sgir_value_one(2, 1), 0x0004_0001);
    assert_eq!(sgir_value_all_except_self(1), 0x0100_0001);
}

#[test]
fn hardware_ids_by_logical_id() {
    let list = [0x0, 0x100, 0x200, 0x300];
    assert_eq!(hardware_cpu_id(2, &list), Some(0x200));
    assert_eq!(hardware_cpu_id(4, &list), None);
}

#[test]
fn plic_second_init_is_refused() {
    let mut plic = Plic::new();
    assert!(plic.init().is_ok());
    assert_eq!(plic.init(), Err(PlicError::AlreadyInitialized));
    assert!(plic.is_initialized());
}

#[test]
fn unregister_of_empty_slot_queues_nothing() {
    let mut gic: Gic<fn()> = Gic::new();
    assert!(gic.unregister_handler(40).is_none());
    assert!(gic.unregister_handler(5000).is_none());
    assert!(gic.take_requests().is_empty());
    let mut apic: ApicIrq<fn()> = ApicIrq::new();
    assert!(apic.unregister(0x21).is_none());
    assert!(apic.take_requests().is_empty());
    let mut la: LoongArchIrq<fn()> = LoongArchIrq::new();
    assert!(la.unregister(5).is_none());
    assert!(la.take_requests().is_empty());
    let mut rv: RiscvIrq<fn()> = RiscvIrq::new();
    assert!(rv.unregister(7).is_none());
    assert!(rv.take_requests().is_empty());
}

#[test]
fn out_of_range_registration_on_controllers() {
    let mut gic: Gic<fn()> = Gic::new();
    assert!(!gic.register_handler(1024, nop as fn()));
    assert!(gic.handler_for(1024).is_none());
    let mut la: LoongArchIrq<fn()> = LoongArchIrq::new();
    assert!(!la.register(13, nop as fn()));
    let mut apic: ApicIrq<fn()> = ApicIrq::new();
    assert!(!apic.register(256, nop as fn()));
    assert!(gic.take_requests().is_empty());
    assert!(la.take_requests().is_empty());
    assert!(apic.take_requests().is_empty());
}

#[test]
fn dispatch_lookup_then_acknowledge() {
    let mut la: LoongArchIrq<fn()> = LoongArchIrq::new();
    assert!(la.register(6, nop as fn()));
    la.take_requests();
    assert!(la.dispatch_target(EIOINTC_IRQ, Some(6)).is_some());
    assert!(la.dispatch_target(EIOINTC_IRQ, None).is_none());
    assert_eq!(la.acknowledge(EIOINTC_IRQ, Some(6)), Some(6));
    assert_eq!(la.take_requests(), vec![LaRequest::CompleteExternal { irq: 6 }]);
    let mut apic: ApicIrq<fn()> = ApicIrq::new();
    assert!(apic.register(0x30, nop as fn()));
    assert!(apic.handler_for(0x30).is_some());
    apic.end_of_interrupt();
    assert_eq!(
        apic.take_requests(),
        vec![ApicRequest::IoApicLine { vector: 0x30, enabled: true }, ApicRequest::EndOfInterrupt]
    );
}

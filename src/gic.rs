//! Interrupt dispatch for the ARM generic interrupt controller (GICv2).
//!
//! The controller state here decides; each register access it calls for is queued
//! as a [`GicRequest`], which the caller performs on the distributor or the CPU
//! interface and takes out with [`Gic::take_requests`].
use vstd::prelude::*;
use crate::handler_table::{HandlerTable, after_register, after_unregister, register_succeeds, slot};

verus! {

/// The number of interrupt numbers the GIC handles.
pub const GIC_MAX_IRQ_COUNT: usize = 1024;

/// Offset of the software-generated interrupt register in the distributor.
pub const GICD_SGIR: usize = 0xf00;
/// Target-list filter of the SGI register that selects every core but the sender.
pub const SGIR_ALL_EXCEPT_SELF: u32 = 0x100_0000;

/// The SGI register value that sends software-generated interrupt `irq_num` to
/// core `dest_cpu_id` alone.
pub fn sgir_value_one(dest_cpu_id: usize, irq_num: usize) -> (r: u32)
    requires
        dest_cpu_id < 8,
        irq_num < 16,
    ensures
        r == (1u32 << ((16 + dest_cpu_id) as u32)) | (irq_num as u32),
{
    (1u32 << ((16 + dest_cpu_id) as u32)) | (irq_num as u32)
}

/// The SGI register value that sends software-generated interrupt `irq_num` to
/// every core but the sender.
pub fn sgir_value_all_except_self(irq_num: usize) -> (r: u32)
    requires
        irq_num < 16,
    ensures
        r == SGIR_ALL_EXCEPT_SELF | (irq_num as u32),
{
    SGIR_ALL_EXCEPT_SELF | (irq_num as u32)
}

/// A register access on the GIC.
#[derive(Debug, Clone, Copy, PartialEq, Eq, Structural)]
pub enum GicRequest {
    /// Enable or disable interrupt `irq_num` at the distributor.
    SetEnable { irq_num: usize, enabled: bool },
    /// Send software-generated interrupt `irq_num` to core `dest_cpu_id`.
    SendSgi { dest_cpu_id: usize, irq_num: usize },
    /// Send software-generated interrupt `irq_num` to every core but the sender.
    SendSgiAllExceptSelf { irq_num: usize },
    /// Initialise the CPU interface of the calling core.
    InitCpuInterface,
}

/// What a GIC controller holds, as mathematical values.
pub ghost struct GicView<H> {
    pub handlers: Seq<Option<H>>,
    pub requests: Seq<GicRequest>,
}

/// GIC interrupt state: the handler table and the register accesses not yet made.
pub struct Gic<H> {
    table: HandlerTable<H>,
    requests: Vec<GicRequest>,
}

impl<H> View for Gic<H> {
    type V = GicView<H>;

    closed spec fn view(&self) -> GicView<H> {
        GicView { handlers: self.table@, requests: self.requests@ }
    }
}

impl<H> Gic<H> {
    /// Well-formedness: the table has a slot for every interrupt number the GIC handles.
    pub open spec fn wf(&self) -> bool {
        self@.handlers.len() == GIC_MAX_IRQ_COUNT
    }
}

impl<H: Copy> Gic<H> {
    /// A controller with no handler and nothing queued.
    pub fn new() -> (r: Self)
        ensures
            r.wf(),
            r@.handlers.len() == GIC_MAX_IRQ_COUNT,
            forall|i: int| 0 <= i < GIC_MAX_IRQ_COUNT ==> (#[trigger] r@.handlers[i]) is None,
            r@.requests == Seq::<GicRequest>::empty(),
    {
        let r = Gic { table: HandlerTable::new(GIC_MAX_IRQ_COUNT), requests: Vec::new() };
        assert(r.requests@ =~= Seq::<GicRequest>::empty());
        r
    }

    /// Enables or disables interrupt `irq_num`.
    pub fn set_enable(&mut self, irq_num: usize, enabled: bool)
        requires
            old(self).wf(),
        ensures
            final(self).wf(),
            final(self)@.handlers == old(self)@.handlers,
            final(self)@.requests == old(self)@.requests.push(GicRequest::SetEnable { irq_num, enabled }),
    {
        self.requests.push(GicRequest::SetEnable { irq_num, enabled });
    }

    /// Registers `handler` for `irq_num` and, if that succeeds, enables the interrupt.
    /// Returns whether it succeeded.
    pub fn register_handler(&mut self, irq_num: usize, handler: H) -> (r: bool)
        requires
            old(self).wf(),
        ensures
            final(self).wf(),
            r == register_succeeds(old(self)@.handlers, irq_num as int),
            final(self)@.handlers == after_register(old(self)@.handlers, irq_num as int, handler),
            final(self)@.requests == if r {
                old(self)@.requests.push(GicRequest::SetEnable { irq_num, enabled: true })
            } else {
                old(self)@.requests
            },
    {
        if self.table.register_handler(irq_num, handler) {
            self.set_enable(irq_num, true);
            true
        } else {
            false
        }
    }

    /// Unregisters the handler of `irq_num` and returns it; if there was one, also
    /// disables the interrupt. An empty slot is left as it is.
    pub fn unregister_handler(&mut self, irq_num: usize) -> (r: Option<H>)
        requires
            old(self).wf(),
        ensures
            final(self).wf(),
            r == slot(old(self)@.handlers, irq_num as int),
            final(self)@.handlers == after_unregister(old(self)@.handlers, irq_num as int),
            final(self)@.requests == if r is Some {
                old(self)@.requests.push(GicRequest::SetEnable { irq_num, enabled: false })
            } else {
                old(self)@.requests
            },
    {
        let r = self.table.unregister_handler(irq_num);
        if r.is_some() {
            self.set_enable(irq_num, false);
        }
        r
    }

    /// The handler registered for `irq_num`, if any.
    pub fn handler_for(&self, irq_num: usize) -> (r: Option<H>)
        requires
            self.wf(),
        ensures
            r == slot(self@.handlers, irq_num as int),
    {
        self.table.get_handler(irq_num)
    }

    /// Sends software-generated interrupt `irq_num` to core `dest_cpu_id`.
    pub fn send_ipi_one(&mut self, dest_cpu_id: usize, irq_num: usize)
        requires
            old(self).wf(),
        ensures
            final(self).wf(),
            final(self)@.handlers == old(self)@.handlers,
            final(self)@.requests == old(self)@.requests.push(GicRequest::SendSgi { dest_cpu_id, irq_num }),
    {
        self.requests.push(GicRequest::SendSgi { dest_cpu_id, irq_num });
    }

    /// Sends software-generated interrupt `irq_num` to every core but the sender.
    pub fn send_ipi_all_others(&mut self, irq_num: usize, _src_cpu_id: usize, _cpu_num: usize)
        requires
            old(self).wf(),
        ensures
            final(self).wf(),
            final(self)@.handlers == old(self)@.handlers,
            final(self)@.requests == old(self)@.requests.push(GicRequest::SendSgiAllExceptSelf { irq_num }),
    {
        self.requests.push(GicRequest::SendSgiAllExceptSelf { irq_num });
    }

    /// Initialises the CPU interface of the calling core.
    pub fn init_gicc(&mut self)
        requires
            old(self).wf(),
        ensures
            final(self).wf(),
            final(self)@.handlers == old(self)@.handlers,
            final(self)@.requests == old(self)@.requests.push(GicRequest::InitCpuInterface),
    {
        self.requests.push(GicRequest::InitCpuInterface);
    }

    /// Takes out the register accesses queued so far, oldest first.
    pub fn take_requests(&mut self) -> (r: Vec<GicRequest>)
        requires
            old(self).wf(),
        ensures
            final(self).wf(),
            r@ == old(self)@.requests,
            final(self)@.handlers == old(self)@.handlers,
            final(self)@.requests == Seq::<GicRequest>::empty(),
    {
        let r = self.requests.clone();
        self.requests = Vec::new();
        assert(r@ =~= old(self)@.requests);
        assert(self.requests@ =~= Seq::<GicRequest>::empty());
        r
    }
}

impl<H: Copy + Fn()> Gic<H> {
    /// Dispatches interrupt `irq_num`, acknowledged at the CPU interface, to its
    /// handler. Returns whether a handler was invoked.
    pub fn handle_irq(&self, irq_num: usize) -> (r: bool)
        requires
            self.wf(),
            slot(self@.handlers, irq_num as int) is Some ==> call_requires(slot(self@.handlers, irq_num as int)->0, ()),
        ensures
            r == slot(self@.handlers, irq_num as int) is Some,
            r ==> call_ensures(slot(self@.handlers, irq_num as int)->0, (), ()),
    {
        self.table.handle(irq_num)
    }
}

} // verus!

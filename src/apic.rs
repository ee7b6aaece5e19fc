//! Interrupt dispatch for the x86 PC: the local APIC and the I/O APIC.
//!
//! Vectors below the timer vector belong to the I/O APIC; the ones above are the
//! local APIC's own. The state here decides; the register accesses it calls for are
//! queued as [`ApicRequest`]s.
use vstd::prelude::*;
use crate::handler_table::{HandlerTable, after_register, after_unregister, register_succeeds, slot};

verus! {

/// Vector of the local APIC timer.
pub const APIC_TIMER_VECTOR: u8 = 0xf0;
/// Vector of spurious local APIC interrupts.
pub const APIC_SPURIOUS_VECTOR: u8 = 0xf1;
/// Vector of local APIC errors.
pub const APIC_ERROR_VECTOR: u8 = 0xf2;
/// The number of vectors handled.
pub const APIC_MAX_IRQ_COUNT: usize = 256;

/// The APIC id that the local APIC's interrupt command register takes for the
/// 8-bit id `id_u8`: the id itself in x2APIC mode, else the id in bits 24..32.
pub fn raw_apic_id(id_u8: u8, is_x2apic: bool) -> (r: u32)
    ensures
        r as int == (if is_x2apic { id_u8 as int } else { id_u8 as int * 0x100_0000 }),
{
    if is_x2apic {
        id_u8 as u32
    } else {
        (id_u8 as u32) * 0x100_0000
    }
}

/// A register access on the APICs.
#[derive(Debug, Clone, Copy, PartialEq, Eq, Structural)]
pub enum ApicRequest {
    /// Enable or disable line `vector` at the I/O APIC.
    IoApicLine { vector: u8, enabled: bool },
    /// Signal end of interrupt to the local APIC.
    EndOfInterrupt,
}

/// The accesses that enable or disable `vector`: none for the local APIC's vectors.
pub open spec fn apic_enable_requests(vector: usize, enabled: bool) -> Seq<ApicRequest> {
    if vector < APIC_TIMER_VECTOR {
        seq![ApicRequest::IoApicLine { vector: vector as u8, enabled }]
    } else {
        seq![]
    }
}

/// What an APIC controller holds, as mathematical values.
pub ghost struct ApicView<H> {
    pub handlers: Seq<Option<H>>,
    pub requests: Seq<ApicRequest>,
}

/// APIC interrupt state: the handler table and the accesses not yet made.
pub struct ApicIrq<H> {
    table: HandlerTable<H>,
    requests: Vec<ApicRequest>,
}

impl<H> View for ApicIrq<H> {
    type V = ApicView<H>;

    closed spec fn view(&self) -> ApicView<H> {
        ApicView { handlers: self.table@, requests: self.requests@ }
    }
}

impl<H> ApicIrq<H> {
    /// Well-formedness: the table has a slot for every vector.
    pub open spec fn wf(&self) -> bool {
        self@.handlers.len() == APIC_MAX_IRQ_COUNT
    }
}

impl<H: Copy> ApicIrq<H> {
    /// A controller with no handler and nothing queued.
    pub fn new() -> (r: Self)
        ensures
            r.wf(),
            r@.handlers.len() == APIC_MAX_IRQ_COUNT,
            forall|i: int| 0 <= i < APIC_MAX_IRQ_COUNT ==> (#[trigger] r@.handlers[i]) is None,
            r@.requests == Seq::<ApicRequest>::empty(),
    {
        let r = ApicIrq { table: HandlerTable::new(APIC_MAX_IRQ_COUNT), requests: Vec::new() };
        assert(r.requests@ =~= Seq::<ApicRequest>::empty());
        r
    }

    /// Enables or disables `vector`; the local APIC's own vectors are left alone.
    pub fn set_enable(&mut self, vector: usize, enabled: bool)
        requires
            old(self).wf(),
        ensures
            final(self).wf(),
            final(self)@.handlers == old(self)@.handlers,
            final(self)@.requests == old(self)@.requests + apic_enable_requests(vector, enabled),
    {
        let ghost before = self.requests@;
        if vector < APIC_TIMER_VECTOR as usize {
            self.requests.push(ApicRequest::IoApicLine { vector: vector as u8, enabled });
        }
        assert(self.requests@ =~= before + apic_enable_requests(vector, enabled));
    }

    /// Registers `handler` for `vector` and, if that succeeds, enables it.
    pub fn register(&mut self, vector: usize, handler: H) -> (r: bool)
        requires
            old(self).wf(),
        ensures
            final(self).wf(),
            r == register_succeeds(old(self)@.handlers, vector as int),
            final(self)@.handlers == after_register(old(self)@.handlers, vector as int, handler),
            final(self)@.requests == if r {
                old(self)@.requests + apic_enable_requests(vector, true)
            } else {
                old(self)@.requests
            },
    {
        if self.table.register_handler(vector, handler) {
            self.set_enable(vector, true);
            true
        } else {
            false
        }
    }

    /// Unregisters the handler of `vector` and returns it; if there was one, also
    /// disables the vector. An empty slot is left as it is.
    pub fn unregister(&mut self, vector: usize) -> (r: Option<H>)
        requires
            old(self).wf(),
        ensures
            final(self).wf(),
            r == slot(old(self)@.handlers, vector as int),
            final(self)@.handlers == after_unregister(old(self)@.handlers, vector as int),
            final(self)@.requests == if r is Some {
                old(self)@.requests + apic_enable_requests(vector, false)
            } else {
                old(self)@.requests
            },
    {
        let r = self.table.unregister_handler(vector);
        if r.is_some() {
            self.set_enable(vector, false);
        }
        r
    }

    /// The handler registered for `vector`, if any.
    pub fn handler_for(&self, vector: usize) -> (r: Option<H>)
        requires
            self.wf(),
        ensures
            r == slot(self@.handlers, vector as int),
    {
        self.table.get_handler(vector)
    }

    /// Queues the end of interrupt that follows dispatch.
    pub fn end_of_interrupt(&mut self)
        requires
            old(self).wf(),
        ensures
            final(self).wf(),
            final(self)@.handlers == old(self)@.handlers,
            final(self)@.requests == old(self)@.requests.push(ApicRequest::EndOfInterrupt),
    {
        self.requests.push(ApicRequest::EndOfInterrupt);
    }

    /// Takes out the accesses queued so far, oldest first.
    pub fn take_requests(&mut self) -> (r: Vec<ApicRequest>)
        requires
            old(self).wf(),
        ensures
            final(self).wf(),
            r@ == old(self)@.requests,
            final(self)@.handlers == old(self)@.handlers,
            final(self)@.requests == Seq::<ApicRequest>::empty(),
    {
        let r = self.requests.clone();
        self.requests = Vec::new();
        assert(r@ =~= old(self)@.requests);
        assert(self.requests@ =~= Seq::<ApicRequest>::empty());
        r
    }
}

impl<H: Copy + Fn()> ApicIrq<H> {
    /// Dispatches `vector` to its handler, then queues the end of interrupt.
    /// Returns whether a handler was invoked.
    pub fn handle(&mut self, vector: usize) -> (r: bool)
        requires
            old(self).wf(),
            slot(old(self)@.handlers, vector as int) is Some ==> call_requires(slot(old(self)@.handlers, vector as int)->0, ()),
        ensures
            r == slot(old(self)@.handlers, vector as int) is Some,
            r ==> call_ensures(slot(old(self)@.handlers, vector as int)->0, (), ()),
            final(self).wf(),
            final(self)@.handlers == old(self)@.handlers,
            final(self)@.requests == old(self)@.requests.push(ApicRequest::EndOfInterrupt),
    {
        let r = self.table.handle(vector);
        self.end_of_interrupt();
        r
    }
}

} // verus!

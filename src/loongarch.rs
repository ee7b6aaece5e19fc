//! Interrupt dispatch for the LoongArch QEMU virt board.
//!
//! Line interrupts (timer, inter-processor) are wired to the CPU; device interrupts
//! reach it through the extended I/O interrupt controller on one line. The state
//! here decides; the register accesses it calls for are queued as [`LaRequest`]s.
use vstd::prelude::*;
use crate::handler_table::{HandlerTable, after_register, after_unregister, register_succeeds, slot};
use crate::ipi::{IpiTarget, destinations_spec, loongarch_ipi_values, IOCSR_IPI_SEND_BLOCKING, IOCSR_IPI_SEND_CPU_SHIFT};

verus! {

/// Interrupt number of the timer line.
pub const TIMER_IRQ: usize = 11;
/// Interrupt number of the inter-processor interrupt line.
pub const IPI_IRQ: usize = 12;
/// Interrupt number of the line of the extended I/O interrupt controller.
pub const EIOINTC_IRQ: usize = 3;
/// The number of interrupt numbers handled.
pub const LA_MAX_IRQ_COUNT: usize = 13;

/// What an interrupt number stands for.
#[derive(Debug, Clone, Copy, PartialEq, Eq, Structural)]
pub enum IrqType {
    Timer,
    Ipi,
    Io,
    Ex(usize),
}

impl IrqType {
    /// Classifies interrupt number `irq`.
    pub fn new(irq: usize) -> (r: Self)
        ensures
            r == (if irq == TIMER_IRQ {
                IrqType::Timer
            } else if irq == IPI_IRQ {
                IrqType::Ipi
            } else if irq == EIOINTC_IRQ {
                IrqType::Io
            } else {
                IrqType::Ex(irq)
            }),
    {
        if irq == TIMER_IRQ {
            IrqType::Timer
        } else if irq == IPI_IRQ {
            IrqType::Ipi
        } else if irq == EIOINTC_IRQ {
            IrqType::Io
        } else {
            IrqType::Ex(irq)
        }
    }

    /// The interrupt number this stands for.
    pub fn as_usize(&self) -> (r: usize)
        ensures
            r == irq_number(*self),
    {
        match self {
            IrqType::Timer => TIMER_IRQ,
            IrqType::Ipi => IPI_IRQ,
            IrqType::Io => EIOINTC_IRQ,
            IrqType::Ex(n) => *n,
        }
    }
}

/// The interrupt number `t` stands for.
pub open spec fn irq_number(t: IrqType) -> usize {
    match t {
        IrqType::Timer => TIMER_IRQ,
        IrqType::Ipi => IPI_IRQ,
        IrqType::Io => EIOINTC_IRQ,
        IrqType::Ex(n) => n,
    }
}

/// A register access on the board's interrupt hardware.
#[derive(Debug, Clone, Copy, PartialEq, Eq, Structural)]
pub enum LaRequest {
    /// Enable or disable the timer line.
    TimerLine { enabled: bool },
    /// Enable or disable the inter-processor interrupt line and its sources.
    IpiLine { enabled: bool },
    /// Enable or disable device interrupt `irq` at both device controllers.
    External { irq: usize, enabled: bool },
    /// Clear the pending timer interrupt.
    ClearTimer,
    /// Clear the pending inter-processor interrupt.
    ClearIpi,
    /// Complete device interrupt `irq` at the extended controller.
    CompleteExternal { irq: usize },
    /// Write `value` to the IPI send register.
    SendIpi { value: u32 },
}

/// The accesses that enable or disable interrupt number `irq`.
pub open spec fn enable_requests(irq: usize, enabled: bool) -> Seq<LaRequest> {
    if irq == TIMER_IRQ {
        seq![LaRequest::TimerLine { enabled }]
    } else if irq == IPI_IRQ {
        seq![LaRequest::IpiLine { enabled }]
    } else if irq == EIOINTC_IRQ {
        seq![]
    } else {
        seq![LaRequest::External { irq, enabled }]
    }
}

/// The access that acknowledges an interrupt of type `t` after dispatch.
pub open spec fn ack_requests(t: IrqType) -> Seq<LaRequest> {
    match t {
        IrqType::Timer => seq![LaRequest::ClearTimer],
        IrqType::Ipi => seq![LaRequest::ClearIpi],
        IrqType::Io => seq![],
        IrqType::Ex(n) => seq![LaRequest::CompleteExternal { irq: n }],
    }
}

/// What a LoongArch controller holds, as mathematical values.
pub ghost struct LaView<H> {
    pub handlers: Seq<Option<H>>,
    pub requests: Seq<LaRequest>,
}

/// LoongArch interrupt state: the handler table and the accesses not yet made.
pub struct LoongArchIrq<H> {
    table: HandlerTable<H>,
    requests: Vec<LaRequest>,
}

impl<H> View for LoongArchIrq<H> {
    type V = LaView<H>;

    closed spec fn view(&self) -> LaView<H> {
        LaView { handlers: self.table@, requests: self.requests@ }
    }
}

impl<H> LoongArchIrq<H> {
    /// Well-formedness: the table has a slot for every interrupt number handled.
    pub open spec fn wf(&self) -> bool {
        self@.handlers.len() == LA_MAX_IRQ_COUNT
    }
}

impl<H: Copy> LoongArchIrq<H> {
    /// A controller with no handler and nothing queued.
    pub fn new() -> (r: Self)
        ensures
            r.wf(),
            r@.handlers.len() == LA_MAX_IRQ_COUNT,
            forall|i: int| 0 <= i < LA_MAX_IRQ_COUNT ==> (#[trigger] r@.handlers[i]) is None,
            r@.requests == Seq::<LaRequest>::empty(),
    {
        let r = LoongArchIrq { table: HandlerTable::new(LA_MAX_IRQ_COUNT), requests: Vec::new() };
        assert(r.requests@ =~= Seq::<LaRequest>::empty());
        r
    }

    /// Enables or disables interrupt number `irq`.
    pub fn set_enable(&mut self, irq: usize, enabled: bool)
        requires
            old(self).wf(),
        ensures
            final(self).wf(),
            final(self)@.handlers == old(self)@.handlers,
            final(self)@.requests == old(self)@.requests + enable_requests(irq, enabled),
    {
        let ghost before = self.requests@;
        match IrqType::new(irq) {
            IrqType::Timer => self.requests.push(LaRequest::TimerLine { enabled }),
            IrqType::Ipi => self.requests.push(LaRequest::IpiLine { enabled }),
            IrqType::Io => {},
            IrqType::Ex(n) => self.requests.push(LaRequest::External { irq: n, enabled }),
        }
        assert(self.requests@ =~= before + enable_requests(irq, enabled));
    }

    /// Registers `handler` for `irq` and, if that succeeds, enables the interrupt.
    pub fn register(&mut self, irq: usize, handler: H) -> (r: bool)
        requires
            old(self).wf(),
        ensures
            final(self).wf(),
            r == register_succeeds(old(self)@.handlers, irq as int),
            final(self)@.handlers == after_register(old(self)@.handlers, irq as int, handler),
            final(self)@.requests == if r {
                old(self)@.requests + enable_requests(irq, true)
            } else {
                old(self)@.requests
            },
    {
        if self.table.register_handler(irq, handler) {
            self.set_enable(irq, true);
            true
        } else {
            false
        }
    }

    /// Unregisters the handler of `irq` and, if there was one, disables the interrupt.
    pub fn unregister(&mut self, irq: usize) -> (r: Option<H>)
        requires
            old(self).wf(),
        ensures
            final(self).wf(),
            r == slot(old(self)@.handlers, irq as int),
            final(self)@.handlers == after_unregister(old(self)@.handlers, irq as int),
            final(self)@.requests == if r is Some {
                old(self)@.requests + enable_requests(irq, false)
            } else {
                old(self)@.requests
            },
    {
        let r = self.table.unregister_handler(irq);
        if r.is_some() {
            self.set_enable(irq, false);
        }
        r
    }

    /// Sends an inter-processor interrupt to `target`.
    pub fn send_ipi(&mut self, _irq_num: usize, target: IpiTarget)
        requires
            old(self).wf(),
        ensures
            final(self).wf(),
            final(self)@.handlers == old(self)@.handlers,
            final(self)@.requests.len() == old(self)@.requests.len() + destinations_spec(target).len(),
            forall|i: int| 0 <= i < old(self)@.requests.len() ==> #[trigger] final(self)@.requests[i] == old(self)@.requests[i],
            forall|i: int|
                0 <= i < destinations_spec(target).len() ==> #[trigger] final(self)@.requests[old(self)@.requests.len() + i]
                    == (LaRequest::SendIpi {
                    value: (((destinations_spec(target)[i] as u32) << IOCSR_IPI_SEND_CPU_SHIFT) | 0u32)
                        | IOCSR_IPI_SEND_BLOCKING,
                }),
    {
        let values = loongarch_ipi_values(target);
        let ghost before = self.requests@;
        let mut i: usize = 0;
        while i < values.len()
            invariant
                self.table@ == old(self)@.handlers,
                before == old(self)@.requests,
                values@.len() == destinations_spec(target).len(),
                forall|k: int|
                    0 <= k < values@.len() ==> #[trigger] values@[k] == (((destinations_spec(target)[k] as u32)
                        << IOCSR_IPI_SEND_CPU_SHIFT) | 0u32) | IOCSR_IPI_SEND_BLOCKING,
                i <= values@.len(),
                self.requests@.len() == before.len() + i,
                forall|k: int| 0 <= k < before.len() ==> #[trigger] self.requests@[k] == before[k],
                forall|k: int| 0 <= k < i ==> #[trigger] self.requests@[before.len() + k] == (LaRequest::SendIpi { value: values@[k] }),
            decreases values@.len() - i,
        {
            self.requests.push(LaRequest::SendIpi { value: values[i] });
            i = i + 1;
        }
    }

    /// Takes out the accesses queued so far, oldest first.
    pub fn take_requests(&mut self) -> (r: Vec<LaRequest>)
        requires
            old(self).wf(),
        ensures
            final(self).wf(),
            r@ == old(self)@.requests,
            final(self)@.handlers == old(self)@.handlers,
            final(self)@.requests == Seq::<LaRequest>::empty(),
    {
        let r = self.requests.clone();
        self.requests = Vec::new();
        assert(r@ =~= old(self)@.requests);
        assert(self.requests@ =~= Seq::<LaRequest>::empty());
        r
    }
}

/// The interrupt that is dispatched for a raised interrupt number `irq`. On the
/// line of the extended controller it is the device interrupt `claimed` from that
/// controller, or none when nothing was pending.
pub open spec fn resolved(irq: usize, claimed: Option<usize>) -> Option<IrqType> {
    if irq == EIOINTC_IRQ {
        match claimed {
            Some(n) => Some(IrqType::Ex(n)),
            None => None,
        }
    } else if irq == TIMER_IRQ {
        Some(IrqType::Timer)
    } else if irq == IPI_IRQ {
        Some(IrqType::Ipi)
    } else {
        Some(IrqType::Ex(irq))
    }
}

/// The interrupt number dispatched for raised `irq` with `claimed`, if any.
pub open spec fn handled_number(irq: usize, claimed: Option<usize>) -> Option<usize> {
    match resolved(irq, claimed) {
        Some(t) => Some(irq_number(t)),
        None => None,
    }
}

impl<H: Copy> LoongArchIrq<H> {
    /// The handler to invoke for raised interrupt number `irq`, where `claimed` is
    /// what claiming from the extended controller gave (see [`resolved`]).
    pub fn dispatch_target(&self, irq: usize, claimed: Option<usize>) -> (r: Option<H>)
        requires
            self.wf(),
        ensures
            r == (match handled_number(irq, claimed) {
                Some(n) => slot(self@.handlers, n as int),
                None => None,
            }),
    {
        let mut t = IrqType::new(irq);
        if t == IrqType::Io {
            match claimed {
                Some(n) => t = IrqType::Ex(n),
                None => return None,
            }
        }
        self.table.get_handler(t.as_usize())
    }

    /// Queues the acknowledgement that follows dispatch of raised interrupt number
    /// `irq` with `claimed`, and returns the interrupt number handled; none, and
    /// nothing queued, for a spurious device interrupt.
    pub fn acknowledge(&mut self, irq: usize, claimed: Option<usize>) -> (r: Option<usize>)
        requires
            old(self).wf(),
        ensures
            final(self).wf(),
            final(self)@.handlers == old(self)@.handlers,
            r == handled_number(irq, claimed),
            final(self)@.requests == (match resolved(irq, claimed) {
                Some(t) => old(self)@.requests + ack_requests(t),
                None => old(self)@.requests,
            }),
    {
        let mut t = IrqType::new(irq);
        if t == IrqType::Io {
            match claimed {
                Some(n) => t = IrqType::Ex(n),
                None => return None,
            }
        }
        let ghost before = self.requests@;
        match t {
            IrqType::Timer => self.requests.push(LaRequest::ClearTimer),
            IrqType::Ipi => self.requests.push(LaRequest::ClearIpi),
            IrqType::Io => {},
            IrqType::Ex(e) => self.requests.push(LaRequest::CompleteExternal { irq: e }),
        }
        assert(self.requests@ =~= before + ack_requests(t));
        Some(t.as_usize())
    }
}

impl<H: Copy + Fn()> LoongArchIrq<H> {
    /// Handles raised interrupt number `irq`. `claimed` is what claiming from the
    /// extended controller gave, consulted only on that controller's line. Invokes
    /// the handler of the interrupt handled, if one is registered, then queues the
    /// acknowledgement and returns the interrupt number handled; none for a
    /// spurious device interrupt.
    pub fn handle(&mut self, irq: usize, claimed: Option<usize>) -> (r: Option<usize>)
        requires
            old(self).wf(),
            forall|n: int| #[trigger] slot(old(self)@.handlers, n) is Some ==> call_requires(slot(old(self)@.handlers, n)->0, ()),
        ensures
            final(self).wf(),
            final(self)@.handlers == old(self)@.handlers,
            r == handled_number(irq, claimed),
            r is Some && slot(old(self)@.handlers, r->0 as int) is Some ==> call_ensures(
                slot(old(self)@.handlers, r->0 as int)->0,
                (),
                (),
            ),
            final(self)@.requests == (match resolved(irq, claimed) {
                Some(t) => old(self)@.requests + ack_requests(t),
                None => old(self)@.requests,
            }),
    {
        match self.dispatch_target(irq, claimed) {
            Some(h) => {
                assert(call_requires(h, ()));
                h();
            },
            None => {},
        }
        self.acknowledge(irq, claimed)
    }
}

} // verus!

//! Interrupt dispatch for the RISC-V QEMU virt board.
//!
//! An interrupt number with the top bit set is a CPU-side cause as `scause` reports
//! it: the supervisor timer, software (inter-processor) and external interrupts.
//! Any other number is a device source of the PLIC. The state here decides; the
//! register accesses and firmware calls it calls for are queued as [`RvRequest`]s.
use vstd::prelude::*;
use crate::handler_table::{HandlerTable, after_register, after_unregister, register_succeeds, slot};
use crate::ipi::{IpiTarget, destinations_spec, riscv_ipi_masks};
use crate::plic::{Plic, PlicError, RegBits, RegWrite, claim_addr, enable_bits, init_writes, outcome, refusal};

verus! {

/// The `scause` bit that marks an interrupt, as opposed to an exception.
pub const INTC_IRQ_BASE: usize = usize::MAX - usize::MAX / 2;
/// Supervisor software interrupt in `scause`.
pub const S_SOFT: usize = INTC_IRQ_BASE + 1;
/// Supervisor timer interrupt in `scause`.
pub const S_TIMER: usize = INTC_IRQ_BASE + 5;
/// Supervisor external interrupt in `scause`.
pub const S_EXT: usize = INTC_IRQ_BASE + 9;
/// The number of PLIC sources handled.
pub const RV_MAX_IRQ_COUNT: usize = 1024;

/// A supervisor interrupt-enable bit.
#[derive(Debug, Clone, Copy, PartialEq, Eq, Structural)]
pub enum SieLine {
    Timer,
    Soft,
    External,
}

/// A register access or firmware call.
#[derive(Debug, Clone, Copy, PartialEq, Eq, Structural)]
pub enum RvRequest {
    /// Set or clear a supervisor interrupt-enable bit.
    Sie { line: SieLine, enabled: bool },
    /// Set bits of a PLIC register.
    PlicSet { bits: RegBits },
    /// Clear bits of a PLIC register.
    PlicClear { bits: RegBits },
    /// Write a PLIC register.
    PlicWrite { write: RegWrite },
    /// Clear the pending supervisor software interrupt.
    ClearSoftPending,
    /// Ask the firmware to send an inter-processor interrupt to the harts of `mask`.
    SbiSendIpi { mask: usize },
}

/// Whether `irq` is a cause this board knows: a PLIC source or one of the three
/// supervisor interrupts.
pub open spec fn known_cause(irq: usize) -> bool {
    irq < INTC_IRQ_BASE || irq == S_TIMER || irq == S_SOFT || irq == S_EXT
}

/// Whether `irq` is a cause this board knows.
pub fn known_cause_of(irq: usize) -> (r: bool)
    ensures
        r == known_cause(irq),
{
    irq < INTC_IRQ_BASE || irq == S_TIMER || irq == S_SOFT || irq == S_EXT
}

/// The accesses that enable or disable `irq`.
pub open spec fn rv_enable_requests(plic_ready: bool, irq: usize, enabled: bool) -> Seq<RvRequest> {
    if irq < INTC_IRQ_BASE {
        match outcome(refusal(plic_ready, Some(0), Some(irq as int), None, PlicError::InvalidPriority), enable_bits(0, irq as int)) {
            Ok(bits) => if enabled {
                seq![RvRequest::PlicSet { bits }]
            } else {
                seq![RvRequest::PlicClear { bits }]
            },
            Err(_) => seq![],
        }
    } else if irq == S_TIMER {
        seq![RvRequest::Sie { line: SieLine::Timer, enabled }]
    } else if irq == S_SOFT {
        seq![RvRequest::Sie { line: SieLine::Soft, enabled }]
    } else if irq == S_EXT {
        seq![RvRequest::Sie { line: SieLine::External, enabled }]
    } else {
        seq![]
    }
}

/// The PLIC writes of per-core bring-up: the PLIC's initialisation, unless it is
/// initialised already.
pub open spec fn plic_bringup(plic_ready: bool) -> Seq<RvRequest> {
    if plic_ready {
        seq![]
    } else {
        init_writes().map_values(|w: RegWrite| RvRequest::PlicWrite { write: w })
    }
}

/// The supervisor interrupt-enable bits each core sets at bring-up.
pub open spec fn percpu_enables() -> Seq<RvRequest> {
    seq![
        RvRequest::Sie { line: SieLine::Soft, enabled: true },
        RvRequest::Sie { line: SieLine::Timer, enabled: true },
        RvRequest::Sie { line: SieLine::External, enabled: true },
    ]
}

/// What a RISC-V controller holds, as mathematical values.
pub ghost struct RvView<H> {
    pub timer: Option<H>,
    pub ipi: Option<H>,
    pub handlers: Seq<Option<H>>,
    pub plic_ready: bool,
    pub requests: Seq<RvRequest>,
}

/// RISC-V interrupt state.
pub struct RiscvIrq<H> {
    timer: Option<H>,
    ipi: Option<H>,
    table: HandlerTable<H>,
    plic: Plic,
    requests: Vec<RvRequest>,
}

impl<H> View for RiscvIrq<H> {
    type V = RvView<H>;

    closed spec fn view(&self) -> RvView<H> {
        RvView {
            timer: self.timer,
            ipi: self.ipi,
            handlers: self.table@,
            plic_ready: self.plic.initialized(),
            requests: self.requests@,
        }
    }
}

impl<H> RiscvIrq<H> {
    /// Well-formedness: the table has a slot for every PLIC source.
    pub open spec fn wf(&self) -> bool {
        self@.handlers.len() == RV_MAX_IRQ_COUNT
    }
}

impl<H: Copy> RiscvIrq<H> {
    /// A controller with no handler, the PLIC not initialised and nothing queued.
    pub fn new() -> (r: Self)
        ensures
            r.wf(),
            r@.timer is None,
            r@.ipi is None,
            r@.handlers.len() == RV_MAX_IRQ_COUNT,
            forall|i: int| 0 <= i < RV_MAX_IRQ_COUNT ==> (#[trigger] r@.handlers[i]) is None,
            !r@.plic_ready,
            r@.requests == Seq::<RvRequest>::empty(),
    {
        let r = RiscvIrq {
            timer: None,
            ipi: None,
            table: HandlerTable::new(RV_MAX_IRQ_COUNT),
            plic: Plic::new(),
            requests: Vec::new(),
        };
        assert(r.requests@ =~= Seq::<RvRequest>::empty());
        r
    }

    /// Per-core bring-up: initialises the PLIC if no core has yet, then enables the
    /// software, timer and external interrupts of this core.
    pub fn init_percpu(&mut self)
        requires
            old(self).wf(),
        ensures
            final(self).wf(),
            final(self)@.timer == old(self)@.timer,
            final(self)@.ipi == old(self)@.ipi,
            final(self)@.handlers == old(self)@.handlers,
            final(self)@.plic_ready,
            final(self)@.requests == old(self)@.requests + plic_bringup(old(self)@.plic_ready) + percpu_enables(),
    {
        let ghost before = self.requests@;
        if !self.plic.is_initialized() {
            let writes = match self.plic.init() {
                Ok(w) => w,
                Err(_) => Vec::new(),
            };
            let mut i: usize = 0;
            while i < writes.len()
                invariant
                    writes@ == init_writes(),
                    i <= writes@.len(),
                    self.timer == old(self)@.timer,
                    self.ipi == old(self)@.ipi,
                    self.table@ == old(self)@.handlers,
                    self.plic.initialized(),
                    before == old(self)@.requests,
                    self.requests@ =~= before + writes@.subrange(0, i as int).map_values(|w: RegWrite| RvRequest::PlicWrite { write: w }),
                decreases writes@.len() - i,
            {
                self.requests.push(RvRequest::PlicWrite { write: writes[i] });
                i = i + 1;
            }
            assert(writes@.subrange(0, writes@.len() as int) =~= writes@);
        } else {
            assert(before + plic_bringup(true) =~= before);
        }
        let ghost mid = self.requests@;
        self.requests.push(RvRequest::Sie { line: SieLine::Soft, enabled: true });
        self.requests.push(RvRequest::Sie { line: SieLine::Timer, enabled: true });
        self.requests.push(RvRequest::Sie { line: SieLine::External, enabled: true });
        assert(self.requests@ =~= mid + percpu_enables());
    }

    /// Enables or disables `irq`: a PLIC source in context zero, or a supervisor
    /// interrupt-enable bit. A refused PLIC request and an unknown cause do nothing.
    pub fn set_enable(&mut self, irq: usize, enabled: bool)
        requires
            old(self).wf(),
        ensures
            final(self).wf(),
            final(self)@ == (RvView {
                requests: old(self)@.requests + rv_enable_requests(old(self)@.plic_ready, irq, enabled),
                ..old(self)@
            }),
    {
        let ghost before = self.requests@;
        if irq < INTC_IRQ_BASE {
            match self.plic.enable_interrupt(0, irq) {
                Ok(bits) => {
                    if enabled {
                        self.requests.push(RvRequest::PlicSet { bits });
                    } else {
                        self.requests.push(RvRequest::PlicClear { bits });
                    }
                },
                Err(_) => {},
            }
        } else if irq == S_TIMER {
            self.requests.push(RvRequest::Sie { line: SieLine::Timer, enabled });
        } else if irq == S_SOFT {
            self.requests.push(RvRequest::Sie { line: SieLine::Soft, enabled });
        } else if irq == S_EXT {
            self.requests.push(RvRequest::Sie { line: SieLine::External, enabled });
        }
        assert(self.requests@ =~= before + rv_enable_requests(old(self)@.plic_ready, irq, enabled));
    }

    /// Registers `handler` for `irq`. The timer and software interrupts each hold one
    /// handler; a PLIC source is registered in the table and, on success, enabled;
    /// the external interrupt takes none. Returns whether it was stored.
    pub fn register(&mut self, irq: usize, handler: H) -> (r: bool)
        requires
            old(self).wf(),
            known_cause(irq),
        ensures
            final(self).wf(),
            irq == S_TIMER ==> r == old(self)@.timer is None && final(self)@ == (RvView {
                timer: if r { Some(handler) } else { old(self)@.timer },
                ..old(self)@
            }),
            irq == S_SOFT ==> r == old(self)@.ipi is None && final(self)@ == (RvView {
                ipi: if r { Some(handler) } else { old(self)@.ipi },
                ..old(self)@
            }),
            irq == S_EXT ==> !r && final(self)@ == old(self)@,
            irq < INTC_IRQ_BASE ==> r == register_succeeds(old(self)@.handlers, irq as int) && final(self)@ == (
            RvView {
                handlers: after_register(old(self)@.handlers, irq as int, handler),
                requests: if r {
                    old(self)@.requests + rv_enable_requests(old(self)@.plic_ready, irq, true)
                } else {
                    old(self)@.requests
                },
                ..old(self)@
            }),
    {
        if irq == S_TIMER {
            if self.timer.is_none() {
                self.timer = Some(handler);
                true
            } else {
                false
            }
        } else if irq == S_SOFT {
            if self.ipi.is_none() {
                self.ipi = Some(handler);
                true
            } else {
                false
            }
        } else if irq == S_EXT {
            false
        } else if self.table.register_handler(irq, handler) {
            self.set_enable(irq, true);
            true
        } else {
            false
        }
    }

    /// Unregisters the handler of `irq` and returns it; if there was one, also
    /// disables the interrupt. An empty slot is left as it is.
    pub fn unregister(&mut self, irq: usize) -> (r: Option<H>)
        requires
            old(self).wf(),
            known_cause(irq),
        ensures
            final(self).wf(),
            irq == S_TIMER ==> r == old(self)@.timer,
            irq == S_SOFT ==> r == old(self)@.ipi,
            irq == S_EXT ==> r is None,
            irq < INTC_IRQ_BASE ==> r == slot(old(self)@.handlers, irq as int),
            final(self)@ == (RvView {
                timer: if irq == S_TIMER { None } else { old(self)@.timer },
                ipi: if irq == S_SOFT { None } else { old(self)@.ipi },
                handlers: if irq < INTC_IRQ_BASE {
                    after_unregister(old(self)@.handlers, irq as int)
                } else {
                    old(self)@.handlers
                },
                requests: if r is Some {
                    old(self)@.requests + rv_enable_requests(old(self)@.plic_ready, irq, false)
                } else {
                    old(self)@.requests
                },
                ..old(self)@
            }),
    {
        let r = if irq == S_TIMER {
            let h = self.timer;
            self.timer = None;
            h
        } else if irq == S_SOFT {
            let h = self.ipi;
            self.ipi = None;
            h
        } else if irq == S_EXT {
            None
        } else {
            self.table.unregister_handler(irq)
        };
        if r.is_some() {
            self.set_enable(irq, false);
        }
        r
    }

    /// Sends an inter-processor interrupt to `target` through the firmware, one call
    /// per addressed hart.
    pub fn send_ipi(&mut self, _irq_num: usize, target: IpiTarget)
        requires
            old(self).wf(),
            forall|i: int| 0 <= i < destinations_spec(target).len() ==> #[trigger] destinations_spec(target)[i] < usize::BITS,
        ensures
            final(self).wf(),
            final(self)@.timer == old(self)@.timer,
            final(self)@.ipi == old(self)@.ipi,
            final(self)@.handlers == old(self)@.handlers,
            final(self)@.plic_ready == old(self)@.plic_ready,
            final(self)@.requests.len() == old(self)@.requests.len() + destinations_spec(target).len(),
            forall|i: int| 0 <= i < old(self)@.requests.len() ==> #[trigger] final(self)@.requests[i] == old(self)@.requests[i],
            forall|i: int|
                0 <= i < destinations_spec(target).len() ==> #[trigger] final(self)@.requests[old(self)@.requests.len() + i]
                    == (RvRequest::SbiSendIpi { mask: 1usize << destinations_spec(target)[i] }),
    {
        let masks = riscv_ipi_masks(target);
        let ghost before = self.requests@;
        let mut i: usize = 0;
        while i < masks.len()
            invariant
                self.timer == old(self)@.timer,
                self.ipi == old(self)@.ipi,
                self.table@ == old(self)@.handlers,
                self.plic.initialized() == old(self)@.plic_ready,
                before == old(self)@.requests,
                masks@.len() == destinations_spec(target).len(),
                forall|k: int| 0 <= k < masks@.len() ==> #[trigger] masks@[k] == 1usize << destinations_spec(target)[k],
                i <= masks@.len(),
                self.requests@.len() == before.len() + i,
                forall|k: int| 0 <= k < before.len() ==> #[trigger] self.requests@[k] == before[k],
                forall|k: int| 0 <= k < i ==> #[trigger] self.requests@[before.len() + k] == (RvRequest::SbiSendIpi { mask: masks@[k] }),
            decreases masks@.len() - i,
        {
            self.requests.push(RvRequest::SbiSendIpi { mask: masks[i] });
            i = i + 1;
        }
    }

    /// The PLIC driver state.
    pub fn plic(&self) -> (r: &Plic)
        requires
            self.wf(),
        ensures
            r.initialized() == self@.plic_ready,
    {
        &self.plic
    }

    /// Takes out the accesses queued so far, oldest first.
    pub fn take_requests(&mut self) -> (r: Vec<RvRequest>)
        requires
            old(self).wf(),
        ensures
            final(self).wf(),
            r@ == old(self)@.requests,
            final(self)@ == (RvView { requests: Seq::<RvRequest>::empty(), ..old(self)@ }),
    {
        let r = self.requests.clone();
        self.requests = Vec::new();
        assert(r@ =~= old(self)@.requests);
        assert(self.requests@ =~= Seq::<RvRequest>::empty());
        r
    }
}

/// The accesses queued when external interrupt `n`, claimed from the PLIC, has been
/// dispatched: its completion, unless the PLIC refuses it.
pub open spec fn completion_requests(plic_ready: bool, n: usize) -> Seq<RvRequest> {
    match outcome(
        refusal(plic_ready, Some(0), Some(n as int), None, PlicError::InvalidPriority),
        RegWrite { addr: claim_addr(0) as usize, value: n as u32 },
    ) {
        Ok(w) => seq![RvRequest::PlicWrite { write: w }],
        Err(_) => seq![],
    }
}

/// The handler dispatched for cause `irq`, where `claimed` is what claiming from the
/// PLIC in context zero gave: the timer or software handler, the handler of the
/// claimed source for the external interrupt, or the handler of a PLIC source.
pub open spec fn rv_target<H>(v: RvView<H>, irq: usize, claimed: Option<usize>) -> Option<H> {
    if irq == S_TIMER {
        v.timer
    } else if irq == S_SOFT {
        v.ipi
    } else if irq == S_EXT {
        match claimed {
            Some(n) => slot(v.handlers, n as int),
            None => None,
        }
    } else {
        slot(v.handlers, irq as int)
    }
}

/// The accesses queued after dispatch of cause `irq`: clearing the pending software
/// interrupt, or completing the claimed external source.
pub open spec fn rv_ack(plic_ready: bool, irq: usize, claimed: Option<usize>) -> Seq<RvRequest> {
    if irq == S_SOFT {
        seq![RvRequest::ClearSoftPending]
    } else if irq == S_EXT && claimed is Some {
        completion_requests(plic_ready, claimed->0)
    } else {
        seq![]
    }
}

/// Whether every handler of `v` may be invoked.
pub open spec fn rv_callable<H: Fn()>(v: RvView<H>) -> bool {
    &&& v.timer is Some ==> call_requires(v.timer->0, ())
    &&& v.ipi is Some ==> call_requires(v.ipi->0, ())
    &&& forall|n: int| #[trigger] slot(v.handlers, n) is Some ==> call_requires(slot(v.handlers, n)->0, ())
}

impl<H: Copy> RiscvIrq<H> {
    /// The handler to invoke for cause `irq`, with `claimed` as [`rv_target`] takes it.
    pub fn dispatch_target(&self, irq: usize, claimed: Option<usize>) -> (r: Option<H>)
        requires
            self.wf(),
        ensures
            r == rv_target(self@, irq, claimed),
    {
        if irq == S_TIMER {
            self.timer
        } else if irq == S_SOFT {
            self.ipi
        } else if irq == S_EXT {
            match claimed {
                Some(n) => self.table.get_handler(n),
                None => None,
            }
        } else {
            self.table.get_handler(irq)
        }
    }

    /// Queues the accesses that follow dispatch of cause `irq`.
    pub fn acknowledge(&mut self, irq: usize, claimed: Option<usize>)
        requires
            old(self).wf(),
        ensures
            final(self).wf(),
            final(self)@ == (RvView {
                requests: old(self)@.requests + rv_ack(old(self)@.plic_ready, irq, claimed),
                ..old(self)@
            }),
    {
        let ghost before = self.requests@;
        if irq == S_SOFT {
            self.requests.push(RvRequest::ClearSoftPending);
        } else if irq == S_EXT {
            match claimed {
                Some(n) => match self.plic.complete(0, n) {
                    Ok(w) => self.requests.push(RvRequest::PlicWrite { write: w }),
                    Err(_) => {},
                },
                None => {},
            }
        }
        assert(self.requests@ =~= before + rv_ack(old(self)@.plic_ready, irq, claimed));
    }
}

impl<H: Copy + Fn()> RiscvIrq<H> {
    /// Handles cause `irq`. For the external interrupt, `claimed` is what claiming
    /// from the PLIC in context zero gave (see [`Plic::claim`]). Invokes the handler
    /// that [`rv_target`] names, if any, then queues the acknowledgement. Returns
    /// whether a handler was invoked.
    pub fn handle(&mut self, irq: usize, claimed: Option<usize>) -> (r: bool)
        requires
            old(self).wf(),
            known_cause(irq),
            rv_callable(old(self)@),
        ensures
            final(self).wf(),
            r == rv_target(old(self)@, irq, claimed) is Some,
            r ==> call_ensures(rv_target(old(self)@, irq, claimed)->0, (), ()),
            final(self)@ == (RvView {
                requests: old(self)@.requests + rv_ack(old(self)@.plic_ready, irq, claimed),
                ..old(self)@
            }),
    {
        let target = self.dispatch_target(irq, claimed);
        let r = match target {
            Some(h) => {
                proof {
                    if irq != S_TIMER && irq != S_SOFT {
                        let n: int = if irq == S_EXT { claimed->0 as int } else { irq as int };
                        assert(slot(old(self)@.handlers, n) is Some ==> call_requires(slot(old(self)@.handlers, n)->0, ()));
                    }
                }
                h();
                true
            },
            None => false,
        };
        self.acknowledge(irq, claimed);
        r
    }
}

} // verus!

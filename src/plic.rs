//! Request checking and register addressing for the RISC-V platform-level interrupt
//! controller (PLIC).
//!
//! Every operation first checks its arguments, then that the controller has been
//! initialised, and on success hands back the register access to perform.
use vstd::prelude::*;

verus! {

/// Why a PLIC request was refused.
#[derive(Debug, Clone, Copy, PartialEq, Eq, Structural)]
pub enum PlicError {
    InvalidInterruptId,
    InvalidContextId,
    InvalidPriority,
    InvalidThreshold,
    NotInitialized,
    AlreadyInitialized,
}

/// The result of a PLIC request.
pub type PlicResult<T> = Result<T, PlicError>;

/// Base address of the PLIC register block.
pub const PLIC_BASE: usize = 0x0c00_0000;
/// Offset of the priority registers, one word per source.
pub const PLIC_PRIORITY_BASE: usize = 0x0000;
/// Offset of the pending bits, one bit per source.
pub const PLIC_PENDING_BASE: usize = 0x1000;
/// Offset of the enable bits, 0x80 bytes per context.
pub const PLIC_ENABLE_BASE: usize = 0x2000;
/// Offset of the threshold registers, 0x1000 bytes per context.
pub const PLIC_THRESHOLD_BASE: usize = 0x20_0000;
/// Offset of the claim/complete registers, 0x1000 bytes per context.
pub const PLIC_CLAIM_BASE: usize = 0x20_0004;
/// Number of interrupt sources; source 0 means "no interrupt".
pub const PLIC_MAX_INTERRUPTS: usize = 1024;
/// Number of hart contexts.
pub const PLIC_MAX_CONTEXTS: usize = 8;
/// Highest priority and threshold level.
pub const PLIC_MAX_LEVEL: u32 = 7;

/// Write `value` to the 32-bit register at `addr`.
#[derive(Debug, Clone, Copy, PartialEq, Eq, Structural)]
pub struct RegWrite {
    pub addr: usize,
    pub value: u32,
}

/// The bits `mask` of the 32-bit register at `addr`.
#[derive(Debug, Clone, Copy, PartialEq, Eq, Structural)]
pub struct RegBits {
    pub addr: usize,
    pub mask: u32,
}

impl RegBits {
    /// The register value `old` with these bits set.
    pub fn set_in(&self, old: u32) -> (r: u32)
        ensures
            r == old | self.mask,
    {
        old | self.mask
    }

    /// The register value `old` with these bits cleared.
    pub fn clear_in(&self, old: u32) -> (r: u32)
        ensures
            r == old & !self.mask,
    {
        old & !self.mask
    }

    /// Whether any of these bits is set in the register value `value`.
    pub fn any_in(&self, value: u32) -> (r: bool)
        ensures
            r == (value & self.mask != 0),
    {
        value & self.mask != 0
    }
}

/// Whether `id` names an interrupt source.
pub open spec fn interrupt_ok(id: int) -> bool {
    1 <= id < PLIC_MAX_INTERRUPTS
}

/// Whether `ctx` names a hart context.
pub open spec fn context_ok(ctx: int) -> bool {
    0 <= ctx < PLIC_MAX_CONTEXTS
}

/// The priority register of source `id`.
pub open spec fn priority_addr(id: int) -> int {
    PLIC_BASE + PLIC_PRIORITY_BASE + id * 4
}

/// The threshold register of context `ctx`.
pub open spec fn threshold_addr(ctx: int) -> int {
    PLIC_BASE + PLIC_THRESHOLD_BASE + ctx * 0x1000
}

/// The claim/complete register of context `ctx`.
pub open spec fn claim_addr(ctx: int) -> int {
    PLIC_BASE + PLIC_CLAIM_BASE + ctx * 0x1000
}

/// The enable bit of source `id` in context `ctx`.
pub open spec fn enable_bits(ctx: int, id: int) -> RegBits {
    RegBits {
        addr: (PLIC_BASE + PLIC_ENABLE_BASE + ctx * 0x80 + (id / 32) * 4) as usize,
        mask: 1u32 << ((id % 32) as u32),
    }
}

/// The pending bit of source `id`.
pub open spec fn pending_bits(id: int) -> RegBits {
    RegBits { addr: (PLIC_BASE + PLIC_PENDING_BASE + (id / 32) * 4) as usize, mask: 1u32 << ((id % 32) as u32) }
}

/// The refusal, if any, of a request with these argument checks on a controller
/// whose initialisation state is `init`. Checks come in the order given.
pub open spec fn refusal(init: bool, ctx: Option<int>, id: Option<int>, level: Option<u32>, level_error: PlicError) -> Option<PlicError> {
    if ctx is Some && !context_ok(ctx->0) {
        Some(PlicError::InvalidContextId)
    } else if id is Some && !interrupt_ok(id->0) {
        Some(PlicError::InvalidInterruptId)
    } else if level is Some && level->0 > PLIC_MAX_LEVEL {
        Some(level_error)
    } else if !init {
        Some(PlicError::NotInitialized)
    } else {
        None
    }
}

/// The outcome of a request refused with `refusal`, or answered with `ok`.
pub open spec fn outcome<T>(refusal: Option<PlicError>, ok: T) -> PlicResult<T> {
    match refusal {
        Some(e) => Err(e),
        None => Ok(ok),
    }
}

/// The first refusal for a batch of sources in context `ctx`.
pub open spec fn batch_refusal(init: bool, ctx: int, ids: Seq<usize>) -> Option<PlicError> {
    if !context_ok(ctx) {
        Some(PlicError::InvalidContextId)
    } else if exists|k: int| 0 <= k < ids.len() && !interrupt_ok(#[trigger] ids[k] as int) {
        Some(PlicError::InvalidInterruptId)
    } else if !init {
        Some(PlicError::NotInitialized)
    } else {
        None
    }
}

/// The enable bits of each source of `ids` in context `ctx`.
pub open spec fn batch_bits(ctx: int, ids: Seq<usize>) -> Seq<RegBits> {
    ids.map_values(|id: usize| enable_bits(ctx, id as int))
}

/// The writes that initialisation performs: priority one for every source, in
/// order, then threshold zero for context zero.
pub open spec fn init_writes() -> Seq<RegWrite> {
    Seq::new((PLIC_MAX_INTERRUPTS - 1) as nat, |i: int| RegWrite { addr: priority_addr(i + 1) as usize, value: 1 })
        .push(RegWrite { addr: threshold_addr(0) as usize, value: 0 })
}

/// PLIC driver state.
pub struct Plic {
    base: usize,
    initialized: bool,
    max_interrupts: usize,
    max_contexts: usize,
}

impl Plic {
    #[verifier::type_invariant]
    spec fn layout(&self) -> bool {
        self.base == PLIC_BASE && self.max_interrupts == PLIC_MAX_INTERRUPTS && self.max_contexts
            == PLIC_MAX_CONTEXTS
    }

    /// Whether the controller has been initialised.
    pub closed spec fn initialized(&self) -> bool {
        self.initialized
    }

    /// A driver for the controller, not yet initialised.
    pub fn new() -> (r: Self)
        ensures
            !r.initialized(),
    {
        Plic {
            base: PLIC_BASE,
            initialized: false,
            max_interrupts: PLIC_MAX_INTERRUPTS,
            max_contexts: PLIC_MAX_CONTEXTS,
        }
    }

    /// Initialises the controller: gives every source priority one and lets context
    /// zero take every priority. Returns the writes to perform, in order. A second
    /// initialisation is refused and changes nothing.
    pub fn init(&mut self) -> (r: PlicResult<Vec<RegWrite>>)
        ensures
            old(self).initialized() ==> r == Err::<Vec<RegWrite>, PlicError>(PlicError::AlreadyInitialized)
                && *final(self) == *old(self),
            !old(self).initialized() ==> r is Ok && r->Ok_0@ == init_writes(),
            final(self).initialized(),
    {
        proof {
            use_type_invariant(&*self);
        }
        if self.initialized {
            return Err(PlicError::AlreadyInitialized);
        }
        let mut writes: Vec<RegWrite> = Vec::new();
        let mut i: usize = 1;
        while i < self.max_interrupts
            invariant
                self.base == PLIC_BASE,
                self.max_interrupts == PLIC_MAX_INTERRUPTS,
                1 <= i <= PLIC_MAX_INTERRUPTS,
                writes@ =~= Seq::new((i - 1) as nat, |k: int| RegWrite { addr: priority_addr(k + 1) as usize, value: 1 }),
            decreases PLIC_MAX_INTERRUPTS - i,
        {
            writes.push(RegWrite { addr: self.base + PLIC_PRIORITY_BASE + i * 4, value: 1 });
            i = i + 1;
        }
        writes.push(RegWrite { addr: self.base + PLIC_THRESHOLD_BASE, value: 0 });
        self.initialized = true;
        assert(writes@ =~= init_writes());
        Ok(writes)
    }

    /// Whether the controller has been initialised.
    pub fn is_initialized(&self) -> (r: bool)
        ensures
            r == self.initialized(),
    {
        self.initialized
    }

    /// Refuses a source number outside `1..1024`.
    fn validate_interrupt_id(&self, interrupt_id: usize) -> (r: PlicResult<()>)
        ensures
            r is Ok == interrupt_ok(interrupt_id as int),
            r is Err ==> r->Err_0 == PlicError::InvalidInterruptId,
    {
        proof {
            use_type_invariant(self);
        }
        if interrupt_id == 0 || interrupt_id >= self.max_interrupts {
            Err(PlicError::InvalidInterruptId)
        } else {
            Ok(())
        }
    }

    /// Refuses a context number outside `0..8`.
    fn validate_context_id(&self, context_id: usize) -> (r: PlicResult<()>)
        ensures
            r is Ok == context_ok(context_id as int),
            r is Err ==> r->Err_0 == PlicError::InvalidContextId,
    {
        proof {
            use_type_invariant(self);
        }
        if context_id >= self.max_contexts {
            Err(PlicError::InvalidContextId)
        } else {
            Ok(())
        }
    }

    /// Refuses a priority above 7.
    fn validate_priority(&self, priority: u32) -> (r: PlicResult<()>)
        ensures
            r is Ok == (priority <= PLIC_MAX_LEVEL),
            r is Err ==> r->Err_0 == PlicError::InvalidPriority,
    {
        if priority > PLIC_MAX_LEVEL {
            Err(PlicError::InvalidPriority)
        } else {
            Ok(())
        }
    }

    /// Refuses a threshold above 7.
    fn validate_threshold(&self, threshold: u32) -> (r: PlicResult<()>)
        ensures
            r is Ok == (threshold <= PLIC_MAX_LEVEL),
            r is Err ==> r->Err_0 == PlicError::InvalidThreshold,
    {
        if threshold > PLIC_MAX_LEVEL {
            Err(PlicError::InvalidThreshold)
        } else {
            Ok(())
        }
    }

    /// Refuses a request on a controller not yet initialised.
    fn check_initialized(&self) -> (r: PlicResult<()>)
        ensures
            r is Ok == self.initialized(),
            r is Err ==> r->Err_0 == PlicError::NotInitialized,
    {
        if self.initialized {
            Ok(())
        } else {
            Err(PlicError::NotInitialized)
        }
    }

    /// Sets the priority of source `interrupt_id`: the write to perform.
    pub fn set_priority(&self, interrupt_id: usize, priority: u32) -> (r: PlicResult<RegWrite>)
        ensures
            r == outcome(
                refusal(self.initialized(), None, Some(interrupt_id as int), Some(priority), PlicError::InvalidPriority),
                RegWrite { addr: priority_addr(interrupt_id as int) as usize, value: priority },
            ),
    {
        proof {
            use_type_invariant(self);
        }
        self.validate_interrupt_id(interrupt_id)?;
        self.validate_priority(priority)?;
        self.check_initialized()?;
        Ok(RegWrite { addr: self.base + PLIC_PRIORITY_BASE + interrupt_id * 4, value: priority })
    }

    /// Reads the priority of source `interrupt_id`: the register to read.
    pub fn get_priority(&self, interrupt_id: usize) -> (r: PlicResult<usize>)
        ensures
            r == outcome(
                refusal(self.initialized(), None, Some(interrupt_id as int), None, PlicError::InvalidPriority),
                priority_addr(interrupt_id as int) as usize,
            ),
    {
        proof {
            use_type_invariant(self);
        }
        self.validate_interrupt_id(interrupt_id)?;
        self.check_initialized()?;
        Ok(self.base + PLIC_PRIORITY_BASE + interrupt_id * 4)
    }

    /// The enable bit of a source in a context, both checked.
    fn enable_bit(&self, context_id: usize, interrupt_id: usize) -> (r: RegBits)
        requires
            context_ok(context_id as int),
            interrupt_ok(interrupt_id as int),
        ensures
            r == enable_bits(context_id as int, interrupt_id as int),
    {
        proof {
            use_type_invariant(self);
        }
        RegBits {
            addr: self.base + PLIC_ENABLE_BASE + context_id * 0x80 + (interrupt_id / 32) * 4,
            mask: 1u32 << ((interrupt_id % 32) as u32),
        }
    }

    /// Enables source `interrupt_id` for context `context_id`: the bit to set.
    pub fn enable_interrupt(&self, context_id: usize, interrupt_id: usize) -> (r: PlicResult<RegBits>)
        ensures
            r == outcome(
                refusal(self.initialized(), Some(context_id as int), Some(interrupt_id as int), None, PlicError::InvalidPriority),
                enable_bits(context_id as int, interrupt_id as int),
            ),
    {
        self.validate_context_id(context_id)?;
        self.validate_interrupt_id(interrupt_id)?;
        self.check_initialized()?;
        Ok(self.enable_bit(context_id, interrupt_id))
    }

    /// Disables source `interrupt_id` for context `context_id`: the bit to clear.
    pub fn disable_interrupt(&self, context_id: usize, interrupt_id: usize) -> (r: PlicResult<RegBits>)
        ensures
            r == outcome(
                refusal(self.initialized(), Some(context_id as int), Some(interrupt_id as int), None, PlicError::InvalidPriority),
                enable_bits(context_id as int, interrupt_id as int),
            ),
    {
        self.validate_context_id(context_id)?;
        self.validate_interrupt_id(interrupt_id)?;
        self.check_initialized()?;
        Ok(self.enable_bit(context_id, interrupt_id))
    }

    /// Sets the threshold of context `context_id`: the write to perform.
    pub fn set_threshold(&self, context_id: usize, threshold: u32) -> (r: PlicResult<RegWrite>)
        ensures
            r == outcome(
                refusal(self.initialized(), Some(context_id as int), None, Some(threshold), PlicError::InvalidThreshold),
                RegWrite { addr: threshold_addr(context_id as int) as usize, value: threshold },
            ),
    {
        proof {
            use_type_invariant(self);
        }
        self.validate_context_id(context_id)?;
        self.validate_threshold(threshold)?;
        self.check_initialized()?;
        Ok(RegWrite { addr: self.base + PLIC_THRESHOLD_BASE + context_id * 0x1000, value: threshold })
    }

    /// Reads the threshold of context `context_id`: the register to read.
    pub fn get_threshold(&self, context_id: usize) -> (r: PlicResult<usize>)
        ensures
            r == outcome(
                refusal(self.initialized(), Some(context_id as int), None, None, PlicError::InvalidPriority),
                threshold_addr(context_id as int) as usize,
            ),
    {
        proof {
            use_type_invariant(self);
        }
        self.validate_context_id(context_id)?;
        self.check_initialized()?;
        Ok(self.base + PLIC_THRESHOLD_BASE + context_id * 0x1000)
    }

    /// Claims the highest-priority pending source of context `context_id`: the
    /// register to read, whose value [`claimed`] decodes.
    pub fn claim(&self, context_id: usize) -> (r: PlicResult<usize>)
        ensures
            r == outcome(
                refusal(self.initialized(), Some(context_id as int), None, None, PlicError::InvalidPriority),
                claim_addr(context_id as int) as usize,
            ),
    {
        proof {
            use_type_invariant(self);
        }
        self.validate_context_id(context_id)?;
        self.check_initialized()?;
        Ok(self.base + PLIC_CLAIM_BASE + context_id * 0x1000)
    }

    /// Signals that source `interrupt_id` of context `context_id` has been handled:
    /// the write to perform.
    pub fn complete(&self, context_id: usize, interrupt_id: usize) -> (r: PlicResult<RegWrite>)
        ensures
            r == outcome(
                refusal(self.initialized(), Some(context_id as int), Some(interrupt_id as int), None, PlicError::InvalidPriority),
                RegWrite { addr: claim_addr(context_id as int) as usize, value: interrupt_id as u32 },
            ),
    {
        proof {
            use_type_invariant(self);
        }
        self.validate_context_id(context_id)?;
        self.validate_interrupt_id(interrupt_id)?;
        self.check_initialized()?;
        Ok(RegWrite { addr: self.base + PLIC_CLAIM_BASE + context_id * 0x1000, value: interrupt_id as u32 })
    }

    /// Tests whether source `interrupt_id` is pending: the bit to test.
    pub fn is_pending(&self, interrupt_id: usize) -> (r: PlicResult<RegBits>)
        ensures
            r == outcome(refusal(self.initialized(), None, Some(interrupt_id as int), None, PlicError::InvalidPriority), pending_bits(interrupt_id as int)),
    {
        proof {
            use_type_invariant(self);
        }
        self.validate_interrupt_id(interrupt_id)?;
        self.check_initialized()?;
        Ok(RegBits {
            addr: self.base + PLIC_PENDING_BASE + (interrupt_id / 32) * 4,
            mask: 1u32 << ((interrupt_id % 32) as u32),
        })
    }

    /// The enable bits of every source of `interrupt_ids` in context `context_id`,
    /// after checking the whole batch.
    fn batch(&self, context_id: usize, interrupt_ids: &[usize]) -> (r: PlicResult<Vec<RegBits>>)
        ensures
            r == outcome(batch_refusal(self.initialized(), context_id as int, interrupt_ids@), r->Ok_0),
            r is Ok ==> r->Ok_0@ == batch_bits(context_id as int, interrupt_ids@),
    {
        self.validate_context_id(context_id)?;
        let mut i: usize = 0;
        while i < interrupt_ids.len()
            invariant
                context_ok(context_id as int),
                i <= interrupt_ids@.len(),
                forall|k: int| 0 <= k < i ==> interrupt_ok(#[trigger] interrupt_ids@[k] as int),
            decreases interrupt_ids@.len() - i,
        {
            self.validate_interrupt_id(interrupt_ids[i])?;
            i = i + 1;
        }
        self.check_initialized()?;
        let mut bits: Vec<RegBits> = Vec::new();
        let mut j: usize = 0;
        while j < interrupt_ids.len()
            invariant
                context_ok(context_id as int),
                j <= interrupt_ids@.len(),
                forall|k: int| 0 <= k < interrupt_ids@.len() ==> interrupt_ok(#[trigger] interrupt_ids@[k] as int),
                bits@ =~= batch_bits(context_id as int, interrupt_ids@.subrange(0, j as int)),
            decreases interrupt_ids@.len() - j,
        {
            bits.push(self.enable_bit(context_id, interrupt_ids[j]));
            j = j + 1;
        }
        assert(interrupt_ids@.subrange(0, interrupt_ids@.len() as int) =~= interrupt_ids@);
        Ok(bits)
    }

    /// Enables every source of `interrupt_ids` for context `context_id`: the bits to
    /// set. The whole batch is checked before any bit is given.
    pub fn enable_interrupts_batch(&self, context_id: usize, interrupt_ids: &[usize]) -> (r: PlicResult<Vec<RegBits>>)
        ensures
            r == outcome(batch_refusal(self.initialized(), context_id as int, interrupt_ids@), r->Ok_0),
            r is Ok ==> r->Ok_0@ == batch_bits(context_id as int, interrupt_ids@),
    {
        self.batch(context_id, interrupt_ids)
    }

    /// Disables every source of `interrupt_ids` for context `context_id`: the bits to
    /// clear. The whole batch is checked before any bit is given.
    pub fn disable_interrupts_batch(&self, context_id: usize, interrupt_ids: &[usize]) -> (r: PlicResult<Vec<RegBits>>)
        ensures
            r == outcome(batch_refusal(self.initialized(), context_id as int, interrupt_ids@), r->Ok_0),
            r is Ok ==> r->Ok_0@ == batch_bits(context_id as int, interrupt_ids@),
    {
        self.batch(context_id, interrupt_ids)
    }
}

/// Decodes the value read from a claim register: zero means nothing is pending.
pub fn claimed(raw: u32) -> (r: Option<usize>)
    ensures
        r == (if raw == 0 { None } else { Some(raw as usize) }),
{
    if raw == 0 {
        None
    } else {
        Some(raw as usize)
    }
}

} // verus!

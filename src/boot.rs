//! The boot handoff protocol: which core has reached its kernel entry point.
//!
//! Board boot code brings each core to the primary or the secondary entry point. A
//! core enters at most once, and only one core takes the primary entry.
use vstd::prelude::*;

verus! {

/// Why an entry was refused.
#[derive(Debug, Clone, Copy, PartialEq, Eq, Structural)]
pub enum HandoffError {
    /// The core id is not below the number of cores.
    CpuOutOfRange,
    /// Another call already took the primary entry.
    PrimaryAlreadyEntered,
    /// This core has already entered.
    AlreadyEntered,
}

/// The core that took the primary entry, with its boot argument.
#[derive(Debug, Clone, Copy, PartialEq, Eq, Structural)]
pub struct PrimaryEntry {
    pub cpu_id: usize,
    pub arg: usize,
}

/// The record of entries so far, as mathematical values.
pub ghost struct HandoffView {
    pub cpu_num: nat,
    /// The cores that entered, in the order they did.
    pub entries: Seq<usize>,
    /// The core that took the primary entry, with its boot argument.
    pub primary: Option<PrimaryEntry>,
}

/// The record's invariant: every entry is a distinct core below `cpu_num`, and the
/// primary core, if any, is among them.
pub open spec fn handoff_wf(v: HandoffView) -> bool {
    &&& forall|i: int| 0 <= i < v.entries.len() ==> #[trigger] v.entries[i] < v.cpu_num
    &&& v.entries.no_duplicates()
    &&& v.primary is Some ==> v.entries.contains(v.primary->0.cpu_id)
}

/// The refusal, if any, of a primary entry by `cpu_id`.
pub open spec fn primary_refusal(v: HandoffView, cpu_id: usize) -> Option<HandoffError> {
    if cpu_id >= v.cpu_num {
        Some(HandoffError::CpuOutOfRange)
    } else if v.primary is Some {
        Some(HandoffError::PrimaryAlreadyEntered)
    } else if v.entries.contains(cpu_id) {
        Some(HandoffError::AlreadyEntered)
    } else {
        None
    }
}

/// The refusal, if any, of a secondary entry by `cpu_id`.
pub open spec fn secondary_refusal(v: HandoffView, cpu_id: usize) -> Option<HandoffError> {
    if cpu_id >= v.cpu_num {
        Some(HandoffError::CpuOutOfRange)
    } else if v.entries.contains(cpu_id) {
        Some(HandoffError::AlreadyEntered)
    } else {
        None
    }
}

/// The hardware id of logical core `cpu_id`, from the board's list of hardware ids
/// indexed by logical id; none when the board has no such core.
pub fn hardware_cpu_id(cpu_id: usize, cpu_id_list: &[usize]) -> (r: Option<usize>)
    ensures
        r == (if cpu_id < cpu_id_list@.len() { Some(cpu_id_list@[cpu_id as int]) } else { None::<usize> }),
{
    if cpu_id < cpu_id_list.len() {
        Some(cpu_id_list[cpu_id])
    } else {
        None
    }
}

/// Tracks the entries of the cores of a board into the kernel.
pub struct BootHandoff {
    cpu_num: usize,
    entries: Vec<usize>,
    primary: Option<PrimaryEntry>,
}

impl View for BootHandoff {
    type V = HandoffView;

    closed spec fn view(&self) -> HandoffView {
        HandoffView { cpu_num: self.cpu_num as nat, entries: self.entries@, primary: self.primary }
    }
}

impl BootHandoff {
    #[verifier::type_invariant]
    spec fn inv(&self) -> bool {
        handoff_wf(self@)
    }

    /// A record for a board of `cpu_num` cores, none of which has entered.
    pub fn new(cpu_num: usize) -> (r: Self)
        ensures
            r@ == (HandoffView { cpu_num: cpu_num as nat, entries: seq![], primary: None }),
            handoff_wf(r@),
    {
        let r = BootHandoff { cpu_num, entries: Vec::new(), primary: None };
        assert(r.entries@ =~= seq![]);
        r
    }

    /// Whether `cpu_id` has entered.
    fn has_entered(&self, cpu_id: usize) -> (r: bool)
        ensures
            r == self@.entries.contains(cpu_id),
    {
        let mut i: usize = 0;
        while i < self.entries.len()
            invariant
                i <= self.entries@.len(),
                forall|k: int| 0 <= k < i ==> self.entries@[k] != cpu_id,
            decreases self.entries@.len() - i,
        {
            if self.entries[i] == cpu_id {
                return true;
            }
            i = i + 1;
        }
        false
    }

    /// Whether `cpu_id` has entered.
    pub fn entered(&self, cpu_id: usize) -> (r: bool)
        ensures
            r == self@.entries.contains(cpu_id),
    {
        self.has_entered(cpu_id)
    }

    /// The cores that entered, in the order they did.
    pub fn entries(&self) -> (r: Vec<usize>)
        ensures
            r@ == self@.entries,
    {
        self.entries.clone()
    }

    /// The core that took the primary entry, with its boot argument.
    pub fn primary(&self) -> (r: Option<PrimaryEntry>)
        ensures
            r == self@.primary,
    {
        self.primary
    }

    /// Records the primary entry of core `cpu_id` with boot argument `arg`.
    pub fn enter_primary(&mut self, cpu_id: usize, arg: usize) -> (r: Result<(), HandoffError>)
        ensures
            r is Err <==> primary_refusal(old(self)@, cpu_id) is Some,
            r is Err ==> r->Err_0 == primary_refusal(old(self)@, cpu_id)->0 && final(self)@ == old(self)@,
            r is Ok ==> final(self)@ == (HandoffView {
                cpu_num: old(self)@.cpu_num,
                entries: old(self)@.entries.push(cpu_id),
                primary: Some(PrimaryEntry { cpu_id, arg }),
            }),
            handoff_wf(final(self)@),
    {
        proof {
            use_type_invariant(&*self);
        }
        if cpu_id >= self.cpu_num {
            return Err(HandoffError::CpuOutOfRange);
        }
        if self.primary.is_some() {
            return Err(HandoffError::PrimaryAlreadyEntered);
        }
        if self.has_entered(cpu_id) {
            return Err(HandoffError::AlreadyEntered);
        }
        let ghost before = self.entries@;
        let mut entries = self.entries.clone();
        entries.push(cpu_id);
        proof {
            assert(entries@[before.len() as int] == cpu_id);
        }
        *self = BootHandoff { cpu_num: self.cpu_num, entries, primary: Some(PrimaryEntry { cpu_id, arg }) };
        Ok(())
    }

    /// Records the secondary entry of core `cpu_id`.
    pub fn enter_secondary(&mut self, cpu_id: usize) -> (r: Result<(), HandoffError>)
        ensures
            r is Err <==> secondary_refusal(old(self)@, cpu_id) is Some,
            r is Err ==> r->Err_0 == secondary_refusal(old(self)@, cpu_id)->0 && final(self)@ == old(self)@,
            r is Ok ==> final(self)@ == (HandoffView {
                cpu_num: old(self)@.cpu_num,
                entries: old(self)@.entries.push(cpu_id),
                primary: old(self)@.primary,
            }),
            handoff_wf(final(self)@),
    {
        proof {
            use_type_invariant(&*self);
        }
        if cpu_id >= self.cpu_num {
            return Err(HandoffError::CpuOutOfRange);
        }
        if self.has_entered(cpu_id) {
            return Err(HandoffError::AlreadyEntered);
        }
        let ghost before = self.entries@;
        let mut entries = self.entries.clone();
        entries.push(cpu_id);
        proof {
            assert(entries@[before.len() as int] == cpu_id);
            if self.primary is Some {
                let p = self.primary->0.cpu_id;
                let k = choose|k: int| 0 <= k < before.len() && before[k] == p;
                assert(entries@[k] == p);
            }
        }
        *self = BootHandoff { cpu_num: self.cpu_num, entries, primary: self.primary };
        Ok(())
    }
}

} // verus!

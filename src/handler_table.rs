//! Fixed-capacity interrupt-number to handler registry.
use vstd::prelude::*;

verus! {

/// Whether `register_handler(irq_num, _)` succeeds on a table whose slots are `s`.
pub open spec fn register_succeeds<H>(s: Seq<Option<H>>, irq_num: int) -> bool {
    0 <= irq_num < s.len() && s[irq_num] is None
}

/// The slots after `register_handler(irq_num, handler)`.
pub open spec fn after_register<H>(s: Seq<Option<H>>, irq_num: int, handler: H) -> Seq<Option<H>> {
    if register_succeeds(s, irq_num) {
        s.update(irq_num, Some(handler))
    } else {
        s
    }
}

/// The handler stored for `irq_num`; none when the number is out of range.
pub open spec fn slot<H>(s: Seq<Option<H>>, irq_num: int) -> Option<H> {
    if 0 <= irq_num < s.len() {
        s[irq_num]
    } else {
        None
    }
}

/// The slots after `unregister_handler(irq_num)`.
pub open spec fn after_unregister<H>(s: Seq<Option<H>>, irq_num: int) -> Seq<Option<H>> {
    if 0 <= irq_num < s.len() {
        s.update(irq_num, None)
    } else {
        s
    }
}

/// Once `handler` is registered for an in-range `irq_num`, dispatch finds exactly that
/// handler until the number is unregistered; unregistering hands it back, after which
/// dispatch finds nothing.
pub proof fn lemma_register_then_dispatch<H>(s: Seq<Option<H>>, irq_num: int, handler: H)
    requires
        register_succeeds(s, irq_num),
    ensures
        slot(after_register(s, irq_num, handler), irq_num) == Some(handler),
        slot(after_unregister(after_register(s, irq_num, handler), irq_num), irq_num) is None,
{
}

/// Registering on an occupied slot fails and keeps the handler that was there.
pub proof fn lemma_register_occupied<H>(s: Seq<Option<H>>, irq_num: int, first: H, second: H)
    requires
        slot(s, irq_num) == Some(first),
    ensures
        !register_succeeds(s, irq_num),
        after_register(s, irq_num, second) == s,
        slot(after_register(s, irq_num, second), irq_num) == Some(first),
{
}

/// Unregistering an empty slot hands back nothing and changes nothing.
pub proof fn lemma_unregister_empty<H>(s: Seq<Option<H>>, irq_num: int)
    requires
        slot(s, irq_num) is None,
    ensures
        after_unregister(s, irq_num) == s,
{
    if 0 <= irq_num < s.len() {
        assert(s.update(irq_num, None) =~= s);
    }
}

/// An interrupt number outside the table is refused by registration, has no handler,
/// and leaves the table unchanged under either operation.
pub proof fn lemma_out_of_range<H>(s: Seq<Option<H>>, irq_num: int, handler: H)
    requires
        irq_num < 0 || irq_num >= s.len(),
    ensures
        !register_succeeds(s, irq_num),
        slot(s, irq_num) is None,
        after_register(s, irq_num, handler) == s,
        after_unregister(s, irq_num) == s,
{
}

/// Two registrations for the same empty slot, in whichever order they take effect:
/// the first succeeds, the second fails, and the first one's handler stays stored.
pub proof fn lemma_racing_registrations<H>(s: Seq<Option<H>>, irq_num: int, first: H, second: H)
    requires
        0 <= irq_num < s.len(),
        s[irq_num] is None,
    ensures
        register_succeeds(s, irq_num),
        !register_succeeds(after_register(s, irq_num, first), irq_num),
        slot(after_register(after_register(s, irq_num, first), irq_num, second), irq_num)
            == Some(first),
{
}

/// A registry with one optional handler per interrupt number `0..capacity`.
pub struct HandlerTable<H> {
    slots: Vec<Option<H>>,
}

impl<H> View for HandlerTable<H> {
    type V = Seq<Option<H>>;

    closed spec fn view(&self) -> Seq<Option<H>> {
        self.slots@
    }
}

impl<H: Copy> HandlerTable<H> {
    /// Creates a table of `capacity` empty slots.
    pub fn new(capacity: usize) -> (t: Self)
        ensures
            t@.len() == capacity,
            forall|i: int| 0 <= i < capacity ==> (#[trigger] t@[i]) is None,
    {
        let mut slots: Vec<Option<H>> = Vec::new();
        let mut i: usize = 0;
        while i < capacity
            invariant
                i <= capacity,
                slots@.len() == i,
                forall|j: int| 0 <= j < i ==> (#[trigger] slots@[j]) is None,
            decreases capacity - i,
        {
            slots.push(None);
            i = i + 1;
        }
        HandlerTable { slots }
    }

    /// The number of interrupt numbers the table can hold.
    pub fn capacity(&self) -> (r: usize)
        ensures
            r == self@.len(),
    {
        self.slots.len()
    }

    /// Stores `handler` for `irq_num` if the number is in range and its slot is empty.
    /// Returns whether it was stored; on failure nothing changes.
    pub fn register_handler(&mut self, irq_num: usize, handler: H) -> (r: bool)
        ensures
            r == register_succeeds(old(self)@, irq_num as int),
            final(self)@ == after_register(old(self)@, irq_num as int, handler),
    {
        if irq_num < self.slots.len() && self.slots[irq_num].is_none() {
            self.slots.set(irq_num, Some(handler));
            true
        } else {
            false
        }
    }

    /// Clears the slot of `irq_num` and returns the handler it held, if any.
    pub fn unregister_handler(&mut self, irq_num: usize) -> (r: Option<H>)
        ensures
            r == slot(old(self)@, irq_num as int),
            final(self)@ == after_unregister(old(self)@, irq_num as int),
    {
        if irq_num < self.slots.len() {
            let prev = self.slots[irq_num];
            self.slots.set(irq_num, None);
            prev
        } else {
            None
        }
    }

    /// The handler currently registered for `irq_num`.
    pub fn get_handler(&self, irq_num: usize) -> (r: Option<H>)
        ensures
            r == slot(self@, irq_num as int),
    {
        if irq_num < self.slots.len() {
            self.slots[irq_num]
        } else {
            None
        }
    }
}

impl<H: Copy + Fn()> HandlerTable<H> {
    /// Whether the handler registered for `irq_num`, if any, may be invoked.
    pub open spec fn ready(&self, irq_num: int) -> bool {
        slot(self@, irq_num) is Some ==> call_requires(slot(self@, irq_num)->0, ())
    }

    /// Invokes the handler registered for `irq_num`, if any.
    /// Returns whether one was invoked.
    pub fn handle(&self, irq_num: usize) -> (r: bool)
        requires
            self.ready(irq_num as int),
        ensures
            r == slot(self@, irq_num as int) is Some,
            r ==> call_ensures(slot(self@, irq_num as int)->0, (), ()),
    {
        match self.get_handler(irq_num) {
            Some(h) => {
                h();
                true
            },
            None => false,
        }
    }
}

} // verus!

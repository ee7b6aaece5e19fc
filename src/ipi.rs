//! Inter-processor interrupt addressing shared by every controller backend.
use vstd::prelude::*;

verus! {

/// The destination of an inter-processor interrupt.
#[derive(Debug, Clone, Copy, PartialEq, Eq, Structural)]
pub enum IpiTarget {
    /// The current core, given by its id.
    Current { cpu_id: usize },
    /// Another core, given by its id.
    Other { cpu_id: usize },
    /// Every core of `0..cpu_num` but `cpu_id`.
    AllExceptCurrent { cpu_id: usize, cpu_num: usize },
}

/// The cores of `0..n` other than `except`, in increasing order.
pub open spec fn all_except(except: int, n: nat) -> Seq<usize>
    decreases n,
{
    if n == 0 {
        seq![]
    } else {
        let prev = all_except(except, (n - 1) as nat);
        if n - 1 == except { prev } else { prev.push((n - 1) as usize) }
    }
}

/// The cores that `target` addresses, in increasing order.
pub open spec fn destinations_spec(target: IpiTarget) -> Seq<usize> {
    match target {
        IpiTarget::Current { cpu_id } => seq![cpu_id],
        IpiTarget::Other { cpu_id } => seq![cpu_id],
        IpiTarget::AllExceptCurrent { cpu_id, cpu_num } => all_except(cpu_id as int, cpu_num as nat),
    }
}

/// A broadcast reaches exactly the cores below `n` other than `except`, each once,
/// in increasing order.
pub proof fn lemma_all_except(except: int, n: nat)
    requires
        n <= usize::MAX,
    ensures
        forall|c: usize| #[trigger] all_except(except, n).contains(c) <==> (c < n && c != except),
        forall|i: int, j: int|
            0 <= i < j < all_except(except, n).len() ==> all_except(except, n)[i] < all_except(except, n)[j],
        forall|i: int| 0 <= i < all_except(except, n).len() ==> all_except(except, n)[i] < n,
    decreases n,
{
    if n > 0 {
        lemma_all_except(except, (n - 1) as nat);
        let prev = all_except(except, (n - 1) as nat);
        if n - 1 != except {
            let s = prev.push((n - 1) as usize);
            assert forall|c: usize| #[trigger] s.contains(c) <==> (c < n && c != except) by {
                if c == n - 1 {
                    assert(s[prev.len() as int] == c);
                    assert(s.contains(c));
                }
                if s.contains(c) && c != n - 1 {
                    let k = choose|k: int| 0 <= k < s.len() && s[k] == c;
                    assert(k < prev.len());
                    assert(prev[k] == c);
                    assert(prev.contains(c));
                }
                if c < n - 1 && c != except {
                    assert(prev.contains(c));
                    let k = choose|k: int| 0 <= k < prev.len() && prev[k] == c;
                    assert(s[k] == c);
                    assert(s.contains(c));
                }
            }
        }
    }
}

/// The cores that `target` addresses, each once, in increasing order.
pub fn destinations(target: IpiTarget) -> (r: Vec<usize>)
    ensures
        r@ == destinations_spec(target),
{
    match target {
        IpiTarget::Current { cpu_id } => {
            let r = vec![cpu_id];
            assert(r@ =~= seq![cpu_id]);
            r
        },
        IpiTarget::Other { cpu_id } => {
            let r = vec![cpu_id];
            assert(r@ =~= seq![cpu_id]);
            r
        },
        IpiTarget::AllExceptCurrent { cpu_id, cpu_num } => {
            let mut r: Vec<usize> = Vec::new();
            let mut i: usize = 0;
            while i < cpu_num
                invariant
                    i <= cpu_num,
                    r@ == all_except(cpu_id as int, i as nat),
                decreases cpu_num - i,
            {
                if i != cpu_id {
                    r.push(i);
                }
                i = i + 1;
            }
            r
        },
    }
}

/// Whether an interrupt to `target` reaches core `core`.
pub open spec fn addresses(target: IpiTarget, core: usize) -> bool {
    destinations_spec(target).contains(core)
}

/// A broadcast reaches every core below `cpu_num` but the sender, and no other.
pub proof fn lemma_broadcast_targets(cpu_id: usize, cpu_num: usize, core: usize)
    ensures
        addresses(IpiTarget::AllExceptCurrent { cpu_id, cpu_num }, core) <==> (core < cpu_num && core != cpu_id),
        !addresses(IpiTarget::AllExceptCurrent { cpu_id, cpu_num }, cpu_id),
{
    lemma_all_except(cpu_id as int, cpu_num as nat);
}

/// Bit of the LoongArch IPI send register that makes the send wait for delivery.
pub const IOCSR_IPI_SEND_BLOCKING: u32 = 0x8000_0000;
/// Shift of the destination core id in the LoongArch IPI send register.
pub const IOCSR_IPI_SEND_CPU_SHIFT: u32 = 16;

/// The value of the LoongArch IPI send register that sends `vector` to core `cpu_id`.
pub fn make_ipi_send_value(cpu_id: usize, vector: u32, blocking: bool) -> (r: u32)
    ensures
        r == (((cpu_id as u32) << IOCSR_IPI_SEND_CPU_SHIFT) | vector) | (if blocking {
            IOCSR_IPI_SEND_BLOCKING
        } else {
            0u32
        }),
{
    let mut value = ((cpu_id as u32) << IOCSR_IPI_SEND_CPU_SHIFT) | vector;
    if blocking {
        value = value | IOCSR_IPI_SEND_BLOCKING;
    } else {
        assert(value | 0u32 == value) by (bit_vector);
    }
    value
}

/// The LoongArch IPI send register values that deliver an interrupt to `target`, one
/// per addressed core, each blocking on vector zero.
pub fn loongarch_ipi_values(target: IpiTarget) -> (r: Vec<u32>)
    ensures
        r@.len() == destinations_spec(target).len(),
        forall|i: int|
            0 <= i < r@.len() ==> #[trigger] r@[i] == (((destinations_spec(target)[i] as u32) << IOCSR_IPI_SEND_CPU_SHIFT)
                | 0u32) | IOCSR_IPI_SEND_BLOCKING,
{
    let cores = destinations(target);
    let mut r: Vec<u32> = Vec::new();
    let mut i: usize = 0;
    while i < cores.len()
        invariant
            cores@ == destinations_spec(target),
            i <= cores@.len(),
            r@.len() == i,
            forall|k: int|
                0 <= k < i ==> #[trigger] r@[k] == (((cores@[k] as u32) << IOCSR_IPI_SEND_CPU_SHIFT) | 0u32)
                    | IOCSR_IPI_SEND_BLOCKING,
        decreases cores@.len() - i,
    {
        r.push(make_ipi_send_value(cores[i], 0, true));
        i = i + 1;
    }
    r
}

/// The SBI hart mask, relative to hart zero, that selects hart `cpu_id` alone.
pub fn hart_mask(cpu_id: usize) -> (r: usize)
    requires
        cpu_id < usize::BITS,
    ensures
        r == 1usize << cpu_id,
{
    1usize << cpu_id
}

/// The SBI hart masks that deliver an interrupt to `target`, one per addressed core.
pub fn riscv_ipi_masks(target: IpiTarget) -> (r: Vec<usize>)
    requires
        forall|i: int| 0 <= i < destinations_spec(target).len() ==> #[trigger] destinations_spec(target)[i] < usize::BITS,
    ensures
        r@.len() == destinations_spec(target).len(),
        forall|i: int| 0 <= i < r@.len() ==> #[trigger] r@[i] == 1usize << destinations_spec(target)[i],
{
    let cores = destinations(target);
    let mut r: Vec<usize> = Vec::new();
    let mut i: usize = 0;
    while i < cores.len()
        invariant
            cores@ == destinations_spec(target),
            forall|k: int| 0 <= k < cores@.len() ==> #[trigger] cores@[k] < usize::BITS,
            i <= cores@.len(),
            r@.len() == i,
            forall|k: int| 0 <= k < i ==> #[trigger] r@[k] == 1usize << cores@[k],
        decreases cores@.len() - i,
    {
        r.push(hart_mask(cores[i]));
        i = i + 1;
    }
    r
}

} // verus!

//! Console byte plumbing.
use vstd::prelude::*;

verus! {

/// The bytes sent to a UART for `bytes`: each line feed goes out as a carriage return
/// and a line feed.
pub open spec fn console_bytes(bytes: Seq<u8>) -> Seq<u8>
    decreases bytes.len(),
{
    if bytes.len() == 0 {
        seq![]
    } else {
        let prev = console_bytes(bytes.drop_last());
        if bytes.last() == 10u8 {
            prev + seq![13u8, 10u8]
        } else {
            prev.push(bytes.last())
        }
    }
}

/// The bytes to put on the UART to write `bytes` to the console.
pub fn write_bytes(bytes: &[u8]) -> (r: Vec<u8>)
    ensures
        r@ == console_bytes(bytes@),
{
    let mut out: Vec<u8> = Vec::new();
    let mut i: usize = 0;
    assert(bytes@.subrange(0, 0) =~= Seq::<u8>::empty());
    while i < bytes.len()
        invariant
            i <= bytes@.len(),
            out@ == console_bytes(bytes@.subrange(0, i as int)),
        decreases bytes@.len() - i,
    {
        let c = bytes[i];
        if c == 10u8 {
            out.push(13u8);
            out.push(10u8);
        } else {
            out.push(c);
        }
        assert(bytes@.subrange(0, i + 1).drop_last() =~= bytes@.subrange(0, i as int));
        i = i + 1;
        assert(out@ =~= console_bytes(bytes@.subrange(0, i as int)));
    }
    assert(bytes@.subrange(0, bytes@.len() as int) =~= bytes@);
    out
}

} // verus!

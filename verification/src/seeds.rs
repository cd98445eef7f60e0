//! Byte strings that the programs use as seeds of program derived addresses.
use vstd::prelude::*;

verus! {

/// The first `n` bytes of the little-endian encoding of `x`.
pub open spec fn le_bytes_n(x: nat, n: nat) -> Seq<u8>
    decreases n,
{
    if n == 0 {
        Seq::empty()
    } else {
        seq![(x % 256) as u8] + le_bytes_n(x / 256, (n - 1) as nat)
    }
}

/// The 8-byte little-endian encoding of `x`.
pub open spec fn le_bytes(x: u64) -> Seq<u8> {
    le_bytes_n(x as nat, 8)
}

/// The 8-byte little-endian encoding of `x`, as `u64::to_le_bytes` gives it.
pub fn u64_le_bytes(x: u64) -> (r: Vec<u8>)
    ensures
        r@ == le_bytes(x),
        r.deep_view() == le_bytes(x),
{
    let mut out: Vec<u8> = Vec::new();
    let mut v: u64 = x;
    let mut i: usize = 0;
    while i < 8
        invariant
            i <= 8,
            out@.len() == i,
            out@ + le_bytes_n(v as nat, (8 - i) as nat) == le_bytes(x),
        decreases 8 - i,
    {
        let b: u8 = (v % 256) as u8;
        proof {
            let rest = le_bytes_n(v as nat / 256, (8 - i - 1) as nat);
            assert(le_bytes_n(v as nat, (8 - i) as nat) == seq![b] + rest);
            assert(out@.push(b) + rest =~= out@ + (seq![b] + rest));
        }
        out.push(b);
        v = v / 256;
        i = i + 1;
    }
    assert(le_bytes_n(v as nat, 0) =~= Seq::<u8>::empty());
    assert(out@ =~= le_bytes(x));
    assert(out.deep_view() =~= le_bytes(x));
    out
}

/// A seed holding the bytes of `bytes`.
pub fn seed_from(bytes: &[u8]) -> (r: Vec<u8>)
    ensures
        r@ == bytes@,
        r.deep_view() == bytes@,
{
    let mut v: Vec<u8> = Vec::new();
    let mut i: usize = 0;
    while i < bytes.len()
        invariant
            i <= bytes@.len(),
            v@ =~= bytes@.subrange(0, i as int),
        decreases bytes@.len() - i,
    {
        v.push(bytes[i]);
        i = i + 1;
    }
    assert(v@ =~= bytes@);
    assert(v.deep_view() =~= bytes@);
    v
}

/// A seed made of one byte.
pub fn byte_seed(b: u8) -> (r: Vec<u8>)
    ensures
        r@ == seq![b],
        r.deep_view() == seq![b],
{
    let mut v: Vec<u8> = Vec::new();
    v.push(b);
    assert(v@ =~= seq![b]);
    assert(v.deep_view() =~= seq![b]);
    v
}

} // verus!

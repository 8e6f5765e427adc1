//! Small loops over byte strings: copying, padding and comparing.
use vstd::prelude::*;

verus! {

/// `n` zero bytes.
pub open spec fn zeros(n: nat) -> Seq<u8> {
    Seq::new(n, |i: int| 0u8)
}

/// Appends `n` zero bytes.
pub fn push_zeros(out: &mut Vec<u8>, n: usize)
    ensures
        final(out)@ == old(out)@ + zeros(n as nat),
{
    let mut i: usize = 0;
    while i < n
        invariant
            i <= n,
            out@ == old(out)@ + zeros(i as nat),
        decreases n - i,
    {
        out.push(0u8);
        i = i + 1;
        assert(out@ =~= old(out)@ + zeros(i as nat));
    }
    assert(out@ =~= old(out)@ + zeros(n as nat));
}

/// Appends a copy of `octets`.
pub fn push_all(out: &mut Vec<u8>, octets: &[u8])
    ensures
        final(out)@ == old(out)@ + octets@,
{
    let mut i: usize = 0;
    while i < octets.len()
        invariant
            i <= octets@.len(),
            out@ == old(out)@ + octets@.subrange(0, i as int),
        decreases octets@.len() - i,
    {
        out.push(octets[i]);
        i = i + 1;
        assert(out@ =~= old(out)@ + octets@.subrange(0, i as int));
    }
    assert(octets@.subrange(0, i as int) =~= octets@);
}

/// A copy of the bytes from index `from` up to, not including, `to`.
pub fn copy_range(octets: &[u8], from: usize, to: usize) -> (out: Vec<u8>)
    requires
        from <= to <= octets@.len(),
    ensures
        out@ == octets@.subrange(from as int, to as int),
{
    let mut out: Vec<u8> = Vec::new();
    let mut i: usize = from;
    while i < to
        invariant
            from <= i <= to <= octets@.len(),
            out@ == octets@.subrange(from as int, i as int),
        decreases to - i,
    {
        out.push(octets[i]);
        i = i + 1;
        assert(out@ =~= octets@.subrange(from as int, i as int));
    }
    out
}

/// A copy of all of `octets`.
pub fn copy_of(octets: &[u8]) -> (out: Vec<u8>)
    ensures
        out@ == octets@,
{
    let out = copy_range(octets, 0, octets.len());
    assert(octets@.subrange(0, octets@.len() as int) =~= octets@);
    out
}

/// Whether two byte strings are the same, byte for byte.
pub fn same_octets(a: &[u8], b: &[u8]) -> (same: bool)
    ensures
        same == (a@ == b@),
{
    if a.len() != b.len() {
        return false;
    }
    let mut i: usize = 0;
    while i < a.len()
        invariant
            i <= a@.len(),
            a@.len() == b@.len(),
            a@.subrange(0, i as int) == b@.subrange(0, i as int),
        decreases a@.len() - i,
    {
        if a[i] != b[i] {
            assert(a@[i as int] != b@[i as int]);
            return false;
        }
        i = i + 1;
        assert(a@.subrange(0, i as int) =~= a@.subrange(0, i - 1).push(a@[i - 1]));
        assert(b@.subrange(0, i as int) =~= b@.subrange(0, i - 1).push(b@[i - 1]));
    }
    assert(a@.subrange(0, i as int) =~= a@);
    assert(b@.subrange(0, i as int) =~= b@);
    true
}

} // verus!

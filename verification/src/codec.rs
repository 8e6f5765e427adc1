//! The fixed-width wire form of a signature: two big-endian scalars, each
//! left-padded with zeros to `FIELD_SIZE` bytes.
use crate::octets::{copy_range, push_all, push_zeros, zeros};
use crate::text::{decimal, decimal_string};
use crate::types::{CryptoError, CryptoResult, SignatureBytes, FIELD_SIZE};
use vstd::arithmetic::power::{lemma_pow0, lemma_pow_positive, pow};
use vstd::prelude::*;
use vstd::string::*;

verus! {

/// The number that `octets` spells as an unsigned big-endian integer.
pub open spec fn be_value(octets: Seq<u8>) -> nat
    decreases octets.len(),
{
    if octets.len() == 0 {
        0
    } else {
        be_value(octets.drop_last()) * 256 + octets.last() as nat
    }
}

/// `octets` behind as many zero bytes as make it `width` bytes long.
pub open spec fn left_padded(octets: Seq<u8>, width: nat) -> Seq<u8>
    recommends
        octets.len() <= width,
{
    zeros((width - octets.len()) as nat) + octets
}

/// The wire form of the pair `(r, s)`.
pub open spec fn packed(r: Seq<u8>, s: Seq<u8>) -> Seq<u8>
    recommends
        r.len() <= FIELD_SIZE,
        s.len() <= FIELD_SIZE,
{
    left_padded(r, FIELD_SIZE as nat) + left_padded(s, FIELD_SIZE as nat)
}

/// The first half of a wire-form signature.
pub open spec fn r_part(sig: Seq<u8>) -> Seq<u8>
    recommends
        sig.len() == 2 * FIELD_SIZE,
{
    sig.subrange(0, FIELD_SIZE as int)
}

/// The second half of a wire-form signature.
pub open spec fn s_part(sig: Seq<u8>) -> Seq<u8>
    recommends
        sig.len() == 2 * FIELD_SIZE,
{
    sig.subrange(FIELD_SIZE as int, 2 * FIELD_SIZE)
}

/// The text of the error for a signature of `len` bytes.
pub open spec fn length_mismatch_text(len: nat) -> Seq<char> {
    "Expected "@ + decimal(SignatureBytes::SIZE as nat) + " bytes, got "@ + decimal(len)
}

/// The first number that no longer fits into `FIELD_SIZE` bytes.
pub open spec fn field_limit() -> nat {
    pow(256, FIELD_SIZE as nat) as nat
}

/// Zero bytes spell zero.
pub proof fn lemma_zeros_value(n: nat)
    ensures
        be_value(zeros(n)) == 0,
    decreases n,
{
    if n > 0 {
        assert(zeros(n).drop_last() =~= zeros((n - 1) as nat));
        lemma_zeros_value((n - 1) as nat);
    }
}

/// Zero bytes in front do not change the number.
pub proof fn lemma_padding_keeps_value(n: nat, octets: Seq<u8>)
    ensures
        be_value(zeros(n) + octets) == be_value(octets),
    decreases octets.len(),
{
    if octets.len() == 0 {
        assert(zeros(n) + octets =~= zeros(n));
        lemma_zeros_value(n);
    } else {
        assert((zeros(n) + octets).drop_last() =~= zeros(n) + octets.drop_last());
        lemma_padding_keeps_value(n, octets.drop_last());
    }
}

/// `k` bytes spell a number below `256^k`.
pub proof fn lemma_value_upper_bound(octets: Seq<u8>)
    ensures
        be_value(octets) < pow(256, octets.len()),
    decreases octets.len(),
{
    if octets.len() == 0 {
        lemma_pow0(256);
    } else {
        let k = (octets.len() - 1) as nat;
        lemma_value_upper_bound(octets.drop_last());
        assert(pow(256, octets.len()) == 256 * pow(256, k)) by {
            reveal(pow);
        }
    }
}

/// `k` bytes of which the first is not zero spell at least `256^(k-1)`.
pub proof fn lemma_value_lower_bound(octets: Seq<u8>)
    requires
        octets.len() > 0,
        octets[0] != 0,
    ensures
        be_value(octets) >= pow(256, (octets.len() - 1) as nat),
    decreases octets.len(),
{
    if octets.len() == 1 {
        lemma_pow0(256);
        assert(octets.drop_last().len() == 0);
    } else {
        let k = (octets.len() - 1) as nat;
        lemma_value_lower_bound(octets.drop_last());
        assert(pow(256, k) == 256 * pow(256, (k - 1) as nat)) by {
            reveal(pow);
        }
    }
}

/// `256^a <= 256^b` for `a <= b`.
pub proof fn lemma_pow256_monotonic(a: nat, b: nat)
    requires
        a <= b,
    ensures
        pow(256, a) <= pow(256, b),
        pow(256, a) > 0,
    decreases b,
{
    lemma_pow_positive(256, a);
    if a < b {
        lemma_pow256_monotonic(a, (b - 1) as nat);
        assert(pow(256, b) == 256 * pow(256, (b - 1) as nat)) by {
            reveal(pow);
        }
    }
}

/// An encoding without a leading zero byte fits into `FIELD_SIZE` bytes
/// exactly when its number is below `field_limit()`.
pub proof fn lemma_minimal_fits_iff_below_limit(octets: Seq<u8>)
    requires
        octets.len() > 0 ==> octets[0] != 0,
    ensures
        octets.len() <= FIELD_SIZE <==> be_value(octets) < field_limit(),
{
    lemma_pow256_monotonic(0, FIELD_SIZE as nat);
    if octets.len() <= FIELD_SIZE {
        lemma_value_upper_bound(octets);
        lemma_pow256_monotonic(octets.len(), FIELD_SIZE as nat);
    } else {
        lemma_value_lower_bound(octets);
        lemma_pow256_monotonic(FIELD_SIZE as nat, (octets.len() - 1) as nat);
    }
}

/// The halves of `packed(r, s)` are `r` and `s`, each padded on its own.
pub proof fn lemma_packed_parts(r: Seq<u8>, s: Seq<u8>)
    requires
        r.len() <= FIELD_SIZE,
        s.len() <= FIELD_SIZE,
    ensures
        packed(r, s).len() == 2 * FIELD_SIZE,
        r_part(packed(r, s)) == left_padded(r, FIELD_SIZE as nat),
        s_part(packed(r, s)) == left_padded(s, FIELD_SIZE as nat),
{
    let p = packed(r, s);
    assert(r_part(p) =~= left_padded(r, FIELD_SIZE as nat));
    assert(s_part(p) =~= left_padded(s, FIELD_SIZE as nat));
}

/// Packing and then unpacking gives back the two numbers: what the halves
/// of `packed(r, s)` spell is what `r` and `s` spell.
pub proof fn lemma_pack_unpack_round_trip(r: Seq<u8>, s: Seq<u8>)
    requires
        r.len() <= FIELD_SIZE,
        s.len() <= FIELD_SIZE,
    ensures
        packed(r, s).len() == 2 * FIELD_SIZE,
        be_value(r_part(packed(r, s))) == be_value(r),
        be_value(s_part(packed(r, s))) == be_value(s),
{
    lemma_packed_parts(r, s);
    lemma_padding_keeps_value((FIELD_SIZE - r.len()) as nat, r);
    lemma_padding_keeps_value((FIELD_SIZE - s.len()) as nat, s);
}

/// `octets` without the zero bytes in front.
pub open spec fn stripped(octets: Seq<u8>) -> Seq<u8>
    decreases octets.len(),
{
    if octets.len() > 0 && octets[0] == 0 {
        stripped(octets.drop_first())
    } else {
        octets
    }
}

/// Stripping undoes padding.
pub proof fn lemma_stripped_padding(n: nat, octets: Seq<u8>)
    ensures
        stripped(zeros(n) + octets) == stripped(octets),
    decreases n,
{
    if n == 0 {
        assert(zeros(0) + octets =~= octets);
    } else {
        assert((zeros(n) + octets).drop_first() =~= zeros((n - 1) as nat) + octets);
        lemma_stripped_padding((n - 1) as nat, octets);
    }
}

/// Packing and then unpacking gives back the very bytes of two scalars that
/// were written without zero bytes in front, once the padding is stripped.
pub proof fn lemma_pack_unpack_gives_minimal_scalars(r: Seq<u8>, s: Seq<u8>)
    requires
        r.len() <= FIELD_SIZE,
        s.len() <= FIELD_SIZE,
        r.len() > 0 ==> r[0] != 0,
        s.len() > 0 ==> s[0] != 0,
    ensures
        stripped(r_part(packed(r, s))) == r,
        stripped(s_part(packed(r, s))) == s,
{
    lemma_packed_parts(r, s);
    lemma_stripped_padding((FIELD_SIZE - r.len()) as nat, r);
    lemma_stripped_padding((FIELD_SIZE - s.len()) as nat, s);
}

/// A signature of the right length is the packing of its own halves.
pub proof fn lemma_unpack_pack_round_trip(sig: Seq<u8>)
    requires
        sig.len() == 2 * FIELD_SIZE,
    ensures
        packed(r_part(sig), s_part(sig)) == sig,
{
    assert(zeros(0) =~= Seq::<u8>::empty());
    assert(packed(r_part(sig), s_part(sig)) =~= sig);
}

/// Packs the big-endian scalars `r` and `s` into the wire form.
///
/// There is no wire form for a scalar wider than `FIELD_SIZE` bytes. Any
/// narrower one is written right-aligned into its half, and what the half
/// spells is what the scalar spells.
pub fn pack_components(r: &[u8], s: &[u8]) -> (out: Option<SignatureBytes>)
    ensures
        out is Some <==> r@.len() <= FIELD_SIZE && s@.len() <= FIELD_SIZE,
        out matches Some(sig) ==> {
            &&& sig@ == packed(r@, s@)
            &&& sig.wf()
            &&& be_value(r_part(sig@)) == be_value(r@)
            &&& be_value(s_part(sig@)) == be_value(s@)
        },
{
    if r.len() > FIELD_SIZE || s.len() > FIELD_SIZE {
        return None;
    }
    let mut bytes: Vec<u8> = Vec::new();
    push_zeros(&mut bytes, FIELD_SIZE - r.len());
    push_all(&mut bytes, r);
    push_zeros(&mut bytes, FIELD_SIZE - s.len());
    push_all(&mut bytes, s);
    proof {
        assert(bytes@ =~= packed(r@, s@));
        lemma_pack_unpack_round_trip(r@, s@);
    }
    Some(SignatureBytes(bytes))
}

/// Splits a wire-form signature into its two scalars.
///
/// A signature of any length but `SignatureBytes::SIZE` is malformed, and
/// the error says which length was expected and which was found. One of the
/// right length always splits, whatever it holds.
pub fn unpack_components(sig: &SignatureBytes) -> (out: CryptoResult<(Vec<u8>, Vec<u8>)>)
    ensures
        sig.wf() ==> (out matches Ok((r, s)) && r@ == r_part(sig@) && s@ == s_part(sig@)),
        !sig.wf() ==> (out matches Err(e) && e.is_malformed_signature(sig@) && e.text()
            == length_mismatch_text(sig@.len())),
{
    let len = sig.0.len();
    if len != SignatureBytes::SIZE {
        let text = String::from_str("Expected ").concat(
            decimal_string(SignatureBytes::SIZE).as_str(),
        ).concat(" bytes, got ").concat(decimal_string(len).as_str());
        return Err(CryptoError::malformed_signature(sig.0.as_slice(), text));
    }
    let r = copy_range(sig.0.as_slice(), 0, FIELD_SIZE);
    let s = copy_range(sig.0.as_slice(), FIELD_SIZE, SignatureBytes::SIZE);
    Ok((r, s))
}

} // verus!

//! The calls into OpenSSL. Nothing in this file is proved: each function
//! hands its arguments to one OpenSSL routine, and its contract is taken on
//! trust. A contract claims one of three things: that a routine's result
//! depends on its arguments alone, which gives the result a name; that a
//! named fact holds wherever the routine succeeded; or what the routine's
//! documentation says. No contract promises that a routine succeeds: each
//! may fail for want of memory, whatever it is given.
//!
//! Numbers of OpenSSL carry a sign, so their names are integers. A number
//! read from bytes is never negative; one written to bytes is written as its
//! magnitude.
//!
//! The names of points and keys are those of one curve, secp256k1. Every
//! routine that takes a group and whose result has a name requires that the
//! group be that curve, which is known only of a group that `curve_group`
//! made. The uncompressed form is chosen inside `public_point_octets` and
//! `pair_point_octets`; the tests hold it, and the curve, to known
//! encodings.
use openssl::bn::{BigNum, BigNumContext};
use openssl::ec::{EcGroup, EcKey, EcPoint, PointConversionForm};
use openssl::ecdsa::EcdsaSig;
use openssl::error::ErrorStack;
use openssl::nid::Nid;
use openssl::pkey::{PKey, Private, Public};
use vstd::math::abs;
use vstd::prelude::*;

verus! {

/// The longest input that OpenSSL's routines take: they measure it with a
/// C `int`.
pub const MAX_INPUT_LEN: usize = 0x7fff_ffff;

#[verifier::external_type_specification]
#[verifier::external_body]
pub struct ExErrorStack(ErrorStack);

#[verifier::external_type_specification]
#[verifier::external_body]
pub struct ExEcGroup(EcGroup);

#[verifier::external_type_specification]
#[verifier::external_body]
pub struct ExBigNumContext(BigNumContext);

#[verifier::external_type_specification]
#[verifier::external_body]
pub struct ExBigNum(BigNum);

#[verifier::external_type_specification]
#[verifier::external_body]
pub struct ExEcPoint(EcPoint);

#[verifier::external_type_specification]
#[verifier::external_body]
pub struct ExPublic(Public);

#[verifier::external_type_specification]
#[verifier::external_body]
pub struct ExPrivate(Private);

#[verifier::external_type_specification]
#[verifier::external_body]
#[verifier::reject_recursive_types(T)]
pub struct ExEcKey<T>(EcKey<T>);

#[verifier::external_type_specification]
#[verifier::external_body]
#[verifier::reject_recursive_types(T)]
pub struct ExPKey<T>(PKey<T>);

#[verifier::external_type_specification]
#[verifier::external_body]
pub struct ExEcdsaSig(EcdsaSig);

/// The text that `Display` writes for an error stack.
pub uninterp spec fn error_text(e: ErrorStack) -> Seq<char>;

/// The shape of every text that `Display` writes for an error stack:
/// "OpenSSL error" for an empty stack, and else a text that begins with
/// "error:".
pub open spec fn is_diagnostic(text: Seq<char>) -> bool {
    text == "OpenSSL error"@ || (text.len() >= 6 && text.subrange(0, 6) == "error:"@)
}

/// The number that a `BigNum` holds, with its sign.
pub uninterp spec fn bignum_value(n: BigNum) -> int;

/// Whether a group is the curve secp256k1. It is tied to
/// `EcGroup::from_curve_name` one way: a group that the routine made for
/// that curve's identifier is the curve.
pub uninterp spec fn is_secp256k1(group: EcGroup) -> bool;

/// Whether `EcPoint::from_bytes` can read a point of secp256k1 from
/// `octets`. It is tied
/// to the routine one way: where the routine succeeds, this holds.
pub uninterp spec fn point_readable(octets: Seq<u8>) -> bool;

/// The point of secp256k1 that `EcPoint::from_bytes` reads from `octets`.
pub uninterp spec fn decoded_point(octets: Seq<u8>) -> EcPoint;

/// The key on secp256k1 that `EcKey::from_public_key` makes of a point.
pub uninterp spec fn public_key_of_point(point: EcPoint) -> EcKey<Public>;

/// The encoding that `public_key_to_der` writes for a key.
pub uninterp spec fn spki_of_key(key: EcKey<Public>) -> Seq<u8>;

/// Whether `PKey::public_key_from_der` can read a key from `der`. It is
/// tied to the routine one way: where the routine succeeds, this holds.
pub uninterp spec fn spki_readable(der: Seq<u8>) -> bool;

/// The key that `PKey::public_key_from_der` reads from `der`.
pub uninterp spec fn parsed_spki(der: Seq<u8>) -> PKey<Public>;

/// The elliptic-curve key that `ec_key` takes out of a generic key.
pub uninterp spec fn ec_key_of(pkey: PKey<Public>) -> EcKey<Public>;

/// The uncompressed encoding that `to_bytes`, given secp256k1, writes for a
/// key's point.
pub uninterp spec fn point_octets_of(key: EcKey<Public>) -> Seq<u8>;

/// The key pair on secp256k1 that `EcKey::from_private_components` makes of
/// a scalar and a point.
pub uninterp spec fn private_key_of(scalar: int, point: EcPoint) -> EcKey<Private>;

/// Whether `check_key` finds a key pair valid. It is tied to the routine one
/// way: where the routine succeeds, this holds.
pub uninterp spec fn passes_key_check(key: EcKey<Private>) -> bool;

/// The encoding that `private_key_to_der` writes for a key pair.
pub uninterp spec fn private_der_of(key: EcKey<Private>) -> Seq<u8>;

/// The uncompressed encoding that `to_bytes`, given secp256k1, writes for
/// the point of a key pair.
pub uninterp spec fn pair_point_octets_of(key: EcKey<Private>) -> Seq<u8>;

/// Whether `EcKey::private_key_from_der` can read a key pair from `der`. It
/// is tied to the routine one way: where the routine succeeds, this holds.
pub uninterp spec fn private_key_readable(der: Seq<u8>) -> bool;

/// The key pair that `EcKey::private_key_from_der` reads from `der`.
pub uninterp spec fn parsed_private_key(der: Seq<u8>) -> EcKey<Private>;

/// The scalar `r` of a signature, with its sign.
pub uninterp spec fn sig_r(sig: EcdsaSig) -> int;

/// The scalar `s` of a signature, with its sign.
pub uninterp spec fn sig_s(sig: EcdsaSig) -> int;

/// The encoding that `EcdsaSig::to_der` writes for the scalars `r` and `s`.
pub uninterp spec fn signature_der(r: int, s: int) -> Seq<u8>;

/// `EcdsaSig::sign` made, for `digest` and under `key`, a signature whose
/// scalars have the magnitudes `r` and `s`.
pub uninterp spec fn signs(r: nat, s: nat, digest: Seq<u8>, key: EcKey<Private>) -> bool;

/// Whether `EcdsaSig::verify` accepts the scalars `r` and `s` for `digest`
/// under `key`.
pub uninterp spec fn ecdsa_accepts(r: int, s: int, digest: Seq<u8>, key: EcKey<Public>) -> bool;

/// `ErrorStack`'s `Display`, through `to_string`. The text depends on the
/// error stack alone. It is "OpenSSL error" for an empty stack; for any
/// other it starts with the first error, which `Display` of `Error` opens
/// with "error:".
#[verifier::external_body]
pub(crate) fn describe(e: &ErrorStack) -> (text: String)
    ensures
        text@ == error_text(*e),
        is_diagnostic(text@),
{
    e.to_string()
}

/// `EcGroup::from_curve_name` for secp256k1. Whether the curve is to be had
/// depends on how OpenSSL was built, so success is not promised; a group
/// that comes back is that curve.
#[verifier::external_body]
pub(crate) fn curve_group() -> (r: Result<EcGroup, ErrorStack>)
    ensures
        r matches Ok(group) ==> is_secp256k1(group),
{
    EcGroup::from_curve_name(Nid::SECP256K1)
}

/// `BigNumContext::new`. Nothing is claimed of the outcome.
#[verifier::external_body]
pub(crate) fn bignum_context() -> (r: Result<BigNumContext, ErrorStack>)
{
    BigNumContext::new()
}

/// `BigNum::from_slice`, which is documented to read an unsigned big-endian
/// number of any length, and which panics on more than `MAX_INPUT_LEN` bytes.
/// The number read is the one that the bytes spell, so it is not negative.
#[verifier::external_body]
pub(crate) fn bignum_from_slice(octets: &[u8]) -> (r: Result<BigNum, ErrorStack>)
    requires
        octets@.len() <= MAX_INPUT_LEN,
    ensures
        r matches Ok(n) ==> bignum_value(n) == crate::codec::be_value(octets@),
{
    BigNum::from_slice(octets)
}

/// `EcPoint::from_bytes`. On one curve the point read depends on the bytes
/// alone; the context is scratch space. Success is not promised for any
/// bytes: the routine also fails when memory runs out.
#[verifier::external_body]
pub(crate) fn point_from_bytes(
    group: &EcGroup,
    octets: &[u8],
    ctx: &mut BigNumContext,
) -> (r: Result<EcPoint, ErrorStack>)
    requires
        is_secp256k1(*group),
    ensures
        r matches Ok(p) ==> p == decoded_point(octets@),
        r is Ok ==> point_readable(octets@),
{
    EcPoint::from_bytes(group, octets, ctx)
}

/// `EcKey::from_public_key`. On one curve the key depends on the point
/// alone.
#[verifier::external_body]
pub(crate) fn key_from_public_point(
    group: &EcGroup,
    point: &EcPoint,
) -> (r: Result<EcKey<Public>, ErrorStack>)
    requires
        is_secp256k1(*group),
    ensures
        r matches Ok(k) ==> k == public_key_of_point(*point),
{
    EcKey::from_public_key(group, point)
}

/// `EcKeyRef::public_key_to_der`. The encoding depends on the key alone.
#[verifier::external_body]
pub(crate) fn public_key_der(key: &EcKey<Public>) -> (r: Result<Vec<u8>, ErrorStack>)
    ensures
        r matches Ok(der) ==> der@ == spki_of_key(*key),
{
    key.public_key_to_der()
}

/// `PKey::public_key_from_der`. The key read depends on the bytes alone.
#[verifier::external_body]
pub(crate) fn parse_spki(der: &[u8]) -> (r: Result<PKey<Public>, ErrorStack>)
    ensures
        r matches Ok(pkey) ==> pkey == parsed_spki(der@),
        r is Ok ==> spki_readable(der@),
{
    PKey::public_key_from_der(der)
}

/// `PKeyRef::ec_key`. The key taken out depends on the generic key alone.
#[verifier::external_body]
pub(crate) fn pkey_ec_key(pkey: &PKey<Public>) -> (r: Result<EcKey<Public>, ErrorStack>)
    ensures
        r matches Ok(k) ==> k == ec_key_of(*pkey),
{
    pkey.ec_key()
}

/// `EcKeyRef::public_key`, and on that point `EcPointRef::to_bytes` in
/// uncompressed form. Given one curve, the bytes depend on the key alone;
/// the context is scratch space.
#[verifier::external_body]
pub(crate) fn public_point_octets(
    key: &EcKey<Public>,
    group: &EcGroup,
    ctx: &mut BigNumContext,
) -> (r: Result<Vec<u8>, ErrorStack>)
    requires
        is_secp256k1(*group),
    ensures
        r matches Ok(octets) ==> octets@ == point_octets_of(*key),
{
    key.public_key().to_bytes(group, PointConversionForm::UNCOMPRESSED, ctx)
}

/// `EcKeyRef::public_key`, and on that point `EcPointRef::to_bytes` in
/// uncompressed form, for a key pair. Given one curve, the bytes depend on
/// the key pair alone; the context is scratch space.
#[verifier::external_body]
pub(crate) fn pair_point_octets(
    key: &EcKey<Private>,
    group: &EcGroup,
    ctx: &mut BigNumContext,
) -> (r: Result<Vec<u8>, ErrorStack>)
    requires
        is_secp256k1(*group),
    ensures
        r matches Ok(octets) ==> octets@ == pair_point_octets_of(*key),
{
    key.public_key().to_bytes(group, PointConversionForm::UNCOMPRESSED, ctx)
}

/// `EcKey::generate`. The key is random: nothing is claimed of it.
#[verifier::external_body]
pub(crate) fn generate_key(group: &EcGroup) -> (r: Result<EcKey<Private>, ErrorStack>)
{
    EcKey::generate(group)
}

/// `EcKey::from_private_components`. On one curve the key pair depends on
/// the scalar's value and on the point. The routine stores both and
/// compares nothing.
#[verifier::external_body]
pub(crate) fn key_from_private_components(
    group: &EcGroup,
    scalar: &BigNum,
    point: &EcPoint,
) -> (r: Result<EcKey<Private>, ErrorStack>)
    requires
        is_secp256k1(*group),
    ensures
        r matches Ok(k) ==> k == private_key_of(bignum_value(*scalar), *point),
{
    EcKey::from_private_components(group, scalar, point)
}

/// `EcKeyRef::check_key`, which is documented to check the key for validity.
/// It succeeds only on a key pair that passes.
#[verifier::external_body]
pub(crate) fn check_key(key: &EcKey<Private>) -> (r: Result<(), ErrorStack>)
    ensures
        r is Ok ==> passes_key_check(*key),
{
    key.check_key()
}

/// `EcKeyRef::private_key_to_der`. The encoding depends on the key alone.
#[verifier::external_body]
pub(crate) fn private_key_der(key: &EcKey<Private>) -> (r: Result<Vec<u8>, ErrorStack>)
    ensures
        r matches Ok(der) ==> der@ == private_der_of(*key),
{
    key.private_key_to_der()
}

/// `EcKey::private_key_from_der`. The key pair read depends on the bytes
/// alone.
#[verifier::external_body]
pub(crate) fn parse_private_key(der: &[u8]) -> (r: Result<EcKey<Private>, ErrorStack>)
    ensures
        r matches Ok(k) ==> k == parsed_private_key(der@),
        r is Ok ==> private_key_readable(der@),
{
    EcKey::private_key_from_der(der)
}

/// `EcdsaSig::sign`, which panics on more than `MAX_INPUT_LEN` bytes. The
/// signature depends on a random nonce, so it has no name; what holds of
/// every outcome is that the routine made it for this digest under this key.
#[verifier::external_body]
pub(crate) fn ecdsa_sign(digest: &[u8], key: &EcKey<Private>) -> (r: Result<EcdsaSig, ErrorStack>)
    requires
        digest@.len() <= MAX_INPUT_LEN,
    ensures
        r matches Ok(sig) ==> signs(abs(sig_r(sig)), abs(sig_s(sig)), digest@, *key),
{
    EcdsaSig::sign(digest, key)
}

/// `EcdsaSigRef::r`, written out by `BigNumRef::to_vec`, which is documented
/// to write the magnitude: big-endian, and as short as the number allows, so
/// without a zero byte in front.
#[verifier::external_body]
pub(crate) fn signature_r_octets(sig: &EcdsaSig) -> (octets: Vec<u8>)
    ensures
        crate::codec::be_value(octets@) == abs(sig_r(*sig)),
        octets@.len() > 0 ==> octets@[0] != 0,
{
    sig.r().to_vec()
}

/// `EcdsaSigRef::s`, written out by `BigNumRef::to_vec`, which is documented
/// to write the magnitude: big-endian, and as short as the number allows, so
/// without a zero byte in front.
#[verifier::external_body]
pub(crate) fn signature_s_octets(sig: &EcdsaSig) -> (octets: Vec<u8>)
    ensures
        crate::codec::be_value(octets@) == abs(sig_s(*sig)),
        octets@.len() > 0 ==> octets@[0] != 0,
{
    sig.s().to_vec()
}

/// `EcdsaSigRef::to_der`. The encoding depends on the two scalars alone.
#[verifier::external_body]
pub(crate) fn signature_to_der(sig: &EcdsaSig) -> (r: Result<Vec<u8>, ErrorStack>)
    ensures
        r matches Ok(der) ==> der@ == signature_der(sig_r(*sig), sig_s(*sig)),
{
    sig.to_der()
}

/// `EcdsaSig::from_private_components`, which stores the two numbers as the
/// signature's `r` and `s`.
#[verifier::external_body]
pub(crate) fn signature_from_components(r: BigNum, s: BigNum) -> (out: Result<EcdsaSig, ErrorStack>)
    ensures
        out matches Ok(sig) ==> sig_r(sig) == bignum_value(r) && sig_s(sig) == bignum_value(s),
{
    EcdsaSig::from_private_components(r, s)
}

/// `EcdsaSigRef::verify`, which panics on more than `MAX_INPUT_LEN` bytes.
/// The verdict depends on the two scalars, the digest and the key alone.
#[verifier::external_body]
pub(crate) fn ecdsa_verify(
    sig: &EcdsaSig,
    digest: &[u8],
    key: &EcKey<Public>,
) -> (r: Result<bool, ErrorStack>)
    requires
        digest@.len() <= MAX_INPUT_LEN,
    ensures
        r matches Ok(valid) ==> valid == ecdsa_accepts(sig_r(*sig), sig_s(*sig), digest@, *key),
{
    sig.verify(digest, key)
}

} // verus!

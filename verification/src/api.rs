//! The operations: key encodings with their canonical form enforced, secret
//! keys rebuilt from their parts, signing and verification.
//!
//! Each operation is a chain of steps through OpenSSL. Which error the
//! failure of a step means is decided in `steps`, by functions that take
//! what the step returned. An operation's own contract ties an error to its
//! cause as far as the cause can be told from the arguments: OpenSSL may
//! refuse any step for want of memory, so no argument is promised to pass.
use crate::backend::{bignum_context, bignum_from_slice, check_key, curve_group, describe};
use crate::backend::{bignum_value, decoded_point, ec_key_of, ecdsa_accepts, error_text};
use crate::backend::is_diagnostic;
use crate::backend::{ecdsa_sign, ecdsa_verify, generate_key, key_from_private_components};
use crate::backend::{key_from_public_point, pair_point_octets, parse_private_key, parse_spki};
use crate::backend::{pair_point_octets_of, parsed_private_key, private_key_readable, signs};
use crate::backend::{parsed_spki, passes_key_check, point_octets_of, private_der_of};
use crate::backend::{pkey_ec_key, point_from_bytes, private_key_der, public_key_der};
use crate::backend::{point_readable, spki_of_key, spki_readable};
use crate::backend::{private_key_of, public_key_of_point, sig_r, sig_s, signature_der};
use crate::backend::{public_point_octets, signature_from_components, signature_r_octets};
use crate::backend::{signature_s_octets, signature_to_der, MAX_INPUT_LEN};
use crate::codec::{be_value, field_limit, pack_components, r_part, s_part, unpack_components};
use crate::codec::{lemma_minimal_fits_iff_below_limit, lemma_pack_unpack_round_trip};
use crate::codec::{length_mismatch_text, packed};
use crate::octets::{copy_of, same_octets};
use crate::steps::{encoding_step, openssl_failure_text, public_key_step, scalar_step};
use crate::steps::{secret_key_step, setup_step, signature_step, signing_step};
use crate::steps::{lemma_diagnostics_are_not_length_texts, lemma_diagnostics_are_not_own_texts};
use crate::steps::{lemma_public_key_texts_differ, signing_failure_text};
use crate::steps::verification_step;
use crate::text::join3;
use crate::types::{is_uncompressed_point, CryptoError, CryptoResult, FIELD_SIZE};
use crate::types::{PkixAlgorithmIdentifier, PublicKeyBytes, SecretKeyBytes, SignatureBytes};
use openssl::bn::BigNum;
use openssl::ec::EcKey;
use openssl::ecdsa::EcdsaSig;
use openssl::error::ErrorStack;
use openssl::pkey::Private;
use vstd::math::abs;
use vstd::prelude::*;
use vstd::string::*;

verus! {

/// The identifier of ECDSA over secp256k1 in PKIX structures: the object
/// identifier of elliptic-curve public keys, 1.2.840.10045.2.1, and that of
/// the curve, 1.3.132.0.10.
pub fn algorithm_identifier() -> (id: PkixAlgorithmIdentifier)
    ensures
        id.oid@ == seq![1u64, 2, 840, 10045, 2, 1],
        id.curve@ == seq![1u64, 3, 132, 0, 10],
{
    let oid: Vec<u64> = vec![1, 2, 840, 10045, 2, 1];
    let curve: Vec<u64> = vec![1, 3, 132, 0, 10];
    assert(oid@ =~= seq![1u64, 2, 840, 10045, 2, 1]);
    assert(curve@ =~= seq![1u64, 3, 132, 0, 10]);
    PkixAlgorithmIdentifier { oid, curve }
}

/// Reports a failure of OpenSSL itself: the algorithm is not supported.
pub fn wrap_openssl_err(e: ErrorStack, err_msg: &str) -> (err: CryptoError)
    ensures
        err.is_not_supported(),
        err.text() == openssl_failure_text(err_msg@, error_text(e)),
        is_diagnostic(error_text(e)),
{
    let text = describe(&e);
    CryptoError::not_supported(join3(err_msg, ": OpenSSL failed with error ", text.as_str()))
}

/// The PKIX encoding of the point that `pk` encodes, in whichever form `pk`
/// gives it.
pub open spec fn canonical_der(pk: Seq<u8>) -> Seq<u8> {
    spki_of_key(public_key_of_point(decoded_point(pk)))
}

/// The point, in uncompressed form, of the key that `der` encodes.
pub open spec fn point_in_der(der: Seq<u8>) -> Seq<u8> {
    point_octets_of(ec_key_of(parsed_spki(der)))
}

/// `der` is the canonical encoding of the public key `pk`: `pk` is the
/// uncompressed point in `der`, and encoding `pk` gives `der` again, byte
/// for byte.
pub open spec fn is_canonical_der_of(der: Seq<u8>, pk: Seq<u8>) -> bool {
    &&& is_uncompressed_point(pk)
    &&& pk == point_in_der(der)
    &&& canonical_der(pk) == der
}

/// Encodes a public key as a PKIX `SubjectPublicKeyInfo` in DER.
///
/// The result is the canonical encoding of the point in `pk`. Bytes that
/// OpenSSL cannot read as a point never encode: unless the curve itself
/// cannot be set up, they are a malformed public key.
pub fn public_key_to_der(pk: &PublicKeyBytes) -> (out: CryptoResult<Vec<u8>>)
    ensures
        out matches Ok(der) ==> point_readable(pk@) && der@ == canonical_der(pk@),
        !point_readable(pk@) ==> (out matches Err(e) && (e.is_not_supported()
            || e.is_malformed_public_key(pk@))),
        out matches Err(e) ==> e.is_not_supported() || e.is_malformed_public_key(pk@),
{
    let group = setup_step(curve_group(), "unable to create EC group")?;
    let mut ctx = setup_step(bignum_context(), "unable to create BigNumContext")?;
    let key = pk.0.as_slice();
    let point = public_key_step(point_from_bytes(&group, key, &mut ctx), key)?;
    let ec_pk = public_key_step(key_from_public_point(&group, &point), key)?;
    public_key_step(public_key_der(&ec_pk), key)
}

/// Decides whether a decoded key is accepted: `point` is what was decoded
/// from `pk_der`, and `canon` is the encoding of `point`.
///
/// The key is accepted exactly when `point` has the uncompressed form and
/// `canon` is `pk_der`, byte for byte. Any other encoding of a valid key is
/// rejected as non-canonical, never put right.
pub fn accept_canonical(pk_der: &[u8], point: Vec<u8>, canon: &[u8]) -> (out: CryptoResult<
    PublicKeyBytes,
>)
    ensures
        is_uncompressed_point(point@) && canon@ == pk_der@ ==> (out matches Ok(pk) && pk@
            == point@),
        !(is_uncompressed_point(point@) && canon@ == pk_der@) ==> (out matches Err(e)
            && e.is_malformed_public_key(pk_der@) && e.text() == "non-canonical encoding"@),
{
    let pk = PublicKeyBytes(point);
    if !pk.has_uncompressed_form() || !same_octets(canon, pk_der) {
        let text = String::from_str("non-canonical encoding");
        return Err(CryptoError::malformed_public_key(pk_der, text));
    }
    Ok(pk)
}

/// Decides what becomes of a decoded key once its point was encoded again:
/// `point` is what was decoded from `pk_der`, and `encoded` is what encoding
/// `point` came to.
///
/// A point that does not encode is a malformed public key, with the text
/// "cannot encode decoded key", whatever the reason was. One that encodes
/// is accepted exactly as `accept_canonical` says.
pub fn accept_encoded(pk_der: &[u8], point: Vec<u8>, encoded: CryptoResult<Vec<u8>>) -> (out:
    CryptoResult<PublicKeyBytes>)
    ensures
        encoded is Err ==> (out matches Err(e) && e.is_malformed_public_key(pk_der@) && e.text()
            == "cannot encode decoded key"@),
        encoded matches Ok(canon) ==> {
            &&& is_uncompressed_point(point@) && canon@ == pk_der@ ==> (out matches Ok(pk)
                && pk@ == point@)
            &&& !(is_uncompressed_point(point@) && canon@ == pk_der@) ==> (out matches Err(e)
                && e.is_malformed_public_key(pk_der@) && e.text()
                == "non-canonical encoding"@)
        },
{
    match encoded {
        Ok(canon) => accept_canonical(pk_der, point, canon.as_slice()),
        Err(_) => {
            let text = String::from_str("cannot encode decoded key");
            Err(CryptoError::malformed_public_key(pk_der, text))
        },
    }
}

/// Decodes a public key from a PKIX `SubjectPublicKeyInfo` in DER.
///
/// Only the canonical encoding is accepted: the key that comes back is the
/// uncompressed point in `pk_der`, and encoding it gives `pk_der` again. An
/// encoding that OpenSSL can read but that differs from the canonical one,
/// such as one with a compressed point, is malformed, and so are bytes that
/// OpenSSL cannot read at all.
pub fn public_key_from_der(pk_der: &[u8]) -> (out: CryptoResult<PublicKeyBytes>)
    ensures
        out matches Ok(pk) ==> spki_readable(pk_der@) && is_canonical_der_of(pk_der@, pk@),
        canonical_der(point_in_der(pk_der@)) != pk_der@ ==> out is Err,
        !spki_readable(pk_der@) ==> (out matches Err(e) && e.is_malformed_public_key(pk_der@)
            && is_diagnostic(e.text())),
        out matches Err(e) ==> (e.is_not_supported() && spki_readable(pk_der@))
            || e.is_malformed_public_key(pk_der@),
        out matches Err(e) ==> (e.is_malformed_public_key(pk_der@) && e.text()
            == "non-canonical encoding"@ ==> spki_readable(pk_der@) && !is_canonical_der_of(
            pk_der@,
            point_in_der(pk_der@),
        )),
        out matches Err(e) ==> (e.is_malformed_public_key(pk_der@) && e.text()
            == "cannot encode decoded key"@ ==> spki_readable(pk_der@)),
{
    proof {
        lemma_public_key_texts_differ();
        lemma_diagnostics_are_not_own_texts();
    }
    let pkey = public_key_step(parse_spki(pk_der), pk_der)?;
    let ec_key = public_key_step(pkey_ec_key(&pkey), pk_der)?;
    let mut ctx = setup_step(bignum_context(), "unable to create BigNumContext")?;
    let group = setup_step(curve_group(), "unable to create EC group")?;
    let pk_bytes = public_key_step(public_point_octets(&ec_key, &group, &mut ctx), pk_der)?;
    let decoded = PublicKeyBytes(copy_of(pk_bytes.as_slice()));
    accept_encoded(pk_der, pk_bytes, public_key_to_der(&decoded))
}

/// An encoding from which a key was decoded is the encoding of that key:
/// decoding and encoding again gives the same bytes.
pub proof fn lemma_der_round_trip(der: Seq<u8>, pk: Seq<u8>)
    requires
        is_canonical_der_of(der, pk),
    ensures
        canonical_der(pk) == der,
        canonical_der(point_in_der(der)) == der,
{
}

/// An encoding that differs from the canonical encoding of its own point is
/// the canonical encoding of no key.
pub proof fn lemma_non_canonical_is_rejected(der: Seq<u8>, pk: Seq<u8>)
    requires
        canonical_der(point_in_der(der)) != der,
    ensures
        !is_canonical_der_of(der, pk),
{
}

/// The key pair that OpenSSL makes of the big-endian scalar `scalar` and of
/// the point that `pk` encodes.
pub open spec fn key_pair_of(scalar: Seq<u8>, pk: Seq<u8>) -> EcKey<Private> {
    private_key_of(be_value(scalar) as int, decoded_point(pk))
}

/// The scalar and the point belong together: the key pair made of them
/// passes OpenSSL's check of a key's validity.
pub open spec fn components_consistent(scalar: Seq<u8>, pk: Seq<u8>) -> bool {
    passes_key_check(key_pair_of(scalar, pk))
}

/// The DER encoding of the key pair made of `scalar` and `pk`.
pub open spec fn secret_key_encoding(scalar: Seq<u8>, pk: Seq<u8>) -> Seq<u8> {
    private_der_of(key_pair_of(scalar, pk))
}

/// Rebuilds a secret key from its scalar, given as an unsigned big-endian
/// number, and from the public key that belongs to it.
///
/// A secret key comes back only if the scalar and the point belong
/// together, and it holds the DER encoding of the pair. The encoding is
/// moved into the zeroizing container, so no copy of it is left behind.
/// Public key bytes that OpenSSL cannot read are reported as a malformed
/// public key, whatever the scalar is. A malformed secret key is reported
/// only once the public key was read: for a pair that OpenSSL refuses. That
/// error never carries what OpenSSL reported.
pub fn secret_key_from_components(sk_raw_bytes: &[u8], pk: &PublicKeyBytes) -> (out: CryptoResult<
    SecretKeyBytes,
>)
    requires
        sk_raw_bytes@.len() <= MAX_INPUT_LEN,
    ensures
        out matches Ok(sk) ==> {
            &&& point_readable(pk@)
            &&& components_consistent(sk_raw_bytes@, pk@)
            &&& sk@ == secret_key_encoding(sk_raw_bytes@, pk@)
        },
        !components_consistent(sk_raw_bytes@, pk@) ==> out is Err,
        !point_readable(pk@) ==> (out matches Err(e) && (e.is_not_supported()
            || e.is_malformed_public_key(pk@))),
        out matches Err(e) ==> e.is_not_supported() || e.is_malformed_public_key(pk@) || (
        e.is_malformed_secret_key() && e.text() == "OpenSSL error"@ && point_readable(pk@)),
{
    let group = setup_step(curve_group(), "unable to create EC group")?;
    let private_number = setup_step(
        bignum_from_slice(sk_raw_bytes),
        "unable to parse big integer",
    )?;
    let mut ctx = setup_step(bignum_context(), "unable to create BigNumContext")?;
    let key = pk.0.as_slice();
    let public_point = public_key_step(point_from_bytes(&group, key, &mut ctx), key)?;
    let ec_key = secret_key_step(
        key_from_private_components(&group, &private_number, &public_point),
    )?;
    secret_key_step(check_key(&ec_key))?;
    let sk_der = encoding_step(private_key_der(&ec_key))?;
    Ok(SecretKeyBytes::new(sk_der))
}

/// `sk` and `pk` are the two encodings of one key pair of OpenSSL.
pub open spec fn is_key_pair(sk: Seq<u8>, pk: Seq<u8>) -> bool {
    exists|key: EcKey<Private>| #[trigger]
        private_der_of(key) == sk && pair_point_octets_of(key) == pk
}

/// Makes a fresh key pair. Meant for tests: the library itself only
/// verifies and signs.
pub fn new_keypair() -> (out: CryptoResult<(SecretKeyBytes, PublicKeyBytes)>)
    ensures
        out matches Ok((sk, pk)) ==> is_key_pair(sk@, pk@),
        out matches Err(e) ==> e.is_not_supported(),
{
    let group = setup_step(curve_group(), "unable to create EC group")?;
    let ec_key = setup_step(generate_key(&group), "unable to generate EC key")?;
    let mut ctx = setup_step(bignum_context(), "unable to create BigNumContext")?;
    let sk = SecretKeyBytes::new(encoding_step(private_key_der(&ec_key))?);
    let pk_bytes = setup_step(
        pair_point_octets(&ec_key, &group, &mut ctx),
        "unable to serialize EC public key",
    )?;
    assert(private_der_of(ec_key) == sk@ && pair_point_octets_of(ec_key) == pk_bytes@);
    Ok((sk, PublicKeyBytes(pk_bytes)))
}

/// `e` says that a signature with a scalar too wide for the wire form could
/// not even be encoded for the report, and what OpenSSL reported.
pub open spec fn is_export_failure(e: CryptoError) -> bool {
    e.is_not_supported() && exists|d: Seq<char>|
        is_diagnostic(d) && e.text() == #[trigger] openssl_failure_text(
            "unable to export ECDSA sig to DER format"@,
            d,
        )
}

/// Writes a signature of OpenSSL in the wire form.
///
/// This succeeds exactly when the magnitudes of both scalars are below
/// `field_limit()`, and the halves of the result then spell the two
/// magnitudes. A wider scalar cannot come from a sound primitive; should one
/// come, the signature is malformed, and the error carries its DER
/// encoding.
pub fn secp256k1_sig_to_bytes(secp256k1_sig: EcdsaSig) -> (out: CryptoResult<SignatureBytes>)
    ensures
        out is Ok <==> abs(sig_r(secp256k1_sig)) < field_limit() && abs(sig_s(secp256k1_sig))
            < field_limit(),
        out matches Ok(sig) ==> {
            &&& sig.wf()
            &&& be_value(r_part(sig@)) == abs(sig_r(secp256k1_sig))
            &&& be_value(s_part(sig@)) == abs(sig_s(secp256k1_sig))
        },
        out matches Err(e) ==> is_export_failure(e) || (e.is_malformed_signature(
            signature_der(sig_r(secp256k1_sig), sig_s(secp256k1_sig)),
        ) && e.text() == "r or s is too long"@),
{
    let r = signature_r_octets(&secp256k1_sig);
    let s = signature_s_octets(&secp256k1_sig);
    proof {
        lemma_minimal_fits_iff_below_limit(r@);
        lemma_minimal_fits_iff_below_limit(s@);
    }
    match pack_components(r.as_slice(), s.as_slice()) {
        Some(sig) => Ok(sig),
        None => {
            let sig_bytes = setup_step(
                signature_to_der(&secp256k1_sig),
                "unable to export ECDSA sig to DER format",
            )?;
            Err(
                CryptoError::malformed_signature(
                    sig_bytes.as_slice(),
                    String::from_str("r or s is too long"),
                ),
            )
        },
    }
}

/// `e` says that OpenSSL refused to sign, and what it reported.
pub open spec fn is_signing_refusal(e: CryptoError) -> bool {
    e.is_invalid_argument() && exists|d: Seq<char>|
        is_diagnostic(d) && e.text() == #[trigger] signing_failure_text(d)
}

/// `e` says that OpenSSL made, for `msg` and under the key pair that `sk`
/// encodes, a signature with a scalar too wide for the wire form, and `e`
/// carries the DER encoding of that signature.
pub open spec fn is_too_wide_signature_of(e: CryptoError, msg: Seq<u8>, sk: Seq<u8>) -> bool {
    e.text() == "r or s is too long"@ && exists|r: int, s: int|
        {
            &&& e.is_malformed_signature(#[trigger] signature_der(r, s))
            &&& signs(abs(r), abs(s), msg, parsed_private_key(sk))
            &&& !(abs(r) < field_limit() && abs(s) < field_limit())
        }
}

/// The wire-form signature `sig` spells two scalars that OpenSSL made as a
/// signature of `msg` under the key pair that `sk` encodes.
pub open spec fn is_signature_of(sig: Seq<u8>, msg: Seq<u8>, sk: Seq<u8>) -> bool {
    signs(be_value(r_part(sig)), be_value(s_part(sig)), msg, parsed_private_key(sk))
}

/// Signs `msg` with a secret key.
///
/// A signature that comes back has the wire form, and its halves spell the
/// scalars that OpenSSL made for `msg` under the key pair in `sk`. OpenSSL
/// picks the nonce, so the bytes differ from call to call. A secret key
/// that OpenSSL cannot read gives one error and no other: a malformed
/// secret key, with OpenSSL's words kept back. A refusal to sign is an
/// invalid argument.
pub fn sign(msg: &[u8], sk: &SecretKeyBytes) -> (out: CryptoResult<SignatureBytes>)
    requires
        msg@.len() <= MAX_INPUT_LEN,
    ensures
        out matches Ok(sig) ==> {
            &&& sig.wf()
            &&& private_key_readable(sk@)
            &&& is_signature_of(sig@, msg@, sk@)
        },
        !private_key_readable(sk@) ==> (out matches Err(e) && e.is_malformed_secret_key()
            && e.text() == "OpenSSL error"@),
        out matches Err(e) ==> {
            ||| e.is_malformed_secret_key() && e.text() == "OpenSSL error"@
            ||| is_signing_refusal(e) && private_key_readable(sk@)
            ||| is_export_failure(e) && private_key_readable(sk@)
            ||| is_too_wide_signature_of(e, msg@, sk@) && private_key_readable(sk@)
        },
{
    let signing_key = secret_key_step(parse_private_key(sk.expose_secret()))?;
    let secp256k1_sig = signing_step(ecdsa_sign(msg, &signing_key))?;
    secp256k1_sig_to_bytes(secp256k1_sig)
}

/// The text of `e` says that OpenSSL could not take one half of a signature
/// for a number, and what OpenSSL reported.
pub open spec fn is_scalar_refusal(e: CryptoError) -> bool {
    exists|d: Seq<char>|
        is_diagnostic(d) && (e.text() == #[trigger] ("Error parsing r: "@ + d) || e.text()
            == "Error parsing s: "@ + d)
}

/// Reads the two scalars of a wire-form signature.
///
/// A signature of any length but `SignatureBytes::SIZE` is malformed, and
/// the error says which length was expected and which was found; no
/// signature of the right length is answered with that text. The two
/// numbers that come back are what the halves of the signature spell.
pub fn r_s_from_sig_bytes(sig_bytes: &SignatureBytes) -> (out: CryptoResult<(BigNum, BigNum)>)
    ensures
        !sig_bytes.wf() ==> out is Err,
        out matches Ok((r, s)) ==> {
            &&& sig_bytes.wf()
            &&& bignum_value(r) == be_value(r_part(sig_bytes@))
            &&& bignum_value(s) == be_value(s_part(sig_bytes@))
        },
        out matches Err(e) ==> {
            &&& e.is_malformed_signature(sig_bytes@)
            &&& e.text() == length_mismatch_text(sig_bytes@.len()) <==> !sig_bytes.wf()
            &&& sig_bytes.wf() ==> is_scalar_refusal(e)
        },
{
    proof {
        lemma_diagnostics_are_not_length_texts(sig_bytes@.len());
    }
    let (r_octets, s_octets) = unpack_components(sig_bytes)?;
    let sig = sig_bytes.0.as_slice();
    let r = scalar_step(bignum_from_slice(r_octets.as_slice()), sig, "Error parsing r: ")?;
    let s = scalar_step(bignum_from_slice(s_octets.as_slice()), sig, "Error parsing s: ")?;
    Ok((r, s))
}

/// Whether OpenSSL accepts the wire-form signature `sig` for `msg` under
/// the public key `pk`.
pub open spec fn signature_accepted(sig: Seq<u8>, msg: Seq<u8>, pk: Seq<u8>) -> bool {
    ecdsa_accepts(
        be_value(r_part(sig)) as int,
        be_value(s_part(sig)) as int,
        msg,
        public_key_of_point(decoded_point(pk)),
    )
}

/// Verifies a wire-form signature of `msg` under a public key.
///
/// Success means that the signature has the right length and that OpenSSL
/// accepts its two scalars for `msg` under the point in `pk`. The public
/// key may be in any form that OpenSSL reads as a point; bytes that it
/// cannot read are never reported as a failed verification. A signature
/// that OpenSSL rejects and one that it cannot judge fail alike, with
/// `SignatureVerification`.
pub fn verify(sig: &SignatureBytes, msg: &[u8], pk: &PublicKeyBytes) -> (out: CryptoResult<()>)
    requires
        msg@.len() <= MAX_INPUT_LEN,
    ensures
        out is Ok ==> sig.wf() && point_readable(pk@) && signature_accepted(sig@, msg@, pk@),
        !sig.wf() ==> (out matches Err(e) && e.is_malformed_signature(sig@) && e.text()
            == length_mismatch_text(sig@.len())),
        out matches Err(e) ==> (e.is_malformed_signature(sig@) && e.text()
            == length_mismatch_text(sig@.len()) ==> !sig.wf()),
        !point_readable(pk@) ==> (out matches Err(e) && (e.is_malformed_signature(sig@)
            || e.is_not_supported() || e.is_malformed_public_key(pk@))),
        out matches Err(e) ==> {
            ||| e.is_malformed_signature(sig@)
            ||| e.is_not_supported() && sig.wf()
            ||| e.is_malformed_public_key(pk@) && sig.wf()
            ||| e.is_verification_failure(pk@, sig@) && sig.wf() && point_readable(pk@)
        },
        out matches Err(e) ==> (e.is_verification_failure(pk@, sig@) && e.text()
            == "verification failed"@ ==> sig.wf() && point_readable(pk@) && !signature_accepted(
            sig@,
            msg@,
            pk@,
        )),
{
    proof {
        lemma_diagnostics_are_not_own_texts();
        lemma_diagnostics_are_not_length_texts(sig@.len());
    }
    let (r, s) = r_s_from_sig_bytes(sig)?;
    let secp256k1_sig = signature_step(signature_from_components(r, s), sig.0.as_slice())?;
    let group = setup_step(curve_group(), "unable to create EC group")?;
    let mut ctx = setup_step(bignum_context(), "unable to create BigNumContext")?;
    let key = pk.0.as_slice();
    let point = public_key_step(point_from_bytes(&group, key, &mut ctx), key)?;
    let ec_pk = public_key_step(key_from_public_point(&group, &point), key)?;
    verification_step(ecdsa_verify(&secp256k1_sig, msg, &ec_pk), sig, pk)
}

/// Verification judges the very numbers that were packed: a signature in
/// the wire form of `(r, s)` is accepted exactly when OpenSSL accepts the
/// numbers that `r` and `s` spell.
pub proof fn lemma_verify_judges_packed_scalars(
    r: Seq<u8>,
    s: Seq<u8>,
    msg: Seq<u8>,
    pk: Seq<u8>,
)
    requires
        r.len() <= FIELD_SIZE,
        s.len() <= FIELD_SIZE,
    ensures
        signature_accepted(packed(r, s), msg, pk) == ecdsa_accepts(
            be_value(r) as int,
            be_value(s) as int,
            msg,
            public_key_of_point(decoded_point(pk)),
        ),
{
    lemma_pack_unpack_round_trip(r, s);
}

} // verus!

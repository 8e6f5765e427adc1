//! What the failure of each step means. An operation is a chain of steps
//! through OpenSSL; each function here takes what one step returned and
//! says, for every value of it, how the operation goes on: with the step's
//! result, or with the one error that stands for this cause.
use crate::api::wrap_openssl_err;
use crate::backend::{describe, error_text, is_diagnostic};
use crate::codec::length_mismatch_text;
use crate::types::{CryptoError, CryptoResult, PublicKeyBytes, SignatureBytes};
use openssl::bn::BigNum;
use openssl::ecdsa::EcdsaSig;
use openssl::error::ErrorStack;
use vstd::prelude::*;
use vstd::string::*;

verus! {

/// The text of an error that OpenSSL caused while the library was doing
/// `what`.
pub open spec fn openssl_failure_text(what: Seq<char>, error: Seq<char>) -> Seq<char> {
    what + ": OpenSSL failed with error "@ + error
}

/// The text of the error for a key pair that OpenSSL could not encode.
pub open spec fn encoding_failure_text(error: Seq<char>) -> Seq<char> {
    "OpenSSL failed with error "@ + error
}

/// The text of the error for a signing that OpenSSL refused.
pub open spec fn signing_failure_text(error: Seq<char>) -> Seq<char> {
    "ECDSA signing failed with error "@ + error
}

/// The library's own texts for a key or a signature that it rejects itself.
pub open spec fn is_own_text(text: Seq<char>) -> bool {
    ||| text == "non-canonical encoding"@
    ||| text == "cannot encode decoded key"@
    ||| text == "verification failed"@
    ||| text == "r or s is too long"@
}

/// What OpenSSL reports is never mistaken for one of the library's own
/// texts: the two differ in their first letter.
pub proof fn lemma_diagnostic_is_not_own_text(text: Seq<char>)
    requires
        is_diagnostic(text),
    ensures
        !is_own_text(text),
{
    reveal_strlit("OpenSSL error");
    reveal_strlit("error:");
    reveal_strlit("non-canonical encoding");
    reveal_strlit("cannot encode decoded key");
    reveal_strlit("verification failed");
    reveal_strlit("r or s is too long");
    if text != "OpenSSL error"@ {
        assert(text.subrange(0, 6)[0] == 'e');
    }
    assert(text[0] == 'O' || text[0] == 'e');
}

/// No text that OpenSSL reports is one of the library's own texts.
pub proof fn lemma_diagnostics_are_not_own_texts()
    ensures
        forall|text: Seq<char>| #[trigger] is_diagnostic(text) ==> !is_own_text(text),
{
    assert forall|text: Seq<char>| #[trigger] is_diagnostic(text) implies !is_own_text(text) by {
        lemma_diagnostic_is_not_own_text(text);
    }
}

/// The text for a signature of the wrong length is no text that OpenSSL
/// reports, and no text for a half that is no number: it differs from them
/// within its first two letters.
pub proof fn lemma_diagnostics_are_not_length_texts(len: nat)
    ensures
        forall|text: Seq<char>| #[trigger]
            is_diagnostic(text) ==> {
                &&& text != length_mismatch_text(len)
                &&& "Error parsing r: "@ + text != length_mismatch_text(len)
                &&& "Error parsing s: "@ + text != length_mismatch_text(len)
            },
{
    reveal_strlit("OpenSSL error");
    reveal_strlit("error:");
    reveal_strlit("Expected ");
    reveal_strlit("Error parsing r: ");
    reveal_strlit("Error parsing s: ");
    let length_text = length_mismatch_text(len);
    assert(length_text[0] == 'E' && length_text[1] == 'x');
    assert forall|text: Seq<char>| #[trigger] is_diagnostic(text) implies {
        &&& text != length_text
        &&& "Error parsing r: "@ + text != length_text
        &&& "Error parsing s: "@ + text != length_text
    } by {
        if text != "OpenSSL error"@ {
            assert(text.subrange(0, 6)[0] == 'e');
        }
        assert(text[0] == 'O' || text[0] == 'e');
        assert(("Error parsing r: "@ + text)[1] == 'r');
        assert(("Error parsing s: "@ + text)[1] == 'r');
    }
}

/// The two texts for a public key that the library rejects itself differ.
pub proof fn lemma_public_key_texts_differ()
    ensures
        "non-canonical encoding"@ != "cannot encode decoded key"@,
{
    reveal_strlit("non-canonical encoding");
    reveal_strlit("cannot encode decoded key");
    assert("non-canonical encoding"@[0] != "cannot encode decoded key"@[0]);
}

/// A part of the primitive that cannot be set up, such as the curve or a
/// scratch context: the algorithm is not supported, and the text says what
/// the library was doing and what OpenSSL reported.
pub fn setup_step<T>(outcome: Result<T, ErrorStack>, what: &str) -> (out: CryptoResult<T>)
    ensures
        outcome matches Ok(made) ==> out == Ok::<T, CryptoError>(made),
        outcome matches Err(e) ==> (out matches Err(err) && err.is_not_supported() && err.text()
            == openssl_failure_text(what@, error_text(e)) && is_diagnostic(error_text(e))),
{
    match outcome {
        Ok(made) => Ok(made),
        Err(e) => Err(wrap_openssl_err(e, what)),
    }
}

/// A key pair that OpenSSL cannot encode: the algorithm is not supported.
pub fn encoding_step(outcome: Result<Vec<u8>, ErrorStack>) -> (out: CryptoResult<Vec<u8>>)
    ensures
        outcome matches Ok(der) ==> out == Ok::<Vec<u8>, CryptoError>(der),
        outcome matches Err(e) ==> (out matches Err(err) && err.is_not_supported() && err.text()
            == encoding_failure_text(error_text(e))),
{
    match outcome {
        Ok(der) => Ok(der),
        Err(e) => {
            let text = describe(&e);
            Err(
                CryptoError::not_supported(
                    String::from_str("OpenSSL failed with error ").concat(text.as_str()),
                ),
            )
        },
    }
}

/// Public key bytes that OpenSSL refuses: the public key is malformed, and
/// the error carries the bytes and what OpenSSL reported.
pub fn public_key_step<T>(outcome: Result<T, ErrorStack>, key: &[u8]) -> (out: CryptoResult<T>)
    ensures
        outcome matches Ok(read) ==> out == Ok::<T, CryptoError>(read),
        outcome matches Err(e) ==> (out matches Err(err) && err.is_malformed_public_key(key@)
            && err.text() == error_text(e) && is_diagnostic(err.text())),
{
    match outcome {
        Ok(read) => Ok(read),
        Err(e) => Err(CryptoError::malformed_public_key(key, describe(&e))),
    }
}

/// A secret key that OpenSSL refuses, because it does not decode or because
/// scalar and point do not belong together: the secret key is malformed.
/// What OpenSSL reported is dropped, so the error is the same for every
/// secret key and says nothing about it.
pub fn secret_key_step<T>(outcome: Result<T, ErrorStack>) -> (out: CryptoResult<T>)
    ensures
        outcome matches Ok(read) ==> out == Ok::<T, CryptoError>(read),
        outcome is Err ==> (out matches Err(err) && err.is_malformed_secret_key() && err.text()
            == "OpenSSL error"@),
{
    match outcome {
        Ok(read) => Ok(read),
        Err(_) => Err(CryptoError::malformed_secret_key()),
    }
}

/// A signing that OpenSSL refuses: an invalid argument, with what OpenSSL
/// reported.
pub fn signing_step(outcome: Result<EcdsaSig, ErrorStack>) -> (out: CryptoResult<EcdsaSig>)
    ensures
        outcome matches Ok(sig) ==> out == Ok::<EcdsaSig, CryptoError>(sig),
        outcome matches Err(e) ==> (out matches Err(err) && err.is_invalid_argument()
            && err.text() == signing_failure_text(error_text(e)) && is_diagnostic(
            error_text(e),
        )),
{
    match outcome {
        Ok(sig) => Ok(sig),
        Err(e) => {
            let text = describe(&e);
            Err(
                CryptoError::invalid_argument(
                    String::from_str("ECDSA signing failed with error ").concat(text.as_str()),
                ),
            )
        },
    }
}

/// A half of a signature that OpenSSL cannot take for a number: the
/// signature is malformed, and the text starts with `what`, which names the
/// half.
pub fn scalar_step(outcome: Result<BigNum, ErrorStack>, sig: &[u8], what: &str) -> (out:
    CryptoResult<BigNum>)
    ensures
        outcome matches Ok(n) ==> out == Ok::<BigNum, CryptoError>(n),
        outcome matches Err(e) ==> (out matches Err(err) && err.is_malformed_signature(sig@)
            && err.text() == what@ + error_text(e) && is_diagnostic(error_text(e))),
{
    match outcome {
        Ok(n) => Ok(n),
        Err(e) => {
            let text = String::from_str(what).concat(describe(&e).as_str());
            Err(CryptoError::malformed_signature(sig, text))
        },
    }
}

/// Two scalars that OpenSSL cannot take for a signature: the signature is
/// malformed, and the error carries what OpenSSL reported.
pub fn signature_step(outcome: Result<EcdsaSig, ErrorStack>, sig: &[u8]) -> (out: CryptoResult<
    EcdsaSig,
>)
    ensures
        outcome matches Ok(made) ==> out == Ok::<EcdsaSig, CryptoError>(made),
        outcome matches Err(e) ==> (out matches Err(err) && err.is_malformed_signature(sig@)
            && err.text() == error_text(e) && is_diagnostic(err.text())),
{
    match outcome {
        Ok(made) => Ok(made),
        Err(e) => Err(CryptoError::malformed_signature(sig, describe(&e))),
    }
}

/// Turns the primitive's verdict into the result of a verification: a valid
/// signature verifies, and an invalid one fails with the text
/// "verification failed" and the key and the signature that were tried.
pub fn verdict(valid: bool, sig: &SignatureBytes, pk: &PublicKeyBytes) -> (out: CryptoResult<()>)
    ensures
        valid ==> out is Ok,
        !valid ==> (out matches Err(e) && e.is_verification_failure(pk@, sig@) && e.text()
            == "verification failed"@),
{
    if valid {
        Ok(())
    } else {
        Err(
            CryptoError::verification_failure(
                pk.0.as_slice(),
                sig.0.as_slice(),
                String::from_str("verification failed"),
            ),
        )
    }
}

/// The last step of a verification. A signature that the primitive accepts
/// verifies. One that it rejects and one that it cannot judge both fail
/// with `SignatureVerification`; the text is "verification failed" for the
/// first and what OpenSSL reported for the second.
pub fn verification_step(
    outcome: Result<bool, ErrorStack>,
    sig: &SignatureBytes,
    pk: &PublicKeyBytes,
) -> (out: CryptoResult<()>)
    ensures
        outcome matches Ok(valid) ==> (valid ==> out is Ok) && (!valid ==> (out matches Err(err)
            && err.is_verification_failure(pk@, sig@) && err.text() == "verification failed"@)),
        outcome matches Err(e) ==> (out matches Err(err) && err.is_verification_failure(
            pk@,
            sig@,
        ) && err.text() == error_text(e) && is_diagnostic(err.text())),
{
    match outcome {
        Ok(valid) => verdict(valid, sig, pk),
        Err(e) => Err(
            CryptoError::verification_failure(pk.0.as_slice(), sig.0.as_slice(), describe(&e)),
        ),
    }
}

} // verus!

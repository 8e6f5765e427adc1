//! Byte containers for keys and signatures, and the error taxonomy.
use crate::octets::copy_of;
use vstd::prelude::*;
use vstd::string::*;
use zeroize::Zeroizing;

verus! {

/// Width in bytes of one field element or scalar of secp256k1.
pub const FIELD_SIZE: usize = 32;

/// First byte of an uncompressed point encoding.
pub const UNCOMPRESSED_MARKER: u8 = 4;

/// Identifies the algorithm that an error belongs to.
#[derive(Clone, Copy, Debug, PartialEq, Eq, Structural)]
pub enum AlgorithmId {
    EcdsaSecp256k1,
}

/// Everything that an operation of this library can fail with.
#[derive(Clone, Debug, PartialEq, Eq)]
pub enum CryptoError {
    /// The curve primitive could not be set up.
    AlgorithmNotSupported { algorithm: AlgorithmId, reason: String },
    /// The bytes are not a point of the curve, or not its canonical encoding.
    MalformedPublicKey {
        algorithm: AlgorithmId,
        key_bytes: Option<Vec<u8>>,
        internal_error: String,
    },
    /// The secret key cannot be decoded or does not belong to the public key.
    /// The text never depends on the secret.
    MalformedSecretKey { algorithm: AlgorithmId, internal_error: String },
    /// The signature has the wrong length or a component wider than the field.
    MalformedSignature { algorithm: AlgorithmId, sig_bytes: Vec<u8>, internal_error: String },
    /// The signing primitive rejected the request.
    InvalidArgument { message: String },
    /// The signature does not verify, for whatever reason.
    SignatureVerification {
        algorithm: AlgorithmId,
        public_key_bytes: Vec<u8>,
        sig_bytes: Vec<u8>,
        internal_error: String,
    },
}

pub type CryptoResult<T> = Result<T, CryptoError>;

impl CryptoError {
    /// The text that the error carries.
    pub open spec fn text(self) -> Seq<char> {
        match self {
            CryptoError::AlgorithmNotSupported { reason, .. } => reason@,
            CryptoError::MalformedPublicKey { internal_error, .. } => internal_error@,
            CryptoError::MalformedSecretKey { internal_error, .. } => internal_error@,
            CryptoError::MalformedSignature { internal_error, .. } => internal_error@,
            CryptoError::InvalidArgument { message } => message@,
            CryptoError::SignatureVerification { internal_error, .. } => internal_error@,
        }
    }

    /// `AlgorithmNotSupported`, for this algorithm.
    pub open spec fn is_not_supported(self) -> bool {
        self matches CryptoError::AlgorithmNotSupported { algorithm, .. } && algorithm
            == AlgorithmId::EcdsaSecp256k1
    }

    /// `MalformedPublicKey`, for this algorithm and carrying `key`.
    pub open spec fn is_malformed_public_key(self, key: Seq<u8>) -> bool {
        self matches CryptoError::MalformedPublicKey { algorithm, key_bytes, .. } && algorithm
            == AlgorithmId::EcdsaSecp256k1 && (key_bytes matches Some(k) && k@ == key)
    }

    /// `MalformedSecretKey`, for this algorithm.
    pub open spec fn is_malformed_secret_key(self) -> bool {
        self matches CryptoError::MalformedSecretKey { algorithm, .. } && algorithm
            == AlgorithmId::EcdsaSecp256k1
    }

    /// `MalformedSignature`, for this algorithm and carrying `sig`.
    pub open spec fn is_malformed_signature(self, sig: Seq<u8>) -> bool {
        self matches CryptoError::MalformedSignature { algorithm, sig_bytes, .. } && algorithm
            == AlgorithmId::EcdsaSecp256k1 && sig_bytes@ == sig
    }

    /// `InvalidArgument`.
    pub open spec fn is_invalid_argument(self) -> bool {
        self is InvalidArgument
    }

    /// `SignatureVerification`, for this algorithm and carrying `key` and
    /// `sig`.
    pub open spec fn is_verification_failure(self, key: Seq<u8>, sig: Seq<u8>) -> bool {
        self matches CryptoError::SignatureVerification {
            algorithm,
            public_key_bytes,
            sig_bytes,
            ..
        } && algorithm == AlgorithmId::EcdsaSecp256k1 && public_key_bytes@ == key && sig_bytes@
            == sig
    }

    /// The error for an algorithm that cannot be set up.
    pub fn not_supported(reason: String) -> (err: CryptoError)
        ensures
            err.is_not_supported(),
            err.text() == reason@,
    {
        CryptoError::AlgorithmNotSupported { algorithm: AlgorithmId::EcdsaSecp256k1, reason }
    }

    /// The error for a public key that is no point of the curve or is not
    /// in canonical form. It carries a copy of the key.
    pub fn malformed_public_key(key: &[u8], internal_error: String) -> (err: CryptoError)
        ensures
            err.is_malformed_public_key(key@),
            err.text() == internal_error@,
    {
        CryptoError::MalformedPublicKey {
            algorithm: AlgorithmId::EcdsaSecp256k1,
            key_bytes: Some(copy_of(key)),
            internal_error,
        }
    }

    /// The error for a secret key that does not decode or does not belong
    /// to its public key. The text is always the same, so that it says
    /// nothing about the secret.
    pub fn malformed_secret_key() -> (err: CryptoError)
        ensures
            err.is_malformed_secret_key(),
            err.text() == "OpenSSL error"@,
    {
        CryptoError::MalformedSecretKey {
            algorithm: AlgorithmId::EcdsaSecp256k1,
            internal_error: String::from_str("OpenSSL error"),
        }
    }

    /// The error for a signature of the wrong length or with a scalar that
    /// is too wide. It carries a copy of the signature.
    pub fn malformed_signature(sig: &[u8], internal_error: String) -> (err: CryptoError)
        ensures
            err.is_malformed_signature(sig@),
            err.text() == internal_error@,
    {
        CryptoError::MalformedSignature {
            algorithm: AlgorithmId::EcdsaSecp256k1,
            sig_bytes: copy_of(sig),
            internal_error,
        }
    }

    /// The error for a request that the signing primitive refused.
    pub fn invalid_argument(message: String) -> (err: CryptoError)
        ensures
            err.is_invalid_argument(),
            err.text() == message@,
    {
        CryptoError::InvalidArgument { message }
    }

    /// The error for a signature that does not verify. It carries copies
    /// of the key and of the signature.
    pub fn verification_failure(key: &[u8], sig: &[u8], internal_error: String) -> (err:
        CryptoError)
        ensures
            err.is_verification_failure(key@, sig@),
            err.text() == internal_error@,
    {
        CryptoError::SignatureVerification {
            algorithm: AlgorithmId::EcdsaSecp256k1,
            public_key_bytes: copy_of(key),
            sig_bytes: copy_of(sig),
            internal_error,
        }
    }
}

/// An algorithm as PKIX structures name it: the object identifier of the key
/// type and that of the curve, each as its list of arcs.
#[derive(Clone, Debug, PartialEq, Eq)]
pub struct PkixAlgorithmIdentifier {
    pub oid: Vec<u64>,
    pub curve: Vec<u64>,
}

/// A point of the curve in uncompressed form: the marker byte, then the two
/// coordinates, each `FIELD_SIZE` bytes wide.
#[derive(Clone, Debug, PartialEq, Eq)]
pub struct PublicKeyBytes(pub Vec<u8>);

impl View for PublicKeyBytes {
    type V = Seq<u8>;

    open spec fn view(&self) -> Seq<u8> {
        self.0@
    }
}

/// Whether `octets` has the length and the marker of an uncompressed point.
pub open spec fn is_uncompressed_point(octets: Seq<u8>) -> bool {
    octets.len() == 2 * FIELD_SIZE + 1 && octets[0] == UNCOMPRESSED_MARKER
}

impl PublicKeyBytes {
    /// Length in bytes of a well-formed public key.
    pub const SIZE: usize = 65;

    /// Length and marker are those of an uncompressed point. Whether the
    /// coordinates lie on the curve is for the operations to decide.
    pub open spec fn wf(&self) -> bool {
        is_uncompressed_point(self@)
    }

    /// Runtime test of `wf`.
    pub fn has_uncompressed_form(&self) -> (ok: bool)
        ensures
            ok == self.wf(),
    {
        self.0.len() == PublicKeyBytes::SIZE && self.0[0] == UNCOMPRESSED_MARKER
    }
}

impl From<Vec<u8>> for PublicKeyBytes {
    fn from(octets: Vec<u8>) -> (pk: PublicKeyBytes)
    {
        PublicKeyBytes(octets)
    }
}

impl vstd::std_specs::convert::FromSpecImpl<Vec<u8>> for PublicKeyBytes {
    open spec fn obeys_from_spec() -> bool {
        true
    }

    open spec fn from_spec(octets: Vec<u8>) -> PublicKeyBytes {
        PublicKeyBytes(octets)
    }
}

/// The two scalars of a signature, each big-endian and left-padded with
/// zeros to `FIELD_SIZE` bytes, one after the other.
#[derive(Clone, Debug, PartialEq, Eq)]
pub struct SignatureBytes(pub Vec<u8>);

impl View for SignatureBytes {
    type V = Seq<u8>;

    open spec fn view(&self) -> Seq<u8> {
        self.0@
    }
}

impl SignatureBytes {
    /// Length in bytes of a well-formed signature.
    pub const SIZE: usize = 64;

    pub open spec fn wf(&self) -> bool {
        self@.len() == 2 * FIELD_SIZE
    }
}

/// A secret key in its DER encoding. The bytes are overwritten with zeros
/// when the value is dropped, on whatever path that happens, and the type
/// has no printable form.
#[verifier::external_body]
pub struct SecretKeyBytes {
    der: Zeroizing<Vec<u8>>,
}

/// The bytes that a secret key holds.
pub uninterp spec fn sealed_octets(sk: SecretKeyBytes) -> Seq<u8>;

/// `Zeroizing::new`: moves the vector into a container that overwrites it
/// with zeros when it is dropped. The container holds the vector's bytes.
#[verifier::external_body]
fn seal(octets: Vec<u8>) -> (sk: SecretKeyBytes)
    ensures
        sealed_octets(sk) == octets@,
{
    SecretKeyBytes { der: Zeroizing::new(octets) }
}

/// `Deref` of `Zeroizing`: a borrow of the bytes that the container holds.
#[verifier::external_body]
fn unseal(sk: &SecretKeyBytes) -> (octets: &[u8])
    ensures
        octets@ == sealed_octets(*sk),
{
    &sk.der
}

impl View for SecretKeyBytes {
    type V = Seq<u8>;

    open spec fn view(&self) -> Seq<u8> {
        sealed_octets(*self)
    }
}

impl SecretKeyBytes {
    /// Takes over an encoded secret key. The vector is moved, not copied, so
    /// no second copy of the secret stays behind.
    pub fn new(der: Vec<u8>) -> (sk: SecretKeyBytes)
        ensures
            sk@ == der@,
    {
        seal(der)
    }

    /// The encoded secret key, for as long as the borrow lasts.
    pub fn expose_secret(&self) -> (der: &[u8])
        ensures
            der@ == self@,
    {
        unseal(self)
    }
}

} // verus!

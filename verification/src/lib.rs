//! ECDSA over secp256k1: canonical key encodings, fixed-width signatures,
//! signing and verification on top of OpenSSL.
pub mod api;
pub mod backend;
pub mod codec;
pub mod octets;
pub mod steps;
pub mod text;
pub mod types;

pub use api::{algorithm_identifier, new_keypair, public_key_from_der, public_key_to_der};
pub use api::{secret_key_from_components, sign, verify};

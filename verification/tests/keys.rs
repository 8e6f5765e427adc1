use ecdsa_secp256k1::api::{
    accept_canonical, accept_encoded, algorithm_identifier, new_keypair, public_key_from_der,
    public_key_to_der, secret_key_from_components, wrap_openssl_err,
};
use ecdsa_secp256k1::steps::{encoding_step, public_key_step, secret_key_step, setup_step};
use ecdsa_secp256k1::types::{AlgorithmId, CryptoError, PublicKeyBytes, SecretKeyBytes};
use openssl::bn::{BigNum, BigNumContext};
use openssl::ec::{EcGroup, EcKey, EcPoint, PointConversionForm};
use openssl::error::ErrorStack;
use openssl::nid::Nid;

const GENERATOR_X: [u8; 32] = [
    0x79, 0xbe, 0x66, 0x7e, 0xf9, 0xdc, 0xbb, 0xac, 0x55, 0xa0, 0x62, 0x95, 0xce, 0x87, 0x0b, 0x07,
    0x02, 0x9b, 0xfc, 0xdb, 0x2d, 0xce, 0x28, 0xd9, 0x59, 0xf2, 0x81, 0x5b, 0x16, 0xf8, 0x17, 0x98,
];

const GENERATOR_Y: [u8; 32] = [
    0x48, 0x3a, 0xda, 0x77, 0x26, 0xa3, 0xc4, 0x65, 0x5d, 0xa4, 0xfb, 0xfc, 0x0e, 0x11, 0x08, 0xa8,
    0xfd, 0x17, 0xb4, 0x48, 0xa6, 0x85, 0x54, 0x19, 0x9c, 0x47, 0xd0, 0x8f, 0xfb, 0x10, 0xd4, 0xb8,
];

const SPKI_PREFIX_UNCOMPRESSED: [u8; 23] = [
    0x30, 0x56, 0x30, 0x10, 0x06, 0x07, 0x2a, 0x86, 0x48, 0xce, 0x3d, 0x02, 0x01, 0x06, 0x05, 0x2b,
    0x81, 0x04, 0x00, 0x0a, 0x03, 0x42, 0x00,
];

const SPKI_PREFIX_COMPRESSED: [u8; 23] = [
    0x30, 0x36, 0x30, 0x10, 0x06, 0x07, 0x2a, 0x86, 0x48, 0xce, 0x3d, 0x02, 0x01, 0x06, 0x05, 0x2b,
    0x81, 0x04, 0x00, 0x0a, 0x03, 0x22, 0x00,
];

fn generator() -> PublicKeyBytes {
    let mut octets = vec![0x04u8];
    octets.extend_from_slice(&GENERATOR_X);
    octets.extend_from_slice(&GENERATOR_Y);
    PublicKeyBytes(octets)
}

fn generator_compressed() -> Vec<u8> {
    // The generator's y coordinate is even.
    let mut octets = vec![0x02u8];
    octets.extend_from_slice(&GENERATOR_X);
    octets
}

fn generator_der() -> Vec<u8> {
    let mut der = SPKI_PREFIX_UNCOMPRESSED.to_vec();
    der.extend_from_slice(&generator().0);
    der
}

fn multiple_of_generator(scalar: &[u8]) -> PublicKeyBytes {
    let group = EcGroup::from_curve_name(Nid::SECP256K1).unwrap();
    let mut ctx = BigNumContext::new().unwrap();
    let n = BigNum::from_slice(scalar).unwrap();
    let mut point = EcPoint::new(&group).unwrap();
    point.mul_generator(&group, &n, &ctx).unwrap();
    PublicKeyBytes(
        point
            .to_bytes(&group, PointConversionForm::UNCOMPRESSED, &mut ctx)
            .unwrap(),
    )
}

#[test]
fn algorithm_identifier_names_ec_keys_on_secp256k1() {
    let id = algorithm_identifier();
    assert_eq!(id.oid, vec![1, 2, 840, 10045, 2, 1]);
    assert_eq!(id.curve, vec![1, 3, 132, 0, 10]);
}

#[test]
fn wrap_openssl_err_reports_an_unsupported_algorithm() {
    let err = wrap_openssl_err(ErrorStack::get(), "unable to create EC group");
    assert_eq!(
        err,
        CryptoError::AlgorithmNotSupported {
            algorithm: AlgorithmId::EcdsaSecp256k1,
            reason: "unable to create EC group: OpenSSL failed with error OpenSSL error"
                .to_string(),
        }
    );
}

#[test]
fn public_key_byte_helpers_agree_with_the_form() {
    assert_eq!(PublicKeyBytes::SIZE, 65);
    assert!(generator().has_uncompressed_form());
    assert!(!PublicKeyBytes(generator_compressed()).has_uncompressed_form());
    assert!(!PublicKeyBytes(vec![0x04; 64]).has_uncompressed_form());
    assert!(!PublicKeyBytes(vec![]).has_uncompressed_form());
    assert_eq!(PublicKeyBytes::from(vec![1, 2, 3]), PublicKeyBytes(vec![1, 2, 3]));
}

#[test]
fn secret_key_bytes_hold_what_they_were_given() {
    let sk = SecretKeyBytes::new(vec![1, 2, 3, 4]);
    assert_eq!(sk.expose_secret(), &[1u8, 2, 3, 4][..]);
}

#[test]
fn generator_encodes_to_its_known_der() {
    assert_eq!(public_key_to_der(&generator()), Ok(generator_der()));
}

#[test]
fn known_der_decodes_to_the_generator() {
    assert_eq!(public_key_from_der(&generator_der()), Ok(generator()));
}

#[test]
fn fresh_public_key_round_trips_through_der() {
    let (_sk, pk) = new_keypair().unwrap();
    assert_eq!(pk.0.len(), 65);
    assert_eq!(pk.0[0], 0x04);
    let der = public_key_to_der(&pk).unwrap();
    assert_eq!(der.len(), 88);
    assert_eq!(&der[..23], &SPKI_PREFIX_UNCOMPRESSED[..]);
    assert_eq!(&der[23..], &pk.0[..]);
    let decoded = public_key_from_der(&der).unwrap();
    assert_eq!(decoded, pk);
    assert_eq!(public_key_to_der(&decoded), Ok(der));
}

#[test]
fn canonical_der_round_trips_through_the_key() {
    for scalar in [&[1u8][..], &[2], &[0xde, 0xad, 0xbe, 0xef], &[0x7f; 32]] {
        let pk = multiple_of_generator(scalar);
        let der = public_key_to_der(&pk).unwrap();
        let decoded = public_key_from_der(&der).unwrap();
        assert_eq!(decoded, pk);
        assert_eq!(public_key_to_der(&decoded).unwrap(), der);
    }
}

#[test]
fn compressed_point_in_der_is_rejected_as_non_canonical() {
    let mut der = SPKI_PREFIX_COMPRESSED.to_vec();
    der.extend_from_slice(&generator_compressed());
    assert_eq!(
        public_key_from_der(&der),
        Err(CryptoError::MalformedPublicKey {
            algorithm: AlgorithmId::EcdsaSecp256k1,
            key_bytes: Some(der.clone()),
            internal_error: "non-canonical encoding".to_string(),
        })
    );
}

#[test]
fn compressed_public_key_encodes_to_the_canonical_der() {
    let compressed = PublicKeyBytes(generator_compressed());
    assert_eq!(public_key_to_der(&compressed), Ok(generator_der()));
}

#[test]
fn uncompressed_point_with_compressed_marker_is_rejected_by_the_der_parser() {
    let mut der = generator_der();
    assert_eq!(der[23], 0x04);
    der[23] = 0x03;
    match public_key_from_der(&der) {
        Err(CryptoError::MalformedPublicKey {
            algorithm,
            key_bytes,
            internal_error,
        }) => {
            assert_eq!(algorithm, AlgorithmId::EcdsaSecp256k1);
            assert_eq!(key_bytes, Some(der));
            assert_ne!(internal_error, "non-canonical encoding");
            assert_ne!(internal_error, "cannot encode decoded key");
        }
        other => panic!("unexpected result: {:?}", other),
    }
}

#[test]
fn der_with_trailing_garbage_is_rejected() {
    let mut der = generator_der();
    der.push(0);
    assert!(matches!(
        public_key_from_der(&der),
        Err(CryptoError::MalformedPublicKey { .. })
    ));
}

#[test]
fn bytes_that_are_no_der_are_malformed() {
    for der in [vec![], vec![0x30], vec![1, 2, 3, 4, 5]] {
        match public_key_from_der(&der) {
            Err(CryptoError::MalformedPublicKey { key_bytes, .. }) => {
                assert_eq!(key_bytes, Some(der))
            }
            other => panic!("unexpected result: {:?}", other),
        }
    }
}

#[test]
fn point_off_the_curve_does_not_encode() {
    let mut octets = generator().0;
    octets[64] ^= 1;
    let pk = PublicKeyBytes(octets.clone());
    match public_key_to_der(&pk) {
        Err(CryptoError::MalformedPublicKey {
            algorithm,
            key_bytes,
            ..
        }) => {
            assert_eq!(algorithm, AlgorithmId::EcdsaSecp256k1);
            assert_eq!(key_bytes, Some(octets));
        }
        other => panic!("unexpected result: {:?}", other),
    }
}

#[test]
fn truncated_public_key_does_not_encode() {
    let pk = PublicKeyBytes(generator().0[..64].to_vec());
    assert!(matches!(
        public_key_to_der(&pk),
        Err(CryptoError::MalformedPublicKey { .. })
    ));
    assert!(matches!(
        public_key_to_der(&PublicKeyBytes(vec![])),
        Err(CryptoError::MalformedPublicKey { .. })
    ));
}

#[test]
fn accept_canonical_accepts_only_the_same_bytes() {
    let der = generator_der();
    let point = generator().0;
    assert_eq!(
        accept_canonical(&der, point.clone(), &der),
        Ok(generator())
    );
    let mut other = der.clone();
    other[87] ^= 1;
    assert_eq!(
        accept_canonical(&der, point.clone(), &other),
        Err(CryptoError::MalformedPublicKey {
            algorithm: AlgorithmId::EcdsaSecp256k1,
            key_bytes: Some(der.clone()),
            internal_error: "non-canonical encoding".to_string(),
        })
    );
    assert!(accept_canonical(&der, point.clone(), &der[..87]).is_err());
    assert!(accept_canonical(&der, generator_compressed(), &der).is_err());
    assert!(accept_canonical(&der, vec![0u8], &der).is_err());
}

#[test]
fn secret_key_is_rebuilt_from_matching_components() {
    let sk = secret_key_from_components(&[1], &generator());
    assert!(sk.is_ok());
    let scalar = [0x12u8, 0x34, 0x56, 0x78, 0x9a];
    let pk = multiple_of_generator(&scalar);
    let sk = secret_key_from_components(&scalar, &pk).ok().unwrap();
    // The encoding is that of an EC private key and holds the scalar.
    let der = sk.expose_secret();
    assert_eq!(der[0], 0x30);
    assert!(der.windows(scalar.len()).any(|w| w == scalar));
}

#[test]
fn secret_key_is_the_same_for_the_same_components() {
    let scalar = [0x05u8; 32];
    let pk = multiple_of_generator(&scalar);
    let a = secret_key_from_components(&scalar, &pk).ok().unwrap();
    let b = secret_key_from_components(&scalar, &pk).ok().unwrap();
    assert_eq!(a.expose_secret(), b.expose_secret());
}

#[test]
fn secret_key_that_does_not_match_the_public_key_is_malformed() {
    match secret_key_from_components(&[2], &generator()) {
        Err(e) => assert_eq!(
            e,
            CryptoError::MalformedSecretKey {
                algorithm: AlgorithmId::EcdsaSecp256k1,
                internal_error: "OpenSSL error".to_string(),
            }
        ),
        Ok(_) => panic!("a mismatched pair was accepted"),
    }
    let pk = multiple_of_generator(&[3]);
    assert!(matches!(
        secret_key_from_components(&[1], &pk),
        Err(CryptoError::MalformedSecretKey { .. })
    ));
}

#[test]
fn secret_key_with_unreadable_public_key_is_rejected_for_the_public_key() {
    let pk = PublicKeyBytes(vec![0x04, 1, 2, 3]);
    match secret_key_from_components(&[1], &pk) {
        Err(CryptoError::MalformedPublicKey {
            algorithm,
            key_bytes,
            ..
        }) => {
            assert_eq!(algorithm, AlgorithmId::EcdsaSecp256k1);
            assert_eq!(key_bytes, Some(vec![0x04, 1, 2, 3]));
        }
        Err(other) => panic!("unexpected error: {:?}", other),
        Ok(_) => panic!("an unreadable public key was accepted"),
    }
}

#[test]
fn zero_and_empty_scalars_match_no_public_key() {
    assert!(matches!(
        secret_key_from_components(&[0], &generator()),
        Err(CryptoError::MalformedSecretKey { .. })
    ));
    assert!(matches!(
        secret_key_from_components(&[], &generator()),
        Err(CryptoError::MalformedSecretKey { .. })
    ));
}

#[test]
fn leading_zeros_of_the_scalar_do_not_matter() {
    let short = secret_key_from_components(&[1], &generator()).ok().unwrap();
    let long = secret_key_from_components(&[0, 0, 0, 1], &generator()).ok().unwrap();
    assert_eq!(short.expose_secret(), long.expose_secret());
}

#[test]
fn secret_key_accepts_the_compressed_form_of_its_public_key() {
    let plain = secret_key_from_components(&[1], &generator()).ok().unwrap();
    let other = secret_key_from_components(&[1], &PublicKeyBytes(generator_compressed()));
    assert_eq!(other.ok().unwrap().expose_secret(), plain.expose_secret());
}

#[test]
fn accept_encoded_tells_a_failed_encoding_from_a_different_one() {
    let der = generator_der();
    let point = generator().0;
    assert_eq!(
        accept_encoded(&der, point.clone(), Ok(der.clone())),
        Ok(generator())
    );
    let failed = Err(CryptoError::MalformedPublicKey {
        algorithm: AlgorithmId::EcdsaSecp256k1,
        key_bytes: Some(point.clone()),
        internal_error: "whatever".to_string(),
    });
    assert_eq!(
        accept_encoded(&der, point.clone(), failed),
        Err(CryptoError::MalformedPublicKey {
            algorithm: AlgorithmId::EcdsaSecp256k1,
            key_bytes: Some(der.clone()),
            internal_error: "cannot encode decoded key".to_string(),
        })
    );
    let unsupported = Err(CryptoError::AlgorithmNotSupported {
        algorithm: AlgorithmId::EcdsaSecp256k1,
        reason: "no curve".to_string(),
    });
    assert_eq!(
        accept_encoded(&der, point.clone(), unsupported),
        Err(CryptoError::MalformedPublicKey {
            algorithm: AlgorithmId::EcdsaSecp256k1,
            key_bytes: Some(der.clone()),
            internal_error: "cannot encode decoded key".to_string(),
        })
    );
    let mut other = der.clone();
    other[50] ^= 0x10;
    assert_eq!(
        accept_encoded(&der, point, Ok(other)),
        Err(CryptoError::MalformedPublicKey {
            algorithm: AlgorithmId::EcdsaSecp256k1,
            key_bytes: Some(der.clone()),
            internal_error: "non-canonical encoding".to_string(),
        })
    );
}

#[test]
fn unreadable_der_carries_what_the_parser_reported() {
    match public_key_from_der(&[1, 2, 3]) {
        Err(CryptoError::MalformedPublicKey { internal_error, .. }) => {
            assert!(internal_error == "OpenSSL error" || internal_error.starts_with("error:"));
        }
        other => panic!("unexpected result: {:?}", other),
    }
}

#[test]
fn each_step_passes_its_result_on() {
    assert_eq!(setup_step(Ok(5u8), "unable to create EC group"), Ok(5u8));
    assert_eq!(public_key_step(Ok(6u8), &[1, 2]), Ok(6u8));
    assert_eq!(secret_key_step(Ok(7u8)), Ok(7u8));
    assert_eq!(encoding_step(Ok(vec![8u8])), Ok(vec![8u8]));
}

#[test]
fn each_failed_step_gives_the_error_of_its_cause() {
    assert_eq!(
        setup_step::<u8>(Err(ErrorStack::get()), "unable to create BigNumContext"),
        Err(CryptoError::AlgorithmNotSupported {
            algorithm: AlgorithmId::EcdsaSecp256k1,
            reason: "unable to create BigNumContext: OpenSSL failed with error OpenSSL error"
                .to_string(),
        })
    );
    assert_eq!(
        encoding_step(Err(ErrorStack::get())),
        Err(CryptoError::AlgorithmNotSupported {
            algorithm: AlgorithmId::EcdsaSecp256k1,
            reason: "OpenSSL failed with error OpenSSL error".to_string(),
        })
    );
    assert_eq!(
        public_key_step::<u8>(Err(ErrorStack::get()), &[9, 9]),
        Err(CryptoError::MalformedPublicKey {
            algorithm: AlgorithmId::EcdsaSecp256k1,
            key_bytes: Some(vec![9, 9]),
            internal_error: "OpenSSL error".to_string(),
        })
    );
    assert_eq!(
        secret_key_step::<u8>(Err(ErrorStack::get())),
        Err(CryptoError::MalformedSecretKey {
            algorithm: AlgorithmId::EcdsaSecp256k1,
            internal_error: "OpenSSL error".to_string(),
        })
    );
}

#[test]
fn empty_public_key_is_reported_for_the_public_key_whatever_the_scalar() {
    for scalar in [&[1u8][..], &[2], &[], &[0xff; 32]] {
        match secret_key_from_components(scalar, &PublicKeyBytes(vec![])) {
            Err(CryptoError::MalformedPublicKey {
                algorithm,
                key_bytes,
                ..
            }) => {
                assert_eq!(algorithm, AlgorithmId::EcdsaSecp256k1);
                assert_eq!(key_bytes, Some(vec![]));
            }
            Err(other) => panic!("unexpected error: {:?}", other),
            Ok(_) => panic!("an empty public key was accepted"),
        }
    }
}

#[test]
fn failing_scalars_for_one_public_key_give_equal_errors() {
    let a = secret_key_from_components(&[2], &generator()).err().unwrap();
    let b = secret_key_from_components(&[0xab; 32], &generator()).err().unwrap();
    let c = secret_key_from_components(&[0, 0, 2], &generator()).err().unwrap();
    assert_eq!(a, b);
    assert_eq!(a, c);
    let bad = PublicKeyBytes(vec![0x04, 7]);
    let d = secret_key_from_components(&[2], &bad).err().unwrap();
    let e = secret_key_from_components(&[0, 3], &bad).err().unwrap();
    assert_eq!(d, e);
}

#[test]
fn fresh_key_pair_is_consistent() {
    let (sk, pk) = new_keypair().unwrap();
    let der = sk.expose_secret();
    // The encoding of the pair holds the public point.
    assert!(der.windows(pk.0.len()).any(|w| w == &pk.0[..]));
}

#[test]
fn key_on_another_curve_is_a_malformed_public_key() {
    let p256 = EcGroup::from_curve_name(Nid::X9_62_PRIME256V1).unwrap();
    let key = EcKey::generate(&p256).unwrap();
    let der = key.public_key_to_der().unwrap();
    match public_key_from_der(&der) {
        Err(CryptoError::MalformedPublicKey {
            algorithm,
            key_bytes,
            ..
        }) => {
            assert_eq!(algorithm, AlgorithmId::EcdsaSecp256k1);
            assert_eq!(key_bytes, Some(der));
        }
        other => panic!("unexpected result: {:?}", other),
    }
    let mut ctx = BigNumContext::new().unwrap();
    let point = key
        .public_key()
        .to_bytes(&p256, PointConversionForm::UNCOMPRESSED, &mut ctx)
        .unwrap();
    assert!(matches!(
        public_key_to_der(&PublicKeyBytes(point)),
        Err(CryptoError::MalformedPublicKey { .. })
    ));
}

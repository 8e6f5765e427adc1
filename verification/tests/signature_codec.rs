use ecdsa_secp256k1::codec::{pack_components, unpack_components};
use ecdsa_secp256k1::text::decimal_string;
use ecdsa_secp256k1::types::{AlgorithmId, CryptoError, SignatureBytes, FIELD_SIZE};

fn strip_zeros(octets: &[u8]) -> Vec<u8> {
    let first = octets.iter().position(|b| *b != 0).unwrap_or(octets.len());
    octets[first..].to_vec()
}

#[test]
fn sizes_are_those_of_the_curve() {
    assert_eq!(FIELD_SIZE, 32);
    assert_eq!(SignatureBytes::SIZE, 64);
}

#[test]
fn decimal_string_writes_exact_digits() {
    assert_eq!(decimal_string(0), "0");
    assert_eq!(decimal_string(7), "7");
    assert_eq!(decimal_string(9), "9");
    assert_eq!(decimal_string(10), "10");
    assert_eq!(decimal_string(64), "64");
    assert_eq!(decimal_string(1234567890), "1234567890");
    assert_eq!(decimal_string(usize::MAX), format!("{}", usize::MAX));
}

#[test]
fn pack_right_aligns_each_scalar_in_its_half() {
    let sig = pack_components(&[0x12, 0x34], &[0xab]).unwrap();
    let mut expected = vec![0u8; 64];
    expected[30] = 0x12;
    expected[31] = 0x34;
    expected[63] = 0xab;
    assert_eq!(sig.0, expected);
}

#[test]
fn pack_of_full_width_scalars_is_their_concatenation() {
    let r: Vec<u8> = (1..=32).collect();
    let s: Vec<u8> = (101..=132).collect();
    let sig = pack_components(&r, &s).unwrap();
    assert_eq!(&sig.0[..32], &r[..]);
    assert_eq!(&sig.0[32..], &s[..]);
}

#[test]
fn pack_of_empty_scalars_is_all_zero() {
    let sig = pack_components(&[], &[]).unwrap();
    assert_eq!(sig.0, vec![0u8; 64]);
}

#[test]
fn pack_rejects_a_scalar_wider_than_the_field() {
    let wide = vec![1u8; 33];
    let fits = vec![1u8; 32];
    assert_eq!(pack_components(&wide, &fits), None);
    assert_eq!(pack_components(&fits, &wide), None);
    assert_eq!(pack_components(&wide, &wide), None);
    assert!(pack_components(&fits, &fits).is_some());
}

#[test]
fn unpack_after_pack_gives_back_both_numbers() {
    let cases: Vec<(Vec<u8>, Vec<u8>)> = vec![
        (vec![], vec![]),
        (vec![1], vec![2]),
        (vec![0xff; 32], vec![0x80; 31]),
        (vec![0x01, 0x00], vec![0x7f, 0xff, 0xff]),
        ((1..=32).collect(), (1..=17).collect()),
    ];
    for (r, s) in cases {
        let sig = pack_components(&r, &s).unwrap();
        assert_eq!(sig.0.len(), 64);
        let (r2, s2) = unpack_components(&sig).unwrap();
        assert_eq!(r2.len(), 32);
        assert_eq!(s2.len(), 32);
        assert_eq!(strip_zeros(&r2), strip_zeros(&r));
        assert_eq!(strip_zeros(&s2), strip_zeros(&s));
    }
}

#[test]
fn pack_after_unpack_gives_back_the_signature() {
    let bytes: Vec<u8> = (0..64).map(|i| (i * 3 + 1) as u8).collect();
    let sig = SignatureBytes(bytes.clone());
    let (r, s) = unpack_components(&sig).unwrap();
    assert_eq!(r, bytes[..32].to_vec());
    assert_eq!(s, bytes[32..].to_vec());
    assert_eq!(pack_components(&r, &s), Some(sig));
}

#[test]
fn unpack_of_64_bytes_succeeds_whatever_they_hold() {
    assert!(unpack_components(&SignatureBytes(vec![0u8; 64])).is_ok());
    assert!(unpack_components(&SignatureBytes(vec![0xffu8; 64])).is_ok());
}

#[test]
fn unpack_rejects_63_bytes() {
    let sig = SignatureBytes(vec![7u8; 63]);
    assert_eq!(
        unpack_components(&sig),
        Err(CryptoError::MalformedSignature {
            algorithm: AlgorithmId::EcdsaSecp256k1,
            sig_bytes: vec![7u8; 63],
            internal_error: "Expected 64 bytes, got 63".to_string(),
        })
    );
}

#[test]
fn unpack_rejects_65_bytes() {
    let sig = SignatureBytes(vec![9u8; 65]);
    assert_eq!(
        unpack_components(&sig),
        Err(CryptoError::MalformedSignature {
            algorithm: AlgorithmId::EcdsaSecp256k1,
            sig_bytes: vec![9u8; 65],
            internal_error: "Expected 64 bytes, got 65".to_string(),
        })
    );
}

#[test]
fn unpack_rejects_the_empty_signature() {
    let sig = SignatureBytes(vec![]);
    assert_eq!(
        unpack_components(&sig),
        Err(CryptoError::MalformedSignature {
            algorithm: AlgorithmId::EcdsaSecp256k1,
            sig_bytes: vec![],
            internal_error: "Expected 64 bytes, got 0".to_string(),
        })
    );
}

use ecc::Curve;
use ecc::DJB_TYPE;
use ecc::ECPrivateKey;
use ecc::ECPublicKey;
use ecc::InvalidKeyError;
use ecc::KeyPair;
use ecc::PrivateKey;
use ecc::PublicKey;

#[test]
fn decode_point_success_returns_zero_key() {
    // Tag byte at offset 2, followed by 64 zero bytes: succeeds and the key is
    // 32 zero bytes.
    let mut buf: Vec<u8> = vec![0x00, 0x08, 0x05];
    buf.extend_from_slice(&[0x00; 64][..]);

    let key = Curve::decode_point(&buf, 2).unwrap_or_else(|_| panic!("expected Ok"));
    assert_eq!(key.serialize(), [0u8; 32]);
    assert!(key == PublicKey::new([0u8; 32]));
}

#[test]
fn decode_point_reads_body_after_tag_at_offset() {
    let mut buf: Vec<u8> = vec![0x09, 0x09, 0x05];
    let mut body = [0u8; 32];
    for (i, b) in body.iter_mut().enumerate() {
        *b = (i + 1) as u8;
    }
    buf.extend_from_slice(&body);
    buf.extend_from_slice(&[0xaa; 5][..]);

    let key = Curve::decode_point(&buf, 2).unwrap_or_else(|_| panic!("expected Ok"));
    assert_eq!(key.get_public_key(), body);
    assert_eq!(key.get_type(), DJB_TYPE);
}

#[test]
fn decode_point_rejects_bad_tag_with_tag_value() {
    let buf = [0x04u8; 40];
    match Curve::decode_point(&buf, 0) {
        Ok(_) => panic!("expected Err"),
        Err(InvalidKeyError(s)) => assert_eq!(s, "Bad key type: 4"),
    }
}

#[test]
fn decode_point_rejects_bad_tag_multi_digit_value() {
    let buf = [0xffu8; 40];
    match Curve::decode_point(&buf, 0) {
        Ok(_) => panic!("expected Err"),
        Err(InvalidKeyError(s)) => assert_eq!(s, "Bad key type: 255"),
    }
}

#[test]
fn decode_point_rejects_short_body_with_total_length() {
    let buf = [0x05u8; 10];
    match Curve::decode_point(&buf, 0) {
        Ok(_) => panic!("expected Err"),
        Err(InvalidKeyError(s)) => assert_eq!(s, "Bad key length: 10"),
    }

    // 33 bytes in all, but only 30 after the tag at offset 2.
    let mut tail = vec![0x07u8, 0x07, 0x05];
    tail.extend_from_slice(&[0x00; 30][..]);
    match Curve::decode_point(&tail, 2) {
        Ok(_) => panic!("expected Err"),
        Err(InvalidKeyError(s)) => assert_eq!(s, "Bad key length: 33"),
    }
}

#[test]
fn decode_point_offset_at_end_has_no_tag() {
    let buf = [0x05u8; 10];
    match Curve::decode_point(&buf, 10) {
        Ok(_) => panic!("expected Err"),
        Err(InvalidKeyError(s)) => assert_eq!(s, "No key type identifier"),
    }
    match Curve::decode_point(&buf, 11) {
        Ok(_) => panic!("expected Err"),
        Err(InvalidKeyError(s)) => assert_eq!(s, "No key type identifier"),
    }
}

#[test]
fn decode_private_point_message() {
    match Curve::decode_private_point(&[0x01; 31]) {
        Ok(_) => panic!("expected Err"),
        Err(InvalidKeyError(s)) => assert_eq!(s, "Error decoding private point"),
    }
    match Curve::decode_private_point(&[0x01; 33]) {
        Ok(_) => panic!("expected Err"),
        Err(InvalidKeyError(s)) => assert_eq!(s, "Error decoding private point"),
    }
}

#[test]
fn decode_private_point_then_serialize_round_trips() {
    let mut material = [0u8; 32];
    for (i, b) in material.iter_mut().enumerate() {
        *b = (i * 7 + 3) as u8;
    }

    let key = Curve::decode_private_point(&material).unwrap_or_else(|_| panic!("expected Ok"));
    assert_eq!(key.serialize(), material);
    assert_eq!(key.get_private_key(), material);
    assert_eq!(key.get_type(), DJB_TYPE);
}

#[test]
fn agreement_matches_reference_vector() {
    // Test vector from RFC 7748, section 5.2: scalar, point, expected output.
    let scalar: [u8; 32] = [
        0xa5, 0x46, 0xe3, 0x6b, 0xf0, 0x52, 0x7c, 0x9d, 0x3b, 0x16, 0x15, 0x4b, 0x82, 0x46,
        0x5e, 0xdd, 0x62, 0x14, 0x4c, 0x0a, 0xc1, 0xfc, 0x5a, 0x18, 0x50, 0x6a, 0x22, 0x44,
        0xba, 0x44, 0x9a, 0xc4,
    ];
    let point: [u8; 32] = [
        0xe6, 0xdb, 0x68, 0x67, 0x58, 0x30, 0x30, 0xdb, 0x35, 0x94, 0xc1, 0xa4, 0x24, 0xb1,
        0x5f, 0x7c, 0x72, 0x66, 0x24, 0xec, 0x26, 0xb3, 0x35, 0x3b, 0x10, 0xa9, 0x03, 0xa6,
        0xd0, 0xab, 0x1c, 0x4c,
    ];
    let expected: [u8; 32] = [
        0xc3, 0xda, 0x55, 0x37, 0x9d, 0xe9, 0xc6, 0x90, 0x8e, 0x94, 0xea, 0x4d, 0xf2, 0x8d,
        0x08, 0x4f, 0x32, 0xec, 0xcf, 0x03, 0x49, 0x1c, 0x71, 0xf7, 0x54, 0xb4, 0x07, 0x55,
        0x77, 0xa2, 0x85, 0x52,
    ];

    let mut wire = vec![0x05u8];
    wire.extend_from_slice(&point);
    let public = Curve::decode_point(&wire, 0).unwrap_or_else(|_| panic!("expected Ok"));
    let private = Curve::decode_private_point(&scalar).unwrap_or_else(|_| panic!("expected Ok"));

    match Curve::calculate_agreement(&public, &private) {
        Ok(secret) => assert_eq!(secret, expected),
        Err(_) => panic!("expected Ok"),
    }
}

#[test]
fn independently_generated_pairs_always_type_check() {
    let alice = Curve::generate_key_pair();
    let bob = Curve::generate_key_pair();

    let ab = Curve::calculate_agreement(&alice.public_key, &bob.private_key);
    let ba = Curve::calculate_agreement(&bob.public_key, &alice.private_key);

    match (ab, ba) {
        (Ok(k1), Ok(k2)) => {
            assert_eq!(k1.len(), 32);
            assert_eq!(k2.len(), 32);
            // Diffie-Hellman: both sides derive the same secret.
            assert_eq!(k1, k2);
        }
        _ => panic!("expected both agreements to type-check"),
    }
}

#[test]
fn key_containers_hold_and_compare_bytes() {
    let p1 = PublicKey::new([3u8; 32]);
    let p2 = PublicKey::new([3u8; 32]);
    let p3 = PublicKey::new([4u8; 32]);
    assert!(p1 == p2);
    assert!(!(p1 == p3));
    assert_eq!(p1.serialize(), [3u8; 32]);
    assert_eq!(p1.get_type(), 0x05);
    let p4: PublicKey = ECPublicKey::from([3u8; 32]);
    assert!(p1 == p4);

    let mut material = [9u8; 32];
    let k1 = PrivateKey::new(&mut material);
    assert_eq!(material, [9u8; 32]);
    let mut other = [9u8; 32];
    let k2 = PrivateKey::new(&mut other);
    assert!(k1 == k2);
    assert_eq!(k1.serialize(), [9u8; 32]);
    assert_eq!(k1.get_type(), 0x05);

    let pair = KeyPair::new(p1, k1);
    assert_eq!(pair.public_key.serialize(), [3u8; 32]);
    assert_eq!(pair.private_key.serialize(), [9u8; 32]);
}

struct WrongTypeKey([u8; 32]);

impl ECPublicKey for WrongTypeKey {
    fn spec_type(&self) -> u8 {
        panic!()
    }

    fn spec_key(&self) -> vstd::prelude::Seq<u8> {
        panic!()
    }

    fn from(bytes: [u8; 32]) -> Self {
        WrongTypeKey(bytes)
    }

    fn serialize(&self) -> [u8; 32] {
        self.0
    }

    fn get_type(&self) -> u8 {
        0x04
    }

    fn get_public_key(&self) -> [u8; 32] {
        self.0
    }
}

#[test]
fn agreement_rejects_mismatched_types() {
    let wrong = WrongTypeKey([1u8; 32]);
    let pair = Curve::generate_key_pair();

    match Curve::calculate_agreement(&wrong, &pair.private_key) {
        Ok(_) => panic!("expected Err"),
        Err(InvalidKeyError(s)) => {
            assert_eq!(s, "Public and private keys must be of the same type!")
        }
    }
}

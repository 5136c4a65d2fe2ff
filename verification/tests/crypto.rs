//! License keys.

use keysat::codec::Uuid;
use keysat::crypto::keys::{from_secret, load_or_generate, load_stored, KeypairError};
use keysat::crypto::payload::{
    LicensePayload, PayloadError, FLAG_FINGERPRINT_BOUND, FLAG_TRIAL, KEY_VERSION_V1,
    KEY_VERSION_V2, PAYLOAD_V1_LEN,
};
use keysat::crypto::{
    encode_key, hash_fingerprint, issue_key, parse_key, sign_payload, verify_payload, KeyError,
    Signature, SigningKey,
};
use rand::rngs::OsRng;
use rand::RngCore;

fn random_uuid() -> Uuid {
    Uuid { bytes: *uuid::Uuid::new_v4().as_bytes() }
}

fn generate() -> SigningKey {
    let mut secret = [0u8; 32];
    OsRng.fill_bytes(&mut secret);
    SigningKey::from_bytes(secret)
}

fn test_payload() -> LicensePayload {
    LicensePayload {
        version: KEY_VERSION_V2,
        flags: 0,
        product_id: random_uuid(),
        license_id: random_uuid(),
        issued_at: 1_700_000_000,
        expires_at: 0,
        fingerprint_hash: [0u8; 32],
        entitlements: Vec::new(),
    }
}

#[test]
fn roundtrip_unbound_perpetual_v2() {
    let signing = generate();
    let verifying = signing.verifying_key();

    let payload = test_payload();
    let sig = sign_payload(&signing, &payload);
    let encoded = encode_key(&payload, &sig);

    let (parsed, parsed_sig, signed_bytes) = parse_key(&encoded).unwrap();
    assert_eq!(parsed, payload);
    verify_payload(&verifying, &signed_bytes, &parsed_sig).unwrap();
}

#[test]
fn roundtrip_with_entitlements_and_expiry() {
    let signing = generate();
    let verifying = signing.verifying_key();

    let payload = LicensePayload {
        expires_at: 1_900_000_000,
        entitlements: vec![
            "pro".to_string(),
            "cloud-sync".to_string(),
            "multi-seat".to_string(),
        ],
        ..test_payload()
    };
    let sig = sign_payload(&signing, &payload);
    let encoded = encode_key(&payload, &sig);

    let (parsed, parsed_sig, signed_bytes) = parse_key(&encoded).unwrap();
    assert_eq!(parsed, payload);
    assert!(parsed.has_entitlement("pro"));
    assert!(parsed.has_entitlement("cloud-sync"));
    assert!(!parsed.has_entitlement("enterprise"));
    assert!(!parsed.is_expired_at(1_800_000_000));
    assert!(parsed.is_expired_at(1_900_000_000));
    verify_payload(&verifying, &signed_bytes, &parsed_sig).unwrap();
}

#[test]
fn tampered_payload_fails_verification() {
    let signing = generate();
    let verifying = signing.verifying_key();

    let payload = LicensePayload {
        entitlements: vec!["free".to_string()],
        ..test_payload()
    };
    let sig = sign_payload(&signing, &payload);
    let encoded = encode_key(&payload, &sig);
    let (_, parsed_sig, signed_bytes) = parse_key(&encoded).unwrap();

    let mut tampered = signed_bytes.clone();
    let last = tampered.len() - 1;
    tampered[last] ^= 0x01;

    assert!(verify_payload(&verifying, &tampered, &parsed_sig).is_err());
}

#[test]
fn fingerprint_bound_roundtrip() {
    let signing = generate();
    let fp = "machine-abc-123";
    let payload = LicensePayload {
        flags: FLAG_FINGERPRINT_BOUND,
        fingerprint_hash: hash_fingerprint(fp),
        ..test_payload()
    };
    let sig = sign_payload(&signing, &payload);
    let encoded = encode_key(&payload, &sig);
    let (parsed, _, _) = parse_key(&encoded).unwrap();
    assert!(parsed.is_fingerprint_bound());
    assert_eq!(parsed.fingerprint_hash, hash_fingerprint(fp));
}

#[test]
fn trial_flag_roundtrip() {
    let signing = generate();
    let payload = LicensePayload {
        flags: FLAG_TRIAL,
        expires_at: 1_710_000_000,
        ..test_payload()
    };
    let sig = sign_payload(&signing, &payload);
    let encoded = encode_key(&payload, &sig);
    let (parsed, _, _) = parse_key(&encoded).unwrap();
    assert!(parsed.is_trial());
}

#[test]
fn v1_parse_still_works() {
    let product_id = random_uuid();
    let license_id = random_uuid();
    let mut v1 = Vec::with_capacity(PAYLOAD_V1_LEN);
    v1.push(KEY_VERSION_V1);
    v1.push(FLAG_FINGERPRINT_BOUND);
    v1.extend_from_slice(&product_id.bytes);
    v1.extend_from_slice(&license_id.bytes);
    v1.extend_from_slice(&1_700_000_000u64.to_be_bytes());
    v1.extend_from_slice(&hash_fingerprint("rig-1"));
    assert_eq!(v1.len(), PAYLOAD_V1_LEN);

    let parsed = LicensePayload::from_bytes(&v1).unwrap();
    assert_eq!(parsed.version, KEY_VERSION_V1);
    assert!(parsed.is_fingerprint_bound());
    assert_eq!(parsed.expires_at, 0);
    assert!(parsed.entitlements.is_empty());
    assert_eq!(parsed.product_id, product_id);
    assert_eq!(parsed.license_id, license_id);
}

#[test]
fn truncated_entitlement_list_is_rejected() {
    let mut buf = Vec::new();
    buf.push(KEY_VERSION_V2);
    buf.push(0);
    buf.extend_from_slice(&[0u8; 16]);
    buf.extend_from_slice(&[0u8; 16]);
    buf.extend_from_slice(&0u64.to_be_bytes());
    buf.extend_from_slice(&0u64.to_be_bytes());
    buf.extend_from_slice(&[0u8; 32]);
    buf.push(2);
    buf.push(3);
    buf.extend_from_slice(b"pro");
    assert!(LicensePayload::from_bytes(&buf).is_err());
}

fn head(count: u8) -> Vec<u8> {
    let mut b = vec![KEY_VERSION_V2, 0];
    b.extend_from_slice(&[0u8; 32]);
    b.extend_from_slice(&[0u8; 16]);
    b.extend_from_slice(&[0u8; 32]);
    b.push(count);
    b
}

#[test]
fn each_fault_of_a_payload_is_told() {
    assert_eq!(LicensePayload::from_bytes(&[]), Err(PayloadError::Empty));
    assert_eq!(
        LicensePayload::from_bytes(&[9]),
        Err(PayloadError::UnsupportedVersion { version: 9 })
    );
    assert!(matches!(
        LicensePayload::from_bytes(&[KEY_VERSION_V1, 0]),
        Err(PayloadError::V1Length { len: 2 })
    ));
    assert!(matches!(
        LicensePayload::from_bytes(&[KEY_VERSION_V2, 0]),
        Err(PayloadError::V2Length { len: 2 })
    ));
    assert!(matches!(
        LicensePayload::from_bytes(&head(1)),
        Err(PayloadError::TruncatedEntitlements { index: 0, .. })
    ));
    let mut overrun = head(1);
    overrun.extend_from_slice(&[5, b'p']);
    assert!(matches!(
        LicensePayload::from_bytes(&overrun),
        Err(PayloadError::EntitlementOverrun { index: 0, .. })
    ));
    let mut not_utf8 = head(1);
    not_utf8.extend_from_slice(&[1, 0xff]);
    assert!(matches!(
        LicensePayload::from_bytes(&not_utf8),
        Err(PayloadError::EntitlementNotUtf8 { index: 0 })
    ));
    let mut trailing = head(0);
    trailing.push(1);
    assert!(matches!(
        LicensePayload::from_bytes(&trailing),
        Err(PayloadError::TrailingBytes { .. })
    ));
}

#[test]
fn a_payload_is_written_in_one_way() {
    let p = LicensePayload { entitlements: vec!["é".to_string()], ..test_payload() };
    let bytes = p.to_bytes();
    assert_eq!(bytes.len(), 83 + 1 + 2);
    assert_eq!(LicensePayload::from_bytes(&bytes).unwrap().to_bytes(), bytes);
}

#[test]
fn each_fault_of_a_key_is_told() {
    let key = issue_key(&generate(), &test_payload());
    assert!(matches!(parse_key("ABC-x-y"), Err(KeyError::UnrecognizedPrefix { .. })));
    assert!(matches!(parse_key("LIC1"), Err(KeyError::MissingPayload)));
    assert!(matches!(parse_key("LIC1-AA"), Err(KeyError::MissingSignature)));
    assert!(matches!(parse_key("LIC1-1-AA"), Err(KeyError::PayloadBase32)));
    assert!(matches!(parse_key("LIC1-AA-1"), Err(KeyError::SignatureBase32)));
    assert!(matches!(parse_key("LIC1-AA-AA"), Err(KeyError::Payload { .. })));
    let parts: Vec<&str> = key.split('-').collect();
    let short = format!("LIC1-{}-AA", parts[1]);
    assert!(matches!(parse_key(&short), Err(KeyError::SignatureLength)));
}

#[test]
fn keys_are_read_in_either_case_and_with_white_space_around_them() {
    let key = issue_key(&generate(), &test_payload());
    let (a, _, _) = parse_key(&key).unwrap();
    let lower = format!("  LIC1-{}\n", key["LIC1-".len()..].to_lowercase());
    let (b, _, _) = parse_key(&lower).unwrap();
    assert_eq!(a, b);
}

#[test]
fn a_key_of_another_server_is_refused() {
    let key = issue_key(&generate(), &test_payload());
    let (_, sig, signed) = parse_key(&key).unwrap();
    let err = verify_payload(&generate().verifying_key(), &signed, &sig).unwrap_err();
    assert_eq!(err.message(), "signature verification failed");
    let forged = Signature { bytes: [0u8; 64] };
    assert!(verify_payload(&generate().verifying_key(), &signed, &forged).is_err());
}

#[test]
fn fingerprints_are_hashed() {
    assert_eq!(
        hash_fingerprint("abc")[..4],
        [0xba, 0x78, 0x16, 0xbf]
    );
}

#[test]
fn a_stored_keypair_loads_again() {
    let (made, private) = from_secret([3u8; 32]).unwrap();
    let loaded = load_stored(made.public_key_pem.clone(), &private).unwrap();
    assert_eq!(loaded.signing.secret, made.signing.secret);
    assert_eq!(loaded.verifying, made.verifying);
    assert!(matches!(
        load_stored(made.public_key_pem.clone(), "junk"),
        Err(KeypairError::StoredPrivateKey)
    ));
    assert!(matches!(
        load_stored("junk".to_string(), &private),
        Err(KeypairError::StoredPublicKey)
    ));
}

#[test]
fn a_new_keypair_is_made_once() {
    let (made, stored) = load_or_generate(None).unwrap();
    let (loaded, new) = load_or_generate(stored).unwrap();
    assert!(new.is_none());
    assert_eq!(loaded.signing.secret, made.signing.secret);
    assert_eq!(loaded.public_key_pem, made.public_key_pem);
    let (other, _) = load_or_generate(None).unwrap();
    assert_ne!(other.signing.secret, made.signing.secret);
}

#[test]
fn version_2_blobs_are_wire_forms() {
    let payload = LicensePayload { version: KEY_VERSION_V2, ..test_payload() };
    let bytes = payload.to_bytes();
    let read = LicensePayload::from_bytes_v2(&bytes).unwrap();
    assert_eq!(read, payload);
    assert_eq!(read.to_bytes(), bytes);
    let mut changed = bytes.clone();
    changed[1] ^= 1;
    assert_ne!(LicensePayload::from_bytes_v2(&changed).unwrap(), payload);
    let mut longer = bytes.clone();
    longer.push(0);
    assert!(LicensePayload::from_bytes_v2(&longer).is_err());
    assert!(LicensePayload::from_bytes_v2(&bytes[..82]).is_err());
}

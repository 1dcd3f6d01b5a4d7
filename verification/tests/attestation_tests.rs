use qrap_core::attestation::{Attestation, AttestationBuilder, AttestationError};

#[test]
fn test_attestation_creation() {
    let data = b"test data";
    let attestation = Attestation::new(data, 4, 10, true);
    assert!(attestation.is_ok());

    let attestation = attestation.unwrap();
    assert!(!attestation.id.is_empty());
    assert!(!attestation.data_hash.is_empty());
    assert!(!attestation.signature.is_empty());
    assert_eq!(attestation.num_qubits, 4);
    assert_eq!(attestation.iterations, 10);
    assert!(attestation.success);
}

#[test]
fn test_attestation_verification() {
    let data = b"test data";
    let attestation = Attestation::new(data, 4, 10, true).unwrap();
    assert!(attestation.verify().is_ok());
}

#[test]
fn test_attestation_builder() {
    let attestation = AttestationBuilder::new()
        .with_data(b"test")
        .with_qubits(8)
        .with_iterations(100)
        .with_success(true)
        .build();

    assert!(attestation.is_ok());
    let attestation = attestation.unwrap();
    assert_eq!(attestation.num_qubits, 8);
    assert_eq!(attestation.iterations, 100);
}

#[test]
fn test_attestation_expiry() {
    let data = b"test data";
    let attestation = Attestation::new(data, 4, 10, true).unwrap();

    assert!(!attestation.is_expired(3600));
    assert!(attestation.is_expired(0) || !attestation.is_expired(1));
}

#[test]
fn test_attestation_json() {
    let data = b"test";
    let attestation = Attestation::new(data, 4, 10, true).unwrap();
    let json = attestation.to_json();

    assert!(json.contains("\"id\":"));
    assert!(json.contains("\"timestamp\":"));
    assert!(json.contains("\"data_hash\":"));
    assert!(json.contains("\"num_qubits\":4"));
}

#[test]
fn test_attestation_basic_creation() {
    let data = b"test attestation data";
    let attestation = Attestation::new(data, 4, 10, true);

    assert!(attestation.is_ok());
    let att = attestation.unwrap();
    assert!(!att.id.is_empty());
    assert!(!att.data_hash.is_empty());
    assert!(!att.signature.is_empty());
    assert_eq!(att.num_qubits, 4);
    assert_eq!(att.iterations, 10);
    assert!(att.success);
}

#[test]
fn test_attestation_different_data() {
    let data1 = b"data one";
    let data2 = b"data two";

    let att1 = Attestation::new(data1, 4, 10, true).unwrap();
    let att2 = Attestation::new(data2, 4, 10, true).unwrap();

    assert_ne!(att1.data_hash, att2.data_hash);
    assert_ne!(att1.id, att2.id);
}

#[test]
fn test_attestation_verification_valid() {
    let data = b"valid attestation";
    let attestation = Attestation::new(data, 8, 100, true).unwrap();

    let result = attestation.verify();
    assert!(result.is_ok());
    assert!(result.unwrap());
}

#[test]
fn test_attestation_verification_tampered() {
    let data = b"original data";
    let mut attestation = Attestation::new(data, 4, 10, true).unwrap();

    attestation.signature = "tampered_signature".to_string();

    let result = attestation.verify();
    assert!(result.is_err());
}

#[test]
fn test_attestation_expiry_not_expired() {
    let data = b"fresh attestation";
    let attestation = Attestation::new(data, 4, 10, true).unwrap();

    assert!(!attestation.is_expired(3600));
}

#[test]
fn test_attestation_json_format() {
    let data = b"json test";
    let attestation = Attestation::new(data, 4, 10, true).unwrap();
    let json = attestation.to_json();

    assert!(json.starts_with('{'));
    assert!(json.ends_with('}'));
    assert!(json.contains("\"id\":"));
    assert!(json.contains("\"timestamp\":"));
    assert!(json.contains("\"data_hash\":"));
    assert!(json.contains("\"signature\":"));
    assert!(json.contains("\"num_qubits\":4"));
    assert!(json.contains("\"iterations\":10"));
    assert!(json.contains("\"success\":true"));
}

#[test]
fn test_attestation_builder_basic() {
    let attestation = AttestationBuilder::new()
        .with_data(b"builder test")
        .with_qubits(8)
        .with_iterations(50)
        .with_success(true)
        .build();

    assert!(attestation.is_ok());
}

#[test]
fn test_attestation_builder_default_values() {
    let attestation = AttestationBuilder::new().build();

    assert!(attestation.is_ok());
    let att = attestation.unwrap();
    assert_eq!(att.num_qubits, 0);
    assert_eq!(att.iterations, 0);
    assert!(!att.success);
}

#[test]
fn test_attestation_with_empty_data() {
    let attestation = Attestation::new(&[], 4, 10, true);

    assert!(attestation.is_ok());
    let att = attestation.unwrap();
    assert!(!att.data_hash.is_empty());
}

#[test]
fn test_attestation_with_large_data() {
    let large_data: Vec<u8> = (0..10000).map(|i| (i % 256) as u8).collect();
    let attestation = Attestation::new(&large_data, 4, 10, true);

    assert!(attestation.is_ok());
}

#[test]
fn test_attestation_with_failure_status() {
    let data = b"failed operation";
    let attestation = Attestation::new(data, 4, 10, false).unwrap();

    assert!(!attestation.success);
    assert!(attestation.verify().is_ok());
}

#[test]
fn test_multiple_attestations_consistency() {
    let data = b"consistency test";

    let att1 = Attestation::new(data, 4, 10, true).unwrap();
    let att2 = Attestation::new(data, 4, 10, true).unwrap();

    assert_eq!(att1.data_hash, att2.data_hash);
}

#[test]
fn issued_at_empty_data_gives_known_texts() {
    let att = Attestation::issued_at(&[], 4, 10, true, 0);
    assert_eq!(att.data_hash, "e3b0c44298fc1c149afbf4c8996fb92427ae41e4649b934ca495991b7852b855");
    assert_eq!(att.id, "8cb68fe2a0d5762d32bc532e1c224d68");
    assert_eq!(att.signature, "e311a6fc44a01d3a41723b594de7e9d065c9d0c7dc6e2837069edf99def4e3b9");
    assert_eq!(att.timestamp, 0);
}

#[test]
fn issued_at_known_data_and_time() {
    let att = Attestation::issued_at(b"test", 2, 3, false, 1700000000);
    assert_eq!(att.data_hash, "9f86d081884c7d659a2feaa0c55ad015a3bf4f1b2b0b822cd15d6c15b0f00a08");
    assert_eq!(att.id, "2b0278c5079a712021f8f5a9833ad78d");
    assert_eq!(att.signature, "a891c3e58fb8a24dfef334b295f3c4e8213a5d4abbdbbfd0e8755de837aae319");
    assert_eq!(att.data_hash.len(), 64);
    assert_eq!(att.id.len(), 32);
    assert_eq!(att.signature.len(), 64);
}

#[test]
fn issued_at_verifies() {
    let att = Attestation::issued_at(b"abc", 4, 10, true, 42);
    assert_eq!(att.verify().unwrap(), true);
}

#[test]
fn tampered_fields_fail_verification() {
    let att = Attestation::issued_at(b"abc", 4, 10, true, 42);

    let mut t = att.clone();
    t.timestamp = 43;
    assert!(t.verify().is_err());

    let mut t = att.clone();
    t.id = "1ac336a05dac6a2913899d53e3106f78".to_string();
    assert!(t.verify().is_err());

    let mut t = att.clone();
    t.data_hash = "00".to_string();
    assert!(t.verify().is_err());

    // The counts and the outcome are signed too.
    let mut t = att.clone();
    t.num_qubits = 9;
    assert!(t.verify().is_err());

    let mut t = att.clone();
    t.iterations = 1;
    assert!(t.verify().is_err());

    let mut t = att.clone();
    t.success = false;
    assert!(t.verify().is_err());
}

#[test]
fn verification_error_message() {
    let mut att = Attestation::issued_at(b"abc", 4, 10, true, 42);
    att.signature = "x".to_string();
    match att.verify() {
        Err(AttestationError::VerificationError(m)) => assert_eq!(m, "Signature mismatch"),
        _ => panic!("expected a verification error"),
    }
}

#[test]
fn json_text_exact() {
    let att = Attestation::issued_at(b"abc", 4, 10, true, 42);
    let json = att.to_json();
    assert_eq!(
        json,
        "{\"id\":\"1ac336a05dac6a2913899d53e3106f77\",\"timestamp\":42,\"data_hash\":\"ba7816bf8f01cfea414140de5dae2223b00361a396177a9cb410ff61f20015ad\",\"signature\":\"2bcd7dc121bdb2b38db55946598edf078f7751c1aeabb7a9def79e680ecbca27\",\"num_qubits\":4,\"iterations\":10,\"success\":true}"
    );
}

#[test]
fn json_writes_large_numbers_and_false() {
    let mut att = Attestation::issued_at(b"", 0, 0, false, 0);
    att.id = "i".to_string();
    att.data_hash = "h".to_string();
    att.signature = "s".to_string();
    att.timestamp = u64::MAX;
    att.iterations = 1000;
    assert_eq!(
        att.to_json(),
        "{\"id\":\"i\",\"timestamp\":18446744073709551615,\"data_hash\":\"h\",\"signature\":\"s\",\"num_qubits\":0,\"iterations\":1000,\"success\":false}"
    );
}

#[test]
fn expiry_at_given_times() {
    let att = Attestation::issued_at(b"old attestation", 4, 10, true, 1000);
    assert!(!att.is_expired_at(1000, 0));
    assert!(att.is_expired_at(1001, 0));
    assert!(!att.is_expired_at(1060, 60));
    assert!(att.is_expired_at(1061, 60));
    // A clock before the attestation counts as no time passed.
    assert!(!att.is_expired_at(5, 0));
    // Expired once, expired later too.
    assert!(att.is_expired_at(u64::MAX, 60));
}

#[test]
fn builder_matches_new_on_same_inputs() {
    let a = AttestationBuilder::new()
        .with_data(b"abc")
        .with_qubits(4)
        .with_iterations(10)
        .with_success(true)
        .build()
        .unwrap();
    let b = Attestation::issued_at(b"abc", 4, 10, true, a.timestamp);
    assert_eq!(a.id, b.id);
    assert_eq!(a.data_hash, b.data_hash);
    assert_eq!(a.signature, b.signature);
    assert_eq!(a.num_qubits, 4);
    assert_eq!(a.iterations, 10);
    assert!(a.success);
}

#[test]
fn builder_later_setting_wins() {
    let a = AttestationBuilder::new()
        .with_data(b"first")
        .with_data(b"abc")
        .with_qubits(1)
        .with_qubits(4)
        .build()
        .unwrap();
    assert_eq!(a.data_hash, "ba7816bf8f01cfea414140de5dae2223b00361a396177a9cb410ff61f20015ad");
    assert_eq!(a.num_qubits, 4);
}

#[test]
fn json_escapes_text_fields() {
    let mut att = Attestation::issued_at(b"", 1, 2, true, 3);
    att.id = "a\"b".to_string();
    att.data_hash = "c\\d\ne".to_string();
    att.signature = "\u{1}\t\r\u{8}\u{c}\u{1f}é".to_string();
    assert_eq!(
        att.to_json(),
        "{\"id\":\"a\\\"b\",\"timestamp\":3,\"data_hash\":\"c\\\\d\\ne\",\"signature\":\"\\u0001\\t\\r\\b\\f\\u001fé\",\"num_qubits\":1,\"iterations\":2,\"success\":true}"
    );
}

#[test]
fn expiry_by_clock_reading() {
    let att = Attestation::issued_at(b"x", 4, 10, true, 100);
    // A clock before the epoch reads as zero: no time has passed.
    assert!(!att.is_expired_at_reading(None, 0));
    assert!(att.is_expired_at_reading(Some(101), 0));
    assert!(!att.is_expired_at_reading(Some(150), 50));
    assert!(att.is_expired_at_reading(Some(151), 50));
}

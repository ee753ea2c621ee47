use provn_sdk::{sign_claim, verify_claim, Claim, Keypair};

#[test]
fn test_sign_verify_flow() {
    let key = Keypair::from_bytes(&[0u8; 32]);
    let claim = Claim::new_with_timestamp("Hello World".to_string(), 123456789);

    let signed = sign_claim(&claim, &key).expect("Sign failed");

    // Verify locally
    let valid = verify_claim(&signed).expect("Verify failed");
    assert!(valid);
}

#[test]
fn test_canonical_json_order() {
    let claim = Claim {
        data: "test".to_string(),
        metadata: Some("meta".to_string()),
        timestamp: 123,
    };
    let json = String::from_utf8(claim.to_signable_bytes().unwrap()).unwrap();
    // data comes before metadata comes before timestamp
    assert_eq!(json, r#"{"data":"test","metadata":"meta","timestamp":123}"#);
}

#[test]
fn test_tamper_detection() {
    let key = Keypair::from_bytes(&[0u8; 32]);
    let claim = Claim::new_with_timestamp("Sensitive Data".to_string(), 123456789);

    let mut signed = sign_claim(&claim, &key).expect("Sign failed");

    // Tamper with data
    signed.claim.data = "Tampered Data".to_string();

    let result = verify_claim(&signed);
    assert!(result.is_err());
}

use soldier_core::policy::cert_json::{extract_json_number_token, extract_json_str};
use soldier_core::policy::f1_gate::parse_f1_cert;
use soldier_core::policy::guard::{
    compute_cancel_batch, hex_encode, is_open_intent, sha256, F1CertFields, F1CertStatus,
    F1Gate, F1GateConfig, F1RuntimeBindings, PolicyGuardConfig,
};

fn hex(data: &[u8]) -> String {
    hex_encode(&sha256(data))
}

#[test]
fn sha256_matches_standard_vectors() {
    assert_eq!(
        hex(b""),
        "e3b0c44298fc1c149afbf4c8996fb92427ae41e4649b934ca495991b7852b855"
    );
    assert_eq!(
        hex(b"abc"),
        "ba7816bf8f01cfea414140de5dae2223b00361a396177a9cb410ff61f20015ad"
    );
    assert_eq!(
        hex(b"abcdbcdecdefdefgefghfghighijhijkijkljklmklmnlmnomnopnopq"),
        "248d6a61d20638b8e5c026930c3e6039a33ce45964ff2167f6ecedd419db06c1"
    );
}

#[test]
fn sha256_of_a_message_spanning_two_blocks() {
    let data = vec![b'a'; 1000];
    assert_eq!(
        hex(&data),
        "41edece42d63e8d9bf515a9ba6932e1c20cbc9f5a5d134645adb5db1b9737ea3"
    );
}

#[test]
fn hex_encode_is_lowercase_two_digits_per_byte() {
    assert_eq!(hex_encode(&[0x00, 0x0f, 0xa5, 0xff]), "000fa5ff");
    assert_eq!(hex_encode(&[]), "");
}

fn runtime() -> F1RuntimeBindings {
    F1RuntimeBindings {
        contract_version: "5.2".to_string(),
        build_id: "abc123".to_string(),
        runtime_config_hash: "deadbeef".to_string(),
    }
}

fn cert_json(status: &str, version: &str) -> String {
    format!(
        "{{\"status\": \"{}\", \"generated_ts_ms\": 1000000, \"build_id\": \"abc123\", \"runtime_config_hash\": \"deadbeef\", \"contract_version\": \"{}\"}}",
        status, version
    )
}

fn parse(json: &str) -> Option<F1CertFields> {
    let ts = extract_json_number_token(json, "generated_ts_ms").map(|t| t.parse::<u64>().unwrap());
    parse_f1_cert(json, ts)
}

#[test]
fn f1_valid_certificate_passes() {
    let mut gate = F1Gate::new();
    let config = F1GateConfig::default();
    let cert = parse(&cert_json("PASS", "5.2"));
    assert!(cert.is_some());
    let status = gate.evaluate(&cert, 1_000_000 + 5_000, &config, &runtime());
    assert_eq!(status, F1CertStatus::Valid);
    assert_eq!(gate.last_status, F1CertStatus::Valid);
    assert_eq!(gate.f1_cert_age_s, 5);
    assert!(!status.requires_reduce_only());
}

#[test]
fn f1_missing_certificate_is_missing() {
    let mut gate = F1Gate::new();
    let config = F1GateConfig::default();
    let status = gate.evaluate(&parse("   "), 5, &config, &runtime());
    assert_eq!(status, F1CertStatus::Missing);
    assert_eq!(gate.f1_cert_age_s, 0);
    assert!(status.requires_reduce_only());
}

#[test]
fn f1_failed_certificate_is_fail() {
    let mut gate = F1Gate::new();
    let status = gate.evaluate(&parse(&cert_json("FAIL", "5.2")), 1_002_000, &F1GateConfig::default(), &runtime());
    assert_eq!(status, F1CertStatus::Fail);
    assert_eq!(gate.f1_cert_age_s, 2);
}

#[test]
fn f1_stale_certificate_is_stale_even_after_a_valid_one() {
    let mut gate = F1Gate::new();
    let config = F1GateConfig::default();
    let cert = parse(&cert_json("PASS", "5.2"));
    assert_eq!(gate.evaluate(&cert, 1_000_000, &config, &runtime()), F1CertStatus::Valid);
    let later = 1_000_000 + 86_400_000 + 1;
    assert_eq!(gate.evaluate(&cert, later, &config, &runtime()), F1CertStatus::Stale);
}

#[test]
fn f1_version_prefix_and_binding_mismatch_are_invalid() {
    let mut gate = F1Gate::new();
    let config = F1GateConfig::default();
    assert_eq!(
        gate.evaluate(&parse(&cert_json("PASS", "v5.2")), 1_000_000, &config, &runtime()),
        F1CertStatus::Invalid
    );
    assert_eq!(
        gate.evaluate(&parse(&cert_json("PASS", "5.3")), 1_000_000, &config, &runtime()),
        F1CertStatus::Invalid
    );
}

#[test]
fn f1_blocked_opens_are_counted() {
    let mut gate = F1Gate::default();
    gate.record_blocked_open();
    gate.record_blocked_open();
    assert_eq!(gate.f1_cert_gate_block_opens_total, 2);
    let config = F1GateConfig::default();
    assert_eq!(config.cert_path, "artifacts/F1_CERT.json");
    assert_eq!(config.f1_cert_freshness_window_s, 86_400);
}

#[test]
fn json_string_extraction_skips_keys_inside_values_and_decodes_escapes() {
    // The first quoted "status" stands inside a string value (odd quote count) and is skipped.
    let json = r#"{"x": "a "status" b", "status": "PA\"SS\n"}"#;
    assert_eq!(extract_json_str(json, "status"), Some("PA\"SS\n".to_string()));
    assert_eq!(extract_json_str(json, "missing"), None);
    assert_eq!(extract_json_str(r#"{"status": 5}"#, "status"), None);
    assert_eq!(extract_json_str(r#"{"status": "unterminated"#, "status"), None);
    assert_eq!(extract_json_str("{\"a\":\t \"x\"}", "a"), Some("x".to_string()));
}

#[test]
fn json_number_token_takes_number_characters() {
    assert_eq!(
        extract_json_number_token(r#"{"generated_ts_ms": 1.7e12, "x": 1}"#, "generated_ts_ms"),
        Some("1.7e12".to_string())
    );
    assert_eq!(extract_json_number_token(r#"{"generated_ts_ms": "1"}"#, "generated_ts_ms"), None);
}

#[test]
fn cancel_batch_is_bounded_by_the_batch_maximum() {
    let mut config = PolicyGuardConfig::default();
    config.cancel_open_batch_max = 2;
    let ids: Vec<String> = vec!["a".to_string(), "b".to_string(), "c".to_string()];
    let batch = compute_cancel_batch(&ids, &config);
    assert_eq!(batch.order_ids, vec!["a".to_string(), "b".to_string()]);
    assert!(batch.has_more);
    let small = compute_cancel_batch(&ids[..1], &config);
    assert_eq!(small.order_ids, vec!["a".to_string()]);
    assert!(!small.has_more);
}

#[test]
fn only_explicit_reduce_only_is_not_an_open() {
    assert!(is_open_intent(None));
    assert!(is_open_intent(Some(false)));
    assert!(!is_open_intent(Some(true)));
}

use aether_quantum_vault::digest::{sha256_hex, to_hex_lower};
use aether_quantum_vault::oracle::OracleEngine;

#[test]
fn sha256_known_vectors() {
    assert_eq!(
        sha256_hex(b"abc"),
        "ba7816bf8f01cfea414140de5dae2223b00361a396177a9cb410ff61f20015ad"
    );
    assert_eq!(
        sha256_hex(b""),
        "e3b0c44298fc1c149afbf4c8996fb92427ae41e4649b934ca495991b7852b855"
    );
}

#[test]
fn hex_rendering() {
    assert_eq!(to_hex_lower(&[10, 20, 30]), "0a141e");
    assert_eq!(to_hex_lower(&[0x00, 0xff, 0x9a]), "00ff9a");
    assert_eq!(to_hex_lower(&[]), "");
}

#[test]
fn attestation_signature_hashes_report_then_oracle_id() {
    let oracle = OracleEngine::new("oracle_001".to_string());
    let sig = oracle.attestation_signature("{\"score\":86}");
    assert_eq!(sig, sha256_hex(b"{\"score\":86}oracle_001"));
    assert_eq!(sig.len(), 64);
    assert!(oracle.verify_attestation(&sig));
    let other = OracleEngine::new("oracle_002".to_string());
    assert_ne!(other.attestation_signature("{\"score\":86}"), sig);
}

#[test]
fn signature_format_check() {
    let oracle = OracleEngine::new("o".to_string());
    assert!(!oracle.verify_attestation(""));
    assert!(!oracle.verify_attestation("abc"));
    assert!(oracle.verify_attestation(&"a".repeat(64)));
    assert!(!oracle.verify_attestation(&"a".repeat(65)));
}

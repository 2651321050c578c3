//! The authenticity oracle: signs attestations of audit reports so that the
//! escrow can check that a score comes from this oracle.

use vstd::prelude::*;
use crate::digest::{hex_lower, lemma_hex_lower_ascii, sha256_hex, sha256_spec};

verus! {

/// Generates oracle attestations from audit reports.
pub struct OracleEngine {
    /// Oracle identifier
    oracle_id: String,
}

impl View for OracleEngine {
    type V = Seq<char>;

    /// The oracle's identifier.
    closed spec fn view(&self) -> Seq<char> {
        self.oracle_id@
    }
}

/// The signature of a serialized audit report: the lower-case hex SHA-256
/// digest of the report's UTF-8 bytes followed by the oracle id's UTF-8 bytes.
pub open spec fn attestation_signature_of(report_json: Seq<char>, oracle_id: Seq<char>) -> Seq<char> {
    hex_lower(sha256_spec(vstd::utf8::encode_utf8(report_json) + vstd::utf8::encode_utf8(oracle_id)))
}

/// Appends the bytes of `src` to `dst`.
fn push_bytes(dst: &mut Vec<u8>, src: &[u8])
    ensures
        final(dst)@ == old(dst)@ + src@,
{
    let n = src.len();
    for i in 0..n
        invariant
            n == src@.len(),
            dst@ == old(dst)@ + src@.take(i as int),
    {
        dst.push(src[i]);
        assert(src@.take(i + 1) =~= src@.take(i as int).push(src@[i as int]));
    }
    assert(src@.take(n as int) =~= src@);
}

impl OracleEngine {
    pub fn new(oracle_id: String) -> (r: Self)
        ensures
            r@ == oracle_id@,
    {
        Self { oracle_id }
    }

    /// The signature of an attestation for the audit report serialized as
    /// `report_json`: the SHA-256 digest, in lower-case hex, of the report
    /// followed by the oracle id.
    pub fn attestation_signature(&self, report_json: &str) -> (r: String)
        ensures
            r@ == attestation_signature_of(report_json@, self@),
            r@.len() == 64,
    {
        let mut data: Vec<u8> = Vec::new();
        push_bytes(&mut data, report_json.as_bytes());
        push_bytes(&mut data, self.oracle_id.as_str().as_bytes());
        sha256_hex(data.as_slice())
    }

    /// Check an attestation's signature format: non-empty and 64 bytes long.
    pub fn verify_attestation(&self, oracle_signature: &str) -> (r: bool)
        ensures
            r == (oracle_signature@.len() > 0 && oracle_signature.len() == 64),
    {
        !oracle_signature.is_empty() && oracle_signature.len() == 64
    }
}

/// Every signature the oracle produces passes its own format check.
pub proof fn law_signature_accepted(report_json: Seq<char>, oracle_id: Seq<char>)
    requires
        sha256_spec(vstd::utf8::encode_utf8(report_json) + vstd::utf8::encode_utf8(oracle_id)).len() == 32,
    ensures
        attestation_signature_of(report_json, oracle_id).len() > 0,
        vstd::utf8::encode_utf8(attestation_signature_of(report_json, oracle_id)).len() == 64,
{
    let d = sha256_spec(vstd::utf8::encode_utf8(report_json) + vstd::utf8::encode_utf8(oracle_id));
    lemma_hex_lower_ascii(d);
    vstd::utf8::is_ascii_chars_encode_utf8(hex_lower(d));
}

} // verus!

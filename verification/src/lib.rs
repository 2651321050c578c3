//! Campaign escrow, milestone verification, oracle attestation and the
//! integer rules of engagement-pod detection for creator campaigns, with
//! contracts checked by Verus.

pub mod types;
pub mod clock;
pub mod escrow;
pub mod accounting;
pub mod milestone;
pub mod laws;
pub mod operation_laws;
pub mod digest;
pub mod oracle;
pub mod reciprocity;
pub mod scoring;
pub mod messages;

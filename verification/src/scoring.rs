//! The sample-size and pod-count rules of the authenticity scoring engine.

use vstd::prelude::*;
use crate::types::ScoringError;

verus! {

/// Minimum number of follower accounts for a statistically meaningful bot analysis.
pub const MIN_ACCOUNTS: usize = 10;

/// Minimum first Betti number for engagement loops to count as pods.
pub const POD_BETA1_THRESHOLD: u32 = 2;

/// Bot analysis needs at least `MIN_ACCOUNTS` accounts.
pub fn check_follower_sample(provided: usize) -> (r: Result<(), ScoringError>)
    ensures
        r is Ok <==> provided >= MIN_ACCOUNTS,
        r is Err ==> r == Err::<(), ScoringError>(ScoringError::InsufficientData { required: MIN_ACCOUNTS, provided }),
{
    if provided < MIN_ACCOUNTS {
        Err(ScoringError::InsufficientData { required: MIN_ACCOUNTS, provided })
    } else {
        Ok(())
    }
}

/// Pod detection needs at least one engagement event.
pub fn check_event_sample(provided: usize) -> (r: Result<(), ScoringError>)
    ensures
        r is Ok <==> provided > 0,
        r is Err ==> r == Err::<(), ScoringError>(ScoringError::InsufficientData { required: 1, provided: 0 }),
{
    if provided == 0 {
        Err(ScoringError::InsufficientData { required: 1, provided: 0 })
    } else {
        Ok(())
    }
}

/// The number of pods reported for a first Betti number: every loop counts
/// once there are at least `POD_BETA1_THRESHOLD` of them, none below.
pub fn pods_detected(betti_1: u32) -> (r: u32)
    ensures
        r == (if betti_1 >= POD_BETA1_THRESHOLD { betti_1 } else { 0 }),
{
    if betti_1 >= POD_BETA1_THRESHOLD {
        betti_1
    } else {
        0
    }
}

} // verus!

//! Decimal rendering of integers and the messages of the library's errors.

use vstd::prelude::*;
use crate::types::{CampaignState, EscrowError, ScoringError};

verus! {

/// The decimal digits.
pub open spec fn decimal_alphabet() -> Seq<char> {
    seq!['0', '1', '2', '3', '4', '5', '6', '7', '8', '9']
}

/// Decimal rendering of `n`, without leading zeros.
pub open spec fn decimal(n: nat) -> Seq<char>
    decreases n,
{
    if n < 10 {
        seq![decimal_alphabet()[n as int]]
    } else {
        decimal(n / 10) + seq![decimal_alphabet()[(n % 10) as int]]
    }
}

/// Decimal rendering of a signed integer, with a leading `-` when negative.
pub open spec fn signed_decimal(v: int) -> Seq<char> {
    if v < 0 {
        seq!['-'] + decimal((-v) as nat)
    } else {
        decimal(v as nat)
    }
}

/// A number below 10 renders as its single digit; a larger one as the
/// rendering of its tenth followed by the digit of its last place.
pub proof fn law_decimal_digits(n: nat)
    ensures ({
        let digits = seq!['0', '1', '2', '3', '4', '5', '6', '7', '8', '9'];
        &&& n < 10 ==> decimal(n) == seq![digits[n as int]]
        &&& n >= 10 ==> decimal(n) == decimal(n / 10) + seq![digits[(n % 10) as int]]
    }),
{
}

fn decimal_digit(d: u64) -> (s: &'static str)
    requires
        d < 10,
    ensures
        s@ == seq![decimal_alphabet()[d as int]],
{
    match d {
        0 => {
            proof { reveal_strlit("0"); }
            "0"
        },
        1 => {
            proof { reveal_strlit("1"); }
            "1"
        },
        2 => {
            proof { reveal_strlit("2"); }
            "2"
        },
        3 => {
            proof { reveal_strlit("3"); }
            "3"
        },
        4 => {
            proof { reveal_strlit("4"); }
            "4"
        },
        5 => {
            proof { reveal_strlit("5"); }
            "5"
        },
        6 => {
            proof { reveal_strlit("6"); }
            "6"
        },
        7 => {
            proof { reveal_strlit("7"); }
            "7"
        },
        8 => {
            proof { reveal_strlit("8"); }
            "8"
        },
        _ => {
            proof { reveal_strlit("9"); }
            "9"
        },
    }
}

/// Appends the decimal rendering of `n` to `s`.
pub fn push_decimal(s: &mut String, n: u64)
    ensures
        final(s)@ == old(s)@ + decimal(n as nat),
    decreases n,
{
    if n >= 10 {
        push_decimal(s, n / 10);
    }
    s.append(decimal_digit(n % 10));
    assert(final(s)@ =~= old(s)@ + decimal(n as nat)) by {
        if n >= 10 {
            assert(decimal(n as nat) == decimal((n / 10) as nat) + seq![decimal_alphabet()[(n % 10) as int]]);
        }
    };
}

/// Appends the decimal rendering of `v` to `s`.
pub fn push_signed_decimal(s: &mut String, v: i64)
    ensures
        final(s)@ == old(s)@ + signed_decimal(v as int),
{
    if v < 0 {
        proof { reveal_strlit("-"); }
        s.append("-");
        let magnitude: u64 = if v == i64::MIN { 9223372036854775808u64 } else { (-v) as u64 };
        push_decimal(s, magnitude);
        assert(final(s)@ =~= old(s)@ + signed_decimal(v as int));
    } else {
        push_decimal(s, v as u64);
    }
}

/// The name of a campaign state.
pub open spec fn state_name(state: CampaignState) -> Seq<char> {
    match state {
        CampaignState::Created => "Created"@,
        CampaignState::Funded => "Funded"@,
        CampaignState::Active => "Active"@,
        CampaignState::Completed => "Completed"@,
        CampaignState::Settled => "Settled"@,
        CampaignState::Cancelled => "Cancelled"@,
        CampaignState::Refunded => "Refunded"@,
        CampaignState::Disputed => "Disputed"@,
        CampaignState::Arbitrated => "Arbitrated"@,
    }
}

/// The name of a campaign state.
pub fn state_name_str(state: CampaignState) -> (s: &'static str)
    ensures
        s@ == state_name(state),
{
    match state {
        CampaignState::Created => "Created",
        CampaignState::Funded => "Funded",
        CampaignState::Active => "Active",
        CampaignState::Completed => "Completed",
        CampaignState::Settled => "Settled",
        CampaignState::Cancelled => "Cancelled",
        CampaignState::Refunded => "Refunded",
        CampaignState::Disputed => "Disputed",
        CampaignState::Arbitrated => "Arbitrated",
    }
}

/// The message of an escrow error.
pub open spec fn escrow_error_message(e: EscrowError) -> Seq<char> {
    match e {
        EscrowError::InvalidStateTransition { from, to } =>
            "Cannot transition from "@ + state_name(from) + " to "@ + state_name(to),
        EscrowError::InsufficientFunds { required, available } =>
            "Need "@ + decimal(required as nat) + " lamports, have "@ + decimal(available as nat),
        EscrowError::AuthenticityBelowThreshold { score, threshold } =>
            "Auth score "@ + decimal(score as nat) + " below threshold "@ + decimal(threshold as nat),
        EscrowError::MilestoneNotVerified { milestone_id } =>
            "Milestone "@ + decimal(milestone_id as nat) + " not verified by oracle"@,
        EscrowError::MilestoneNotApproved { milestone_id } =>
            "Milestone "@ + decimal(milestone_id as nat) + " not approved by brand"@,
        EscrowError::MilestoneAlreadyCompleted { milestone_id } =>
            "Milestone "@ + decimal(milestone_id as nat) + " already completed (INV-02: no double spend)"@,
        EscrowError::DeadlineExceeded { deadline, current } =>
            "Deadline "@ + signed_decimal(deadline as int) + " passed, current time "@ + signed_decimal(current as int),
        EscrowError::Unauthorized(msg) => "Unauthorized: "@ + msg@,
        EscrowError::DoubleSpend { milestone_id } =>
            "INVARIANT VIOLATION INV-02: double spend on milestone "@ + decimal(milestone_id as nat),
    }
}

/// The message of a scoring error.
pub open spec fn scoring_error_message(e: ScoringError) -> Seq<char> {
    match e {
        ScoringError::InsufficientData { required, provided } =>
            "Need "@ + decimal(required as nat) + " data points, got "@ + decimal(provided as nat),
        ScoringError::InvalidFeatureVector(msg) => "Invalid features: "@ + msg@,
        ScoringError::GraphCapacityExceeded { max_points } =>
            "Graph capacity "@ + decimal(max_points as nat) + " exceeded"@,
        ScoringError::ComputationFailed(msg) => "Computation failed: "@ + msg@,
    }
}

impl EscrowError {
    /// The error's message.
    pub fn to_string(&self) -> (s: String)
        ensures
            s@ == escrow_error_message(*self),
    {
        let mut s = String::new();
        match self {
            EscrowError::InvalidStateTransition { from, to } => {
                s.append("Cannot transition from ");
                s.append(state_name_str(*from));
                s.append(" to ");
                s.append(state_name_str(*to));
            },
            EscrowError::InsufficientFunds { required, available } => {
                s.append("Need ");
                push_decimal(&mut s, *required);
                s.append(" lamports, have ");
                push_decimal(&mut s, *available);
            },
            EscrowError::AuthenticityBelowThreshold { score, threshold } => {
                s.append("Auth score ");
                push_decimal(&mut s, *score as u64);
                s.append(" below threshold ");
                push_decimal(&mut s, *threshold as u64);
            },
            EscrowError::MilestoneNotVerified { milestone_id } => {
                s.append("Milestone ");
                push_decimal(&mut s, *milestone_id as u64);
                s.append(" not verified by oracle");
            },
            EscrowError::MilestoneNotApproved { milestone_id } => {
                s.append("Milestone ");
                push_decimal(&mut s, *milestone_id as u64);
                s.append(" not approved by brand");
            },
            EscrowError::MilestoneAlreadyCompleted { milestone_id } => {
                s.append("Milestone ");
                push_decimal(&mut s, *milestone_id as u64);
                s.append(" already completed (INV-02: no double spend)");
            },
            EscrowError::DeadlineExceeded { deadline, current } => {
                s.append("Deadline ");
                push_signed_decimal(&mut s, *deadline);
                s.append(" passed, current time ");
                push_signed_decimal(&mut s, *current);
            },
            EscrowError::Unauthorized(msg) => {
                s.append("Unauthorized: ");
                s.append(msg.as_str());
            },
            EscrowError::DoubleSpend { milestone_id } => {
                s.append("INVARIANT VIOLATION INV-02: double spend on milestone ");
                push_decimal(&mut s, *milestone_id as u64);
            },
        }
        assert(s@ =~= escrow_error_message(*self));
        s
    }
}

impl ScoringError {
    /// The error's message.
    pub fn to_string(&self) -> (s: String)
        ensures
            s@ == scoring_error_message(*self),
    {
        let mut s = String::new();
        match self {
            ScoringError::InsufficientData { required, provided } => {
                s.append("Need ");
                push_decimal(&mut s, *required as u64);
                s.append(" data points, got ");
                push_decimal(&mut s, *provided as u64);
            },
            ScoringError::InvalidFeatureVector(msg) => {
                s.append("Invalid features: ");
                s.append(msg.as_str());
            },
            ScoringError::GraphCapacityExceeded { max_points } => {
                s.append("Graph capacity ");
                push_decimal(&mut s, *max_points as u64);
                s.append(" exceeded");
            },
            ScoringError::ComputationFailed(msg) => {
                s.append("Computation failed: ");
                s.append(msg.as_str());
            },
        }
        assert(s@ =~= scoring_error_message(*self));
        s
    }
}

} // verus!

//! Shared data types: creator identities, campaign escrow state and errors.

use vstd::prelude::*;

verus! {

/// A unique creator identity across platforms.
#[derive(Debug, Clone)]
pub struct CreatorId {
    pub platform: Platform,
    pub handle: String,
    pub internal_id: String,
}

/// Supported social media platforms.
#[derive(Debug, Clone, Copy, PartialEq, Eq, Hash, Structural)]
pub enum Platform {
    Instagram,
    TikTok,
    YouTube,
    X,
    Twitch,
}

/// Kinds of engagement actions.
#[derive(Debug, Clone, Copy, PartialEq, Eq, Structural)]
pub enum EngagementKind {
    Like,
    Comment,
    Share,
    Save,
    Follow,
    View,
    Reply,
}

/// Campaign lifecycle states.
#[derive(Debug, Clone, Copy, PartialEq, Eq, Structural)]
pub enum CampaignState {
    /// Brand has created the campaign but not funded it
    Created,
    /// Funds deposited into escrow
    Funded,
    /// Oracle verified the creator's authenticity; campaign is live
    Active,
    /// All milestones completed
    Completed,
    /// All funds released to the creator
    Settled,
    /// Campaign cancelled by mutual agreement
    Cancelled,
    /// Funds returned to the brand (timeout or cancel)
    Refunded,
    /// A milestone is under dispute
    Disputed,
    /// Dispute has been resolved by an arbitrator
    Arbitrated,
}

/// A campaign milestone definition.
#[derive(Debug, Clone)]
pub struct MilestoneDefinition {
    pub id: u8,
    pub description: String,
    /// Percentage of the total escrow paid for this milestone (0-100)
    pub payout_percentage: u8,
    /// Required engagement target, if any
    pub engagement_target: Option<u64>,
    /// Deadline for this specific milestone (Unix timestamp), if any
    pub deadline: Option<i64>,
}

/// Per-milestone escrow state.
#[derive(Debug, Clone)]
pub struct MilestoneState {
    pub definition: MilestoneDefinition,
    pub completed: bool,
    pub completed_at: Option<i64>,
    pub engagement_actual: Option<u64>,
    pub brand_approved: bool,
    pub oracle_verified: bool,
    pub evidence_cid: Option<String>,
    pub funds_released: bool,
}

/// Campaign escrow account.
#[derive(Debug, Clone)]
pub struct CampaignEscrow {
    pub state: CampaignState,
    pub brand_id: String,
    pub creator_id: String,
    pub total_amount: u64,
    pub released_amount: u64,
    pub min_authenticity_threshold: u8,
    pub verified_authenticity_score: Option<u8>,
    pub deadline: i64,
    pub terms_cid: String,
    pub proof_certificate_cid: Option<String>,
    pub milestones: Vec<MilestoneState>,
    pub created_at: i64,
}

/// Certificate chain record for proof verification.
#[derive(Debug, Clone)]
pub struct CABCertificate {
    pub runtime_version: String,
    pub theorem_count: u16,
    pub proof_lines: u16,
    pub lean4_proof_cid: String,
    pub safe_rust_cid: String,
    pub wasm_binary_cid: String,
    pub deployed_at: i64,
}

/// Errors from the scoring engine.
#[derive(Debug, Clone)]
pub enum ScoringError {
    InsufficientData { required: usize, provided: usize },
    InvalidFeatureVector(String),
    GraphCapacityExceeded { max_points: usize },
    ComputationFailed(String),
}

/// Errors from the escrow contract logic.
#[derive(Debug, Clone)]
pub enum EscrowError {
    InvalidStateTransition { from: CampaignState, to: CampaignState },
    InsufficientFunds { required: u64, available: u64 },
    AuthenticityBelowThreshold { score: u8, threshold: u8 },
    MilestoneNotVerified { milestone_id: u8 },
    MilestoneNotApproved { milestone_id: u8 },
    MilestoneAlreadyCompleted { milestone_id: u8 },
    DeadlineExceeded { deadline: i64, current: i64 },
    Unauthorized(String),
    DoubleSpend { milestone_id: u8 },
}

} // verus!

use vstd::prelude::*;
use crate::address::Address;

verus! {

/// A campaign was created.
#[derive(Clone, Copy, Debug, PartialEq, Eq)]
pub struct MemeRegistryCreated {
    pub meme_id: [u8; 16],
    pub start_time: i64,
    pub end_time: i64,
}

/// A contribution was accepted.
#[derive(Clone, Copy, Debug, PartialEq, Eq)]
pub struct ContributionMade {
    pub meme_id: [u8; 16],
    pub contributor: Address,
    /// What the contributor paid.
    pub amount: u64,
    /// The part that went to the fee recipient.
    pub commission_amount: u64,
    /// The part that was pooled.
    pub net_contribution_amount: u64,
    pub timestamp: i64,
}

/// A campaign was launched.
#[derive(Clone, Debug, PartialEq, Eq)]
pub struct MemeStarted {
    pub meme_id: [u8; 16],
    pub mint: Address,
    pub name: String,
    pub symbol: String,
    pub uri: String,
    pub total_funds: u64,
}

/// A contributor took their share of the tokens.
#[derive(Clone, Copy, Debug, PartialEq, Eq)]
pub struct TokensClaimed {
    pub meme_id: [u8; 16],
    pub contributor: Address,
    /// Number of tokens transferred.
    pub amount: u64,
}

/// The administrator collected what a settled campaign had left.
#[derive(Clone, Copy, Debug, PartialEq, Eq)]
pub struct RewardsSwept {
    pub meme_id: [u8; 16],
    pub fee_recipient: Address,
    /// Lamports transferred.
    pub amount: u64,
}

/// The administrator named a new fee recipient.
#[derive(Clone, Copy, Debug, PartialEq, Eq)]
pub struct FeeRecipientUpdated {
    pub old_wallet: Address,
    pub new_wallet: Address,
}

/// The administrator set the largest single contribution.
#[derive(Clone, Copy, Debug, PartialEq, Eq)]
pub struct MaxBuyAmountUpdated {
    pub old_amount: u64,
    pub new_amount: u64,
}

/// The administrator set the smallest single contribution.
#[derive(Clone, Copy, Debug, PartialEq, Eq)]
pub struct MinBuyAmountUpdated {
    pub old_amount: u64,
    pub new_amount: u64,
}

/// The administrator set the length of the contribution window.
#[derive(Clone, Copy, Debug, PartialEq, Eq)]
pub struct FundDurationUpdated {
    pub old_duration: i64,
    pub new_duration: i64,
}

/// The administrator set the upper bound on what a campaign may pool.
#[derive(Clone, Copy, Debug, PartialEq, Eq)]
pub struct MaxFundLimitUpdated {
    pub old_limit: u64,
    pub new_limit: u64,
}

/// The administrator set the commission.
#[derive(Clone, Copy, Debug, PartialEq, Eq)]
pub struct CommissionRateUpdated {
    pub old_rate: u8,
    pub new_rate: u8,
}

/// The administrator set the wait before claims open.
#[derive(Clone, Copy, Debug, PartialEq, Eq)]
pub struct ClaimAvailableTimeUpdated {
    pub old_time: i64,
    pub new_time: i64,
}

} // verus!

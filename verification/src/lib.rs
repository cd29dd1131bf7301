//! Pooled fundraising for token launches: contributors pool lamports in a campaign, the
//! campaign's creator spends the pool on a new token, and each contributor claims a share
//! of the tokens in proportion to what they pooled, exactly once.
//!
//! Every operation is a function from records and arguments to new records and a receipt
//! of what is left to do on the ledger. An operation that is rejected changes nothing.

pub mod accounts;
pub mod address;
pub mod admin;
pub mod books;
pub mod claim;
pub mod contribute;
pub mod encoding;
pub mod error;
pub mod events;
pub mod history;
pub mod instruction;
pub mod launch;
pub mod laws;
pub mod limits;
pub mod math;
pub mod pda;
pub mod registry;
pub mod state;
pub mod sweep;

pub use accounts::{
    AdminClaimRewards, ClaimTokens, Contribute, CreateMemeRegistry, Initialize, StartMeme,
    UpdateCommissionRate, UpdateFeeRecipient, UpdateFundDuration, UpdateMaxBuyAmount,
    UpdateMaxClaimAvailableTime, UpdateMaxFundLimit, UpdateMinBuyAmount,
};
pub use address::Address;
pub use admin::{
    initialize, update_commission_rate, update_fee_recipient, update_fund_duration,
    update_max_buy_amount, update_max_claim_available_time, update_max_fund_limit,
    update_min_buy_amount,
};
pub use claim::claim_tokens;
pub use contribute::contribute;
pub use error::MemeError;
pub use events::{
    ClaimAvailableTimeUpdated, CommissionRateUpdated, ContributionMade, FeeRecipientUpdated,
    FundDurationUpdated, MaxBuyAmountUpdated, MaxFundLimitUpdated, MemeRegistryCreated,
    MemeStarted, MinBuyAmountUpdated, RewardsSwept, TokensClaimed,
};
pub use launch::start_meme;
pub use registry::create_meme_registry;
pub use state::{Contribution, MemeRegistry, State};
pub use sweep::admin_claim_rewards;

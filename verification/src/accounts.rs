use vstd::prelude::*;
use crate::address::Address;
use crate::state::{Contribution, MemeRegistry, State};

verus! {

/// What `initialize` works on.
#[derive(Clone, Copy, Debug, PartialEq, Eq)]
pub struct Initialize {
    /// The configuration record, which the operation fills.
    pub state: State,
    /// The caller, who becomes the administrator.
    pub authority: Address,
}

/// What `create_meme_registry` works on.
#[derive(Clone, Copy, Debug, PartialEq, Eq)]
pub struct CreateMemeRegistry {
    /// The campaign record, which the operation fills.
    pub registry: MemeRegistry,
    pub state: State,
    /// The caller, who becomes the campaign's creator.
    pub authority: Address,
}

/// What `contribute` works on.
#[derive(Clone, Copy, Debug, PartialEq, Eq)]
pub struct Contribute {
    /// The campaign's holding address.
    pub vault: Address,
    pub registry: MemeRegistry,
    /// The contribution record, which the operation fills.
    pub contribution: Contribution,
    /// The caller.
    pub contributor: Address,
    /// What the caller can spend, in lamports.
    pub contributor_lamports: u64,
    pub state: State,
    /// The account presented to receive the commission.
    pub fee_recipient: Address,
}

/// What `start_meme` works on: the campaign and every account that the market maker's two
/// instructions name.
#[derive(Clone, Copy, Debug, PartialEq, Eq)]
pub struct StartMeme {
    pub registry: MemeRegistry,
    /// The campaign's holding address, which pays and signs.
    pub vault: Address,
    /// The bump of the holding address.
    pub vault_bump: u8,
    /// The token to create.
    pub mint: Address,
    pub mint_authority: Address,
    pub bonding_curve: Address,
    pub associated_bonding_curve: Address,
    pub global: Address,
    pub mpl_token_metadata: Address,
    pub metadata: Address,
    /// The caller.
    pub authority: Address,
    pub system_program: Address,
    pub token_program: Address,
    pub associated_token_program: Address,
    pub rent: Address,
    pub event_authority: Address,
    /// The market maker.
    pub pump_program: Address,
    /// The market maker's fee recipient.
    pub fee_recipient: Address,
    /// The holding address's account for the new token.
    pub associated_user: Address,
}

/// What `claim_tokens` works on.
#[derive(Clone, Copy, Debug, PartialEq, Eq)]
pub struct ClaimTokens {
    pub registry: MemeRegistry,
    pub contribution: Contribution,
    /// The caller.
    pub contributor: Address,
    /// The campaign's holding address.
    pub vault: Address,
    /// The bump of the holding address.
    pub vault_bump: u8,
    /// Lamports in the holding address.
    pub vault_lamports: u64,
    /// The holding address's token account.
    pub vault_token_account: Address,
    /// Tokens in the holding address's token account.
    pub vault_token_amount: u64,
    /// The caller's token account.
    pub user_token_account: Address,
    /// The token presented.
    pub mint: Address,
    /// The number of decimals of the token presented.
    pub mint_decimals: u8,
    pub state: State,
}

/// What `admin_claim_rewards` works on.
#[derive(Clone, Copy, Debug, PartialEq, Eq)]
pub struct AdminClaimRewards {
    pub registry: MemeRegistry,
    pub state: State,
    /// The campaign's holding address.
    pub vault: Address,
    /// The bump of the holding address.
    pub vault_bump: u8,
    /// The account presented to receive the lamports.
    pub fee_recipient: Address,
    /// The caller.
    pub authority: Address,
}

/// What `update_fee_recipient` works on.
#[derive(Clone, Copy, Debug, PartialEq, Eq)]
pub struct UpdateFeeRecipient {
    pub state: State,
    /// The caller.
    pub authority: Address,
}

/// What `update_max_buy_amount` works on.
#[derive(Clone, Copy, Debug, PartialEq, Eq)]
pub struct UpdateMaxBuyAmount {
    pub state: State,
    /// The caller.
    pub authority: Address,
}

/// What `update_min_buy_amount` works on.
#[derive(Clone, Copy, Debug, PartialEq, Eq)]
pub struct UpdateMinBuyAmount {
    pub state: State,
    /// The caller.
    pub authority: Address,
}

/// What `update_fund_duration` works on.
#[derive(Clone, Copy, Debug, PartialEq, Eq)]
pub struct UpdateFundDuration {
    pub state: State,
    /// The caller.
    pub authority: Address,
}

/// What `update_max_fund_limit` works on.
#[derive(Clone, Copy, Debug, PartialEq, Eq)]
pub struct UpdateMaxFundLimit {
    pub state: State,
    /// The caller.
    pub authority: Address,
}

/// What `update_commission_rate` works on.
#[derive(Clone, Copy, Debug, PartialEq, Eq)]
pub struct UpdateCommissionRate {
    pub state: State,
    /// The caller.
    pub authority: Address,
}

/// What `update_max_claim_available_time` works on.
#[derive(Clone, Copy, Debug, PartialEq, Eq)]
pub struct UpdateMaxClaimAvailableTime {
    pub state: State,
    /// The caller.
    pub authority: Address,
}

} // verus!

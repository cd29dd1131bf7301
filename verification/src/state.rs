use vstd::prelude::*;
use crate::address::{bytes_equal, Address};
use crate::limits::{
    MAX_COMMISSION_RATE, MAX_SOL_AMOUNT, MAX_TOKEN_CLAIM_AVAILABLE_TIME, MIN_SOL_AMOUNT,
};

verus! {

/// The protocol-wide configuration: one record, written by the administrator only.
#[derive(Clone, Copy, Debug, PartialEq, Eq)]
pub struct State {
    /// Receives the commission of every contribution and what is swept from settled campaigns.
    pub fee_recipient: Address,
    /// Largest single contribution, in lamports.
    pub max_buy_amount: u64,
    /// Smallest single contribution, in lamports.
    pub min_buy_amount: u64,
    /// The administrator.
    pub authority: Address,
    /// Length of a campaign's contribution window, in seconds.
    pub fund_duration: i64,
    /// Upper bound on what one campaign may pool, in lamports.
    pub max_fund_limit: u64,
    /// Commission, in percent of a contribution.
    pub commission_rate: u8,
    /// Seconds between the end of a campaign and the moment claims open.
    pub token_claim_available_time: i64,
}

impl State {
    /// What every configuration that the library has written satisfies.
    pub open spec fn wf(&self) -> bool {
        &&& MIN_SOL_AMOUNT <= self.min_buy_amount
        &&& self.min_buy_amount <= self.max_buy_amount
        &&& self.max_buy_amount <= MAX_SOL_AMOUNT
        &&& self.fund_duration > 0
        &&& self.commission_rate <= MAX_COMMISSION_RATE
        &&& self.token_claim_available_time <= MAX_TOKEN_CLAIM_AVAILABLE_TIME
    }
}

/// Whether two campaign identifiers are the same.
pub fn same_meme_id(a: &[u8; 16], b: &[u8; 16]) -> (r: bool)
    ensures
        r == (*a == *b),
{
    let r = bytes_equal(a.as_slice(), b.as_slice());
    proof {
        if r {
            assert(*a =~= *b);
        }
    }
    r
}

/// One fundraising campaign.
#[derive(Clone, Copy, Debug, PartialEq, Eq)]
pub struct MemeRegistry {
    /// The campaign's identifier; never changes.
    pub meme_id: [u8; 16],
    /// Sum of the net amounts of the contributions that have not been claimed yet.
    pub total_funds: u64,
    /// When the campaign was created.
    pub start_time: i64,
    /// Contributions are accepted strictly before this time.
    pub end_time: i64,
    /// The campaign's creator, who alone may launch it.
    pub authority: Address,
    /// Number of contributions ever accepted.
    pub contributor_count: u64,
    /// The campaign's token; the all-zero address until the campaign is launched.
    pub mint: Address,
    /// What the last claim found left in the vault, until the administrator sweeps it.
    pub unclaimed_rewards: u64,
    /// Number of contributions that have been claimed.
    pub claimed_count: u64,
}

impl MemeRegistry {
    /// What every campaign that the library has written satisfies.
    pub open spec fn wf(&self) -> bool {
        &&& self.claimed_count <= self.contributor_count
        &&& self.start_time <= self.end_time
    }

    /// Whether the campaign has a token.
    pub open spec fn is_started(&self) -> bool {
        self.mint != Address::spec_unset()
    }

    /// Whether every accepted contribution has been claimed.
    pub open spec fn is_settled(&self) -> bool {
        self.claimed_count == self.contributor_count
    }
}

/// One contributor's stake in one campaign.
#[derive(Clone, Copy, Debug, PartialEq, Eq)]
pub struct Contribution {
    /// The campaign contributed to.
    pub meme_id: [u8; 16],
    /// Who contributed.
    pub contributor: Address,
    /// What was pooled for the contributor: the contribution less the commission.
    pub amount: u64,
    /// When the contribution was made.
    pub timestamp: i64,
    /// Whether the contributor has taken their share of the tokens.
    pub is_claimed: bool,
}

} // verus!

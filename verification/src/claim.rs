use vstd::prelude::*;
use crate::accounts::ClaimTokens;
use crate::address::Address;
use crate::error::MemeError;
use crate::events::TokensClaimed;
use crate::math::{share_of, token_share};
use crate::pda::{seeds_view, signer_seeds_for_vault, vault_signer_seeds};
use crate::state::{same_meme_id, Contribution, MemeRegistry};

verus! {

/// A transfer of tokens between two token accounts, which `authority` signs for.
#[derive(Clone, Copy, Debug, PartialEq, Eq)]
pub struct TokenTransfer {
    pub from: Address,
    pub to: Address,
    pub authority: Address,
    pub mint: Address,
    pub amount: u64,
    pub decimals: u8,
}

/// What an accepted claim leaves to do and to report: the transfer of the contributor's
/// tokens, which the campaign's holding address signs with `signer_seeds`.
#[derive(Clone, Debug, PartialEq, Eq)]
pub struct ClaimReceipt {
    pub event: TokensClaimed,
    pub transfer: TokenTransfer,
    pub signer_seeds: Vec<Vec<u8>>,
}

/// What a claim receipt says, as mathematical values.
pub struct ClaimReceiptView {
    pub event: TokensClaimed,
    pub transfer: TokenTransfer,
    pub signer_seeds: Seq<Seq<u8>>,
}

impl View for ClaimReceipt {
    type V = ClaimReceiptView;

    open spec fn view(&self) -> ClaimReceiptView {
        ClaimReceiptView {
            event: self.event,
            transfer: self.transfer,
            signer_seeds: seeds_view(self.signer_seeds@),
        }
    }
}

/// The time from which the contributions of the campaign can be claimed.
pub open spec fn claim_opens_at(ctx: ClaimTokens) -> int {
    ctx.registry.end_time + ctx.state.token_claim_available_time
}

/// The tokens due to the contribution: its share of what the holding address holds now,
/// in proportion to what is still pooled, rounded down.
pub open spec fn tokens_due(ctx: ClaimTokens) -> int {
    share_of(
        ctx.contribution.amount as int,
        ctx.vault_token_amount as int,
        ctx.registry.total_funds as int,
    )
}

/// Whether this claim settles the campaign's last open contribution.
pub open spec fn is_last_claim(ctx: ClaimTokens) -> bool {
    ctx.registry.claimed_count + 1 == ctx.registry.contributor_count
}

/// Whether the accounts presented are those of the claim: the campaign `meme_id`, the
/// caller's own contribution to it, and the campaign's token.
pub open spec fn presents_the_right_accounts(ctx: ClaimTokens, meme_id: [u8; 16]) -> bool {
    &&& ctx.registry.meme_id == meme_id
    &&& ctx.contribution.meme_id == meme_id
    &&& ctx.contribution.contributor == ctx.contributor
    &&& ctx.mint == ctx.registry.mint
    &&& ctx.registry.is_started()
}

/// Why a claim is rejected, if it is. The first reason that holds, in this order, is the
/// one given: the campaign or the contribution is another one; the caller is not the
/// contributor; the token presented is not the campaign's, or the campaign has none; the
/// contribution is claimed already; it is empty; nothing is pooled; the opening time does
/// not fit in 64 bits; it has not come; no token is due; more is due than is held; the
/// contribution exceeds what is pooled; the count of claims is at its end.
pub open spec fn claim_rejection(ctx: ClaimTokens, meme_id: [u8; 16], now: i64) -> Option<MemeError> {
    if ctx.registry.meme_id != meme_id || ctx.contribution.meme_id != meme_id {
        Some(MemeError::InvalidMemeId)
    } else if ctx.contribution.contributor != ctx.contributor {
        Some(MemeError::Unauthorized)
    } else if ctx.mint != ctx.registry.mint || !ctx.registry.is_started() {
        Some(MemeError::InvalidMint)
    } else if ctx.contribution.is_claimed {
        Some(MemeError::AlreadyClaimed)
    } else if ctx.contribution.amount == 0 {
        Some(MemeError::ZeroContributionAmount)
    } else if ctx.registry.total_funds == 0 {
        Some(MemeError::NoFundsInRegistry)
    } else if claim_opens_at(ctx) > i64::MAX || claim_opens_at(ctx) < i64::MIN {
        Some(MemeError::ArithmeticOverflow)
    } else if now < claim_opens_at(ctx) {
        Some(MemeError::ClaimTimeNotReached)
    } else if tokens_due(ctx) == 0 {
        Some(MemeError::ZeroClaimAmount)
    } else if ctx.vault_token_amount < tokens_due(ctx) {
        Some(MemeError::InsufficientVaultBalance)
    } else if ctx.contribution.amount > ctx.registry.total_funds {
        Some(MemeError::ArithmeticOverflow)
    } else if ctx.registry.claimed_count + 1 > u64::MAX {
        Some(MemeError::ArithmeticOverflow)
    } else {
        None
    }
}

/// The records after a claim that is not rejected: the contribution is claimed, the
/// campaign has one claim more and the contribution's amount less in its pool, and the
/// last claim of a campaign notes what the holding address has left in lamports, if
/// anything.
pub open spec fn claimed(ctx: ClaimTokens) -> ClaimTokens {
    ClaimTokens {
        registry: MemeRegistry {
            total_funds: (ctx.registry.total_funds - ctx.contribution.amount) as u64,
            claimed_count: (ctx.registry.claimed_count + 1) as u64,
            unclaimed_rewards: if is_last_claim(ctx) && ctx.vault_lamports > 0 {
                ctx.vault_lamports
            } else {
                ctx.registry.unclaimed_rewards
            },
            ..ctx.registry
        },
        contribution: Contribution { is_claimed: true, ..ctx.contribution },
        ..ctx
    }
}

/// The receipt of a claim that is not rejected.
pub open spec fn claim_receipt(ctx: ClaimTokens) -> ClaimReceiptView {
    ClaimReceiptView {
        event: TokensClaimed {
            meme_id: ctx.registry.meme_id,
            contributor: ctx.contribution.contributor,
            amount: tokens_due(ctx) as u64,
        },
        transfer: TokenTransfer {
            from: ctx.vault_token_account,
            to: ctx.user_token_account,
            authority: ctx.vault,
            mint: ctx.mint,
            amount: tokens_due(ctx) as u64,
            decimals: ctx.mint_decimals,
        },
        signer_seeds: vault_signer_seeds(ctx.registry.meme_id@, ctx.vault_bump),
    }
}

/// Settles the caller's contribution to the campaign `meme_id` at the time `now`. An
/// accepted claim marks the contribution, updates the campaign, and comes back with the
/// token transfer to make; a rejected one changes nothing.
///
/// The balances in `ctx` are those read before the operation; the transfer of the receipt
/// is what changes the token balance. The records are to be stored only once the transfer
/// has been made.
pub fn claim_tokens(ctx: &mut ClaimTokens, meme_id: [u8; 16], now: i64) -> (r: Result<
    ClaimReceipt,
    MemeError,
>)
    ensures
        match claim_rejection(*old(ctx), meme_id, now) {
            Some(e) => r == Err::<ClaimReceipt, MemeError>(e) && *final(ctx) == *old(ctx),
            None => r is Ok && *final(ctx) == claimed(*old(ctx)) && r->Ok_0@ == claim_receipt(
                *old(ctx),
            ) && 0 < tokens_due(*old(ctx)) <= old(ctx).vault_token_amount,
        },
        old(ctx).registry.wf() && old(ctx).registry.claimed_count < old(ctx).registry.contributor_count ==> final(ctx).registry.wf(),
{
    if !same_meme_id(&ctx.registry.meme_id, &meme_id) || !same_meme_id(
        &ctx.contribution.meme_id,
        &meme_id,
    ) {
        return Err(MemeError::InvalidMemeId);
    }
    if !ctx.contribution.contributor.equals(&ctx.contributor) {
        return Err(MemeError::Unauthorized);
    }
    if !ctx.mint.equals(&ctx.registry.mint) || ctx.registry.mint.is_unset() {
        return Err(MemeError::InvalidMint);
    }
    if ctx.contribution.is_claimed {
        return Err(MemeError::AlreadyClaimed);
    }
    if ctx.contribution.amount == 0 {
        return Err(MemeError::ZeroContributionAmount);
    }
    if ctx.registry.total_funds == 0 {
        return Err(MemeError::NoFundsInRegistry);
    }
    let opens_at = match ctx.registry.end_time.checked_add(ctx.state.token_claim_available_time) {
        Some(t) => t,
        None => { return Err(MemeError::ArithmeticOverflow); },
    };
    if now < opens_at {
        return Err(MemeError::ClaimTimeNotReached);
    }
    let due = match token_share(
        ctx.contribution.amount,
        ctx.vault_token_amount,
        ctx.registry.total_funds,
    ) {
        Some(t) => t,
        None => { return Err(MemeError::ArithmeticOverflow); },
    };
    if due == 0 {
        return Err(MemeError::ZeroClaimAmount);
    }
    if (ctx.vault_token_amount as u128) < due {
        return Err(MemeError::InsufficientVaultBalance);
    }
    let user_tokens: u64 = due as u64;
    let total_funds = match ctx.registry.total_funds.checked_sub(ctx.contribution.amount) {
        Some(t) => t,
        None => { return Err(MemeError::ArithmeticOverflow); },
    };
    let claimed_count = match ctx.registry.claimed_count.checked_add(1) {
        Some(c) => c,
        None => { return Err(MemeError::ArithmeticOverflow); },
    };
    ctx.registry.total_funds = total_funds;
    ctx.contribution.is_claimed = true;
    ctx.registry.claimed_count = claimed_count;
    if claimed_count == ctx.registry.contributor_count && ctx.vault_lamports > 0 {
        ctx.registry.unclaimed_rewards = ctx.vault_lamports;
    }
    let event = TokensClaimed {
        meme_id: ctx.registry.meme_id,
        contributor: ctx.contribution.contributor,
        amount: user_tokens,
    };
    let transfer = TokenTransfer {
        from: ctx.vault_token_account,
        to: ctx.user_token_account,
        authority: ctx.vault,
        mint: ctx.mint,
        amount: user_tokens,
        decimals: ctx.mint_decimals,
    };
    let signer_seeds = signer_seeds_for_vault(&ctx.registry.meme_id, ctx.vault_bump);
    Ok(ClaimReceipt { event, transfer, signer_seeds })
}

} // verus!

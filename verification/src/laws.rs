use vstd::prelude::*;
use crate::accounts::{AdminClaimRewards, ClaimTokens, Contribute};
use crate::address::Address;
use crate::admin::initial_state;
use crate::claim::{
    claim_opens_at, claim_receipt, claim_rejection, claimed, presents_the_right_accounts,
    tokens_due, TokenTransfer,
};
use crate::contribute::{
    commission_amount, contribute_rejection, contribution_receipt, net_amount,
    ContributionReceiptView,
};
use crate::error::MemeError;
use crate::instruction::{lamports_gained, lemma_transfer_reads_back};
use crate::math::{
    commission_of, commission_split, lemma_commission_bounded, lemma_share_bounded,
    lemma_share_of_everything, share_of,
};
use crate::sweep::{sweep_receipt, sweep_rejection};

verus! {

/// What the account `who` has more, in lamports, once both transfers of a contribution
/// are carried out; negative where it has less.
pub open spec fn gained_by_contribution(receipt: ContributionReceiptView, who: Address) -> int {
    lamports_gained(receipt.commission_transfer, who) + lamports_gained(receipt.net_transfer, who)
}

/// With a rate of at most 10 percent, and an amount whose product with the rate fits in
/// 64 bits, a contribution is divided without loss: the commission is the rate's share
/// rounded down, the rest is the net amount, and the two add up to the contribution.
pub proof fn commission_split_is_exact(amount: u64, rate: u8)
    requires
        rate <= 10,
        amount * rate <= u64::MAX,
    ensures
        commission_split(amount, rate) is Ok,
        commission_split(amount, rate)->Ok_0.0 == commission_of(amount as int, rate as int),
        commission_split(amount, rate)->Ok_0.1 == amount - commission_of(amount as int, rate as int),
        commission_split(amount, rate)->Ok_0.0 + commission_split(amount, rate)->Ok_0.1 == amount,
{
    lemma_commission_bounded(amount as int, rate as int);
}

/// A contribution that is part of what is pooled is due the proportional share of the
/// tokens held, rounded down, and never more than is held. Something must be pooled for a
/// share to exist.
pub proof fn share_is_within_what_is_held(amount: u64, held: u64, total_funds: u64)
    requires
        amount <= total_funds,
        total_funds > 0,
    ensures
        share_of(amount as int, held as int, total_funds as int) == (amount * held) / (
        total_funds as int),
        0 <= share_of(amount as int, held as int, total_funds as int) <= held,
{
    lemma_share_bounded(amount as int, held as int, total_funds as int);
}

/// A contribution that comes when the campaign's window has closed is never accepted,
/// whatever the amount, the balance and the campaign's limit.
pub proof fn contribution_after_the_window_fails(
    ctx: Contribute,
    meme_id: [u8; 16],
    amount: u64,
    now: i64,
)
    requires
        now >= ctx.registry.end_time,
    ensures
        contribute_rejection(ctx, meme_id, amount, now) is Some,
{
}

/// A contribution within the configured bounds that comes to its campaign when the window
/// has closed, with the configured fee recipient, is rejected as expired, whatever the
/// balance and the campaign's limit.
pub proof fn contribution_after_the_window_is_expired(
    ctx: Contribute,
    meme_id: [u8; 16],
    amount: u64,
    now: i64,
)
    requires
        now >= ctx.registry.end_time,
        ctx.state.min_buy_amount <= amount <= ctx.state.max_buy_amount,
        ctx.registry.meme_id == meme_id,
        ctx.fee_recipient == ctx.state.fee_recipient,
    ensures
        contribute_rejection(ctx, meme_id, amount, now) == Some(MemeError::FundExpired),
{
}

/// Under a well-formed configuration a contribution within its bounds always has a
/// commission: the overflow that `contribute` guards against cannot occur.
pub proof fn commission_exists_under_the_configured_bounds(ctx: Contribute, amount: u64)
    requires
        ctx.state.wf(),
        amount <= ctx.state.max_buy_amount,
    ensures
        commission_split(amount, ctx.state.commission_rate) is Ok,
        commission_amount(ctx, amount) + net_amount(ctx, amount) == amount,
{
    lemma_commission_bounded(amount as int, ctx.state.commission_rate as int);
    assert(amount * ctx.state.commission_rate <= u64::MAX) by (nonlinear_arith)
        requires
            amount <= 2_000_000_000,
            ctx.state.commission_rate <= 10,
    ;
}

/// Under a well-formed configuration, a contribution that comes before the campaign's
/// window closes is accepted whenever the amount is within the configured bounds and the
/// contributor can pay it, provided that it is made to this campaign with the configured
/// fee recipient, and that the campaign's limit and the range of its counter are not
/// exceeded.
pub proof fn contribution_within_the_window_succeeds(
    ctx: Contribute,
    meme_id: [u8; 16],
    amount: u64,
    now: i64,
)
    requires
        ctx.state.wf(),
        now < ctx.registry.end_time,
        ctx.state.min_buy_amount <= amount <= ctx.state.max_buy_amount,
        amount <= ctx.contributor_lamports,
        ctx.fee_recipient == ctx.state.fee_recipient,
        ctx.registry.meme_id == meme_id,
        ctx.registry.total_funds + net_amount(ctx, amount) + amount <= ctx.state.max_fund_limit,
        ctx.registry.contributor_count < u64::MAX,
    ensures
        contribute_rejection(ctx, meme_id, amount, now) is None,
{
    commission_exists_under_the_configured_bounds(ctx, amount);
}

/// A contribution creates and destroys nothing. The contributor pays the amount, the fee
/// recipient gets the commission, the holding address gets the rest, and no other account
/// is touched. The three accounts are taken to be different accounts.
pub proof fn contribution_conserves_lamports(
    ctx: Contribute,
    meme_id: [u8; 16],
    amount: u64,
    now: i64,
    bystander: Address,
)
    requires
        contribute_rejection(ctx, meme_id, amount, now) is None,
        ctx.contributor != ctx.fee_recipient,
        ctx.contributor != ctx.vault,
        ctx.fee_recipient != ctx.vault,
        bystander != ctx.contributor,
        bystander != ctx.fee_recipient,
        bystander != ctx.vault,
    ensures
        ({
            let receipt = contribution_receipt(ctx, meme_id, amount, now);
            &&& gained_by_contribution(receipt, ctx.contributor) == -amount
            &&& gained_by_contribution(receipt, ctx.fee_recipient) == commission_amount(
                ctx,
                amount,
            )
            &&& gained_by_contribution(receipt, ctx.vault) == net_amount(ctx, amount)
            &&& gained_by_contribution(receipt, bystander) == 0
            &&& gained_by_contribution(receipt, ctx.contributor) + gained_by_contribution(
                receipt,
                ctx.fee_recipient,
            ) + gained_by_contribution(receipt, ctx.vault) == 0
        }),
{
    lemma_transfer_reads_back(ctx.contributor, ctx.fee_recipient, commission_amount(ctx, amount));
    lemma_transfer_reads_back(ctx.contributor, ctx.vault, net_amount(ctx, amount));
}

/// A contribution that has been claimed is never claimed again: every later claim of it
/// is rejected, whatever else has happened to the campaign. The rejection says that the
/// contribution is claimed already whenever the caller, the campaign and the token
/// presented are the right ones.
pub proof fn claimed_contribution_is_not_claimed_again(
    first: ClaimTokens,
    meme_id: [u8; 16],
    now: i64,
    second: ClaimTokens,
    later_meme_id: [u8; 16],
    later: i64,
)
    requires
        claim_rejection(first, meme_id, now) is None,
        second.contribution == claimed(first).contribution,
    ensures
        claim_rejection(second, later_meme_id, later) is Some,
        later_meme_id == meme_id && second.registry.meme_id == meme_id && second.contributor
            == first.contributor && second.mint == second.registry.mint
            && second.registry.is_started() ==> claim_rejection(second, later_meme_id, later)
            == Some(MemeError::AlreadyClaimed),
{
}

/// A claim of an open contribution that is part of what is pooled, made once claims have
/// opened with the accounts of the claim, is accepted whenever a token is due. It moves
/// exactly the proportional share, rounded down and taken over the whole product, from
/// the holding address's token account to the caller's, with the holding address as
/// authority, and reports that number. The share never exceeds what is held. The opening
/// time and the count of claims are taken to fit in 64 bits.
pub proof fn claim_pays_the_proportional_share(ctx: ClaimTokens, meme_id: [u8; 16], now: i64)
    requires
        presents_the_right_accounts(ctx, meme_id),
        !ctx.contribution.is_claimed,
        0 < ctx.contribution.amount <= ctx.registry.total_funds,
        i64::MIN <= claim_opens_at(ctx) <= now,
        tokens_due(ctx) > 0,
        ctx.registry.claimed_count < u64::MAX,
    ensures
        claim_rejection(ctx, meme_id, now) is None,
        tokens_due(ctx) == (ctx.contribution.amount * ctx.vault_token_amount) / (
        ctx.registry.total_funds as int),
        tokens_due(ctx) <= ctx.vault_token_amount,
        claim_receipt(ctx).transfer == (TokenTransfer {
            from: ctx.vault_token_account,
            to: ctx.user_token_account,
            authority: ctx.vault,
            mint: ctx.mint,
            amount: tokens_due(ctx) as u64,
            decimals: ctx.mint_decimals,
        }),
        claim_receipt(ctx).transfer.amount == tokens_due(ctx),
        claim_receipt(ctx).event.amount == tokens_due(ctx),
        claimed(ctx).contribution.is_claimed,
{
    lemma_share_bounded(
        ctx.contribution.amount as int,
        ctx.vault_token_amount as int,
        ctx.registry.total_funds as int,
    );
}

/// A contribution that is marked as claimed is never claimed: every claim of it is
/// rejected, at any time and whatever is held and pooled, and the rejection says that it
/// is claimed already whenever the accounts presented are those of the claim.
pub proof fn claimed_contribution_is_rejected(ctx: ClaimTokens, meme_id: [u8; 16], now: i64)
    requires
        ctx.contribution.is_claimed,
    ensures
        claim_rejection(ctx, meme_id, now) is Some,
        presents_the_right_accounts(ctx, meme_id) ==> claim_rejection(ctx, meme_id, now) == Some(
            MemeError::AlreadyClaimed,
        ),
{
}

/// The contributor whose contribution is all that is pooled takes every token that is
/// held: the claim is accepted, what is due is what is held, and afterwards the pool is
/// empty, the contribution is claimed, and the campaign counts one claim more. The opening
/// time and the count of claims are taken to fit in 64 bits.
pub proof fn claim_of_the_whole_pool_takes_everything(
    ctx: ClaimTokens,
    meme_id: [u8; 16],
    now: i64,
)
    requires
        presents_the_right_accounts(ctx, meme_id),
        !ctx.contribution.is_claimed,
        ctx.contribution.amount == ctx.registry.total_funds,
        ctx.registry.total_funds > 0,
        i64::MIN <= claim_opens_at(ctx) <= now,
        ctx.vault_token_amount > 0,
        ctx.registry.claimed_count < u64::MAX,
    ensures
        claim_rejection(ctx, meme_id, now) is None,
        tokens_due(ctx) == ctx.vault_token_amount,
        claim_receipt(ctx).transfer.amount == ctx.vault_token_amount,
        claim_receipt(ctx).event.amount == ctx.vault_token_amount,
        claimed(ctx).registry.total_funds == 0,
        claimed(ctx).registry.claimed_count == ctx.registry.claimed_count + 1,
        claimed(ctx).contribution.is_claimed,
{
    lemma_share_of_everything(ctx.contribution.amount as int, ctx.vault_token_amount as int);
}

/// The configuration that `initialize` writes keeps every bound in its range, whatever
/// was asked for: the minimum is not above the maximum, and the commission is at most 10
/// percent.
pub proof fn initial_state_is_well_formed(
    authority: Address,
    fee_recipient: Address,
    initial_min_buy_amount: u64,
    initial_max_buy_amount: u64,
    initial_fund_duration: i64,
    initial_max_fund_limit: u64,
    initial_commission_rate: u8,
    initial_token_claim_available_time: i64,
)
    requires
        initial_fund_duration > 0,
        initial_min_buy_amount <= initial_max_buy_amount,
    ensures
        initial_state(
            authority,
            fee_recipient,
            initial_min_buy_amount,
            initial_max_buy_amount,
            initial_fund_duration,
            initial_max_fund_limit,
            initial_commission_rate,
            initial_token_claim_available_time,
        ).wf(),
{
}

/// A sweep moves exactly what the campaign had noted from the holding address to the fee
/// recipient, and once it is done a second sweep finds nothing to collect.
pub proof fn sweep_collects_once(ctx: AdminClaimRewards, meme_id: [u8; 16], again: AdminClaimRewards)
    requires
        sweep_rejection(ctx, meme_id) is None,
        ctx.vault != ctx.fee_recipient,
        again == crate::sweep::swept(ctx),
    ensures
        lamports_gained(sweep_receipt(ctx, meme_id).transfer, ctx.fee_recipient)
            == ctx.registry.unclaimed_rewards,
        lamports_gained(sweep_receipt(ctx, meme_id).transfer, ctx.vault)
            == -ctx.registry.unclaimed_rewards,
        sweep_rejection(again, meme_id) == Some(MemeError::NoRewardsToClaim),
{
    lemma_transfer_reads_back(ctx.vault, ctx.fee_recipient, ctx.registry.unclaimed_rewards);
}

} // verus!

use vstd::prelude::*;
use crate::accounts::Contribute;
use crate::error::MemeError;
use crate::events::ContributionMade;
use crate::instruction::{system_transfer, transfer_instruction, Instruction, InstructionView};
use crate::math::{commission_split, split_commission};
use crate::state::{same_meme_id, Contribution, MemeRegistry};

verus! {

/// What an accepted contribution leaves to do and to report: the commission goes to the
/// fee recipient first, then the net amount to the campaign's holding address.
#[derive(Clone, Debug, PartialEq, Eq)]
pub struct ContributionReceipt {
    pub event: ContributionMade,
    pub commission_transfer: Instruction,
    pub net_transfer: Instruction,
}

/// What a receipt says, as mathematical values.
pub struct ContributionReceiptView {
    pub event: ContributionMade,
    pub commission_transfer: InstructionView,
    pub net_transfer: InstructionView,
}

impl View for ContributionReceipt {
    type V = ContributionReceiptView;

    open spec fn view(&self) -> ContributionReceiptView {
        ContributionReceiptView {
            event: self.event,
            commission_transfer: self.commission_transfer@,
            net_transfer: self.net_transfer@,
        }
    }
}

/// The commission on a contribution of `amount` that is not rejected.
pub open spec fn commission_amount(ctx: Contribute, amount: u64) -> u64 {
    commission_split(amount, ctx.state.commission_rate)->Ok_0.0
}

/// The part of a contribution of `amount`, not rejected, that is pooled.
pub open spec fn net_amount(ctx: Contribute, amount: u64) -> u64 {
    commission_split(amount, ctx.state.commission_rate)->Ok_0.1
}

/// Why a contribution is rejected, if it is. The first reason that holds, in this order,
/// is the one given: the account presented for the commission is not the configured fee
/// recipient; the amount is under the minimum or over the maximum; the campaign is another
/// one; its window has closed; the contributor cannot pay the amount; the commission
/// cannot be computed or the pooled total does not fit in 64 bits; the pooled total, with
/// the net amount added, and the whole amount on top of it exceed the campaign's limit;
/// the count of contributors is at its end.
pub open spec fn contribute_rejection(ctx: Contribute, meme_id: [u8; 16], amount: u64, now: i64) -> Option<
    MemeError,
> {
    if ctx.fee_recipient != ctx.state.fee_recipient {
        Some(MemeError::InvalidFeeRecipient)
    } else if amount < ctx.state.min_buy_amount {
        Some(MemeError::BelowMinAmount)
    } else if amount > ctx.state.max_buy_amount {
        Some(MemeError::ExceedsMaxAmount)
    } else if ctx.registry.meme_id != meme_id {
        Some(MemeError::InvalidMemeId)
    } else if now >= ctx.registry.end_time {
        Some(MemeError::FundExpired)
    } else if ctx.contributor_lamports < amount {
        Some(MemeError::InsufficientBalance)
    } else if commission_split(amount, ctx.state.commission_rate) is Err {
        Some(MemeError::ArithmeticOverflow)
    } else if ctx.registry.total_funds + net_amount(ctx, amount) > u64::MAX {
        Some(MemeError::ArithmeticOverflow)
    } else if ctx.registry.total_funds + net_amount(ctx, amount) + amount
        > ctx.state.max_fund_limit {
        Some(MemeError::ExceedsMaxFundLimit)
    } else if ctx.registry.contributor_count + 1 > u64::MAX {
        Some(MemeError::MaxContributorsReached)
    } else {
        None
    }
}

/// The records after a contribution that is not rejected: the campaign has pooled the net
/// amount and counts one contributor more, and the contribution record holds the net
/// amount, unclaimed.
pub open spec fn contributed(ctx: Contribute, meme_id: [u8; 16], amount: u64, now: i64) -> Contribute {
    Contribute {
        registry: MemeRegistry {
            total_funds: (ctx.registry.total_funds + net_amount(ctx, amount)) as u64,
            contributor_count: (ctx.registry.contributor_count + 1) as u64,
            ..ctx.registry
        },
        contribution: Contribution {
            meme_id,
            contributor: ctx.contributor,
            amount: net_amount(ctx, amount),
            timestamp: now,
            is_claimed: false,
        },
        ..ctx
    }
}

/// The receipt of a contribution that is not rejected.
pub open spec fn contribution_receipt(ctx: Contribute, meme_id: [u8; 16], amount: u64, now: i64) -> ContributionReceiptView {
    ContributionReceiptView {
        event: ContributionMade {
            meme_id,
            contributor: ctx.contributor,
            amount,
            commission_amount: commission_amount(ctx, amount),
            net_contribution_amount: net_amount(ctx, amount),
            timestamp: now,
        },
        commission_transfer: transfer_instruction(
            ctx.contributor,
            ctx.fee_recipient,
            commission_amount(ctx, amount),
        ),
        net_transfer: transfer_instruction(ctx.contributor, ctx.vault, net_amount(ctx, amount)),
    }
}

/// Takes a contribution of `amount` lamports to the campaign `meme_id` at the time `now`.
/// An accepted contribution fills the contribution record, adds to the campaign, and
/// comes back with the two transfers to make; a rejected one changes nothing.
///
/// The contribution record is the one that the ledger has just created for this
/// contributor and this campaign: whatever it held is overwritten, and that there is one
/// record for each pair is the ledger's doing. The balance in `ctx` is the one read before
/// the operation; the transfers of the receipt are what changes it.
pub fn contribute(ctx: &mut Contribute, meme_id: [u8; 16], amount: u64, now: i64) -> (r: Result<
    ContributionReceipt,
    MemeError,
>)
    ensures
        match contribute_rejection(*old(ctx), meme_id, amount, now) {
            Some(e) => r == Err::<ContributionReceipt, MemeError>(e) && *final(ctx) == *old(ctx),
            None => r is Ok && *final(ctx) == contributed(*old(ctx), meme_id, amount, now)
                && r->Ok_0@ == contribution_receipt(*old(ctx), meme_id, amount, now),
        },
        old(ctx).registry.wf() ==> final(ctx).registry.wf(),
{
    if !ctx.fee_recipient.equals(&ctx.state.fee_recipient) {
        return Err(MemeError::InvalidFeeRecipient);
    }
    if amount < ctx.state.min_buy_amount {
        return Err(MemeError::BelowMinAmount);
    }
    if amount > ctx.state.max_buy_amount {
        return Err(MemeError::ExceedsMaxAmount);
    }
    if !same_meme_id(&ctx.registry.meme_id, &meme_id) {
        return Err(MemeError::InvalidMemeId);
    }
    if now >= ctx.registry.end_time {
        return Err(MemeError::FundExpired);
    }
    if ctx.contributor_lamports < amount {
        return Err(MemeError::InsufficientBalance);
    }
    let (commission, net) = match split_commission(amount, ctx.state.commission_rate) {
        Ok(parts) => parts,
        Err(e) => { return Err(e); },
    };
    let total_funds = match ctx.registry.total_funds.checked_add(net) {
        Some(t) => t,
        None => { return Err(MemeError::ArithmeticOverflow); },
    };
    match total_funds.checked_add(amount) {
        Some(exposure) => if exposure > ctx.state.max_fund_limit {
            return Err(MemeError::ExceedsMaxFundLimit);
        },
        None => { return Err(MemeError::ExceedsMaxFundLimit); },
    }
    let contributor_count = match ctx.registry.contributor_count.checked_add(1) {
        Some(c) => c,
        None => { return Err(MemeError::MaxContributorsReached); },
    };
    ctx.contribution = Contribution {
        meme_id,
        contributor: ctx.contributor,
        amount: net,
        timestamp: now,
        is_claimed: false,
    };
    ctx.registry.total_funds = total_funds;
    ctx.registry.contributor_count = contributor_count;
    let commission_transfer = system_transfer(&ctx.contributor, &ctx.fee_recipient, commission);
    let net_transfer = system_transfer(&ctx.contributor, &ctx.vault, net);
    let event = ContributionMade {
        meme_id,
        contributor: ctx.contributor,
        amount,
        commission_amount: commission,
        net_contribution_amount: net,
        timestamp: now,
    };
    Ok(ContributionReceipt { event, commission_transfer, net_transfer })
}

} // verus!

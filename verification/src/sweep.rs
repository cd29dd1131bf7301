use vstd::prelude::*;
use crate::accounts::AdminClaimRewards;
use crate::error::MemeError;
use crate::events::RewardsSwept;
use crate::instruction::{system_transfer, transfer_instruction, Instruction, InstructionView};
use crate::pda::{seeds_view, signer_seeds_for_vault, vault_signer_seeds};
use crate::state::{same_meme_id, MemeRegistry};

verus! {

/// What an accepted sweep leaves to do and to report: the transfer from the campaign's
/// holding address, which signs with `signer_seeds`, to the fee recipient.
#[derive(Clone, Debug, PartialEq, Eq)]
pub struct SweepReceipt {
    pub event: RewardsSwept,
    pub transfer: Instruction,
    pub signer_seeds: Vec<Vec<u8>>,
}

/// What a sweep receipt says, as mathematical values.
pub struct SweepReceiptView {
    pub event: RewardsSwept,
    pub transfer: InstructionView,
    pub signer_seeds: Seq<Seq<u8>>,
}

impl View for SweepReceipt {
    type V = SweepReceiptView;

    open spec fn view(&self) -> SweepReceiptView {
        SweepReceiptView {
            event: self.event,
            transfer: self.transfer@,
            signer_seeds: seeds_view(self.signer_seeds@),
        }
    }
}

/// Why a sweep is rejected, if it is. The first reason that holds, in this order, is the
/// one given: the campaign is another one; the caller is not the administrator; the
/// account presented is not the configured fee recipient; a contribution is still
/// unclaimed; nothing is left to collect.
pub open spec fn sweep_rejection(ctx: AdminClaimRewards, meme_id: [u8; 16]) -> Option<MemeError> {
    if ctx.registry.meme_id != meme_id {
        Some(MemeError::InvalidMemeId)
    } else if ctx.authority != ctx.state.authority {
        Some(MemeError::Unauthorized)
    } else if ctx.fee_recipient != ctx.state.fee_recipient {
        Some(MemeError::InvalidFeeRecipient)
    } else if !ctx.registry.is_settled() {
        Some(MemeError::NotAllTokensClaimed)
    } else if ctx.registry.unclaimed_rewards == 0 {
        Some(MemeError::NoRewardsToClaim)
    } else {
        None
    }
}

/// The records after a sweep that is not rejected: the campaign has nothing left to
/// collect.
pub open spec fn swept(ctx: AdminClaimRewards) -> AdminClaimRewards {
    AdminClaimRewards { registry: MemeRegistry { unclaimed_rewards: 0, ..ctx.registry }, ..ctx }
}

/// The receipt of a sweep that is not rejected: exactly what the campaign had noted goes
/// from the holding address to the fee recipient.
pub open spec fn sweep_receipt(ctx: AdminClaimRewards, meme_id: [u8; 16]) -> SweepReceiptView {
    SweepReceiptView {
        event: RewardsSwept {
            meme_id,
            fee_recipient: ctx.fee_recipient,
            amount: ctx.registry.unclaimed_rewards,
        },
        transfer: transfer_instruction(ctx.vault, ctx.fee_recipient, ctx.registry.unclaimed_rewards),
        signer_seeds: vault_signer_seeds(meme_id@, ctx.vault_bump),
    }
}

/// Collects for the fee recipient what the settled campaign `meme_id` has left. An
/// accepted sweep resets the campaign's note and comes back with the transfer to make; a
/// rejected one changes nothing.
pub fn admin_claim_rewards(ctx: &mut AdminClaimRewards, meme_id: [u8; 16]) -> (r: Result<
    SweepReceipt,
    MemeError,
>)
    ensures
        match sweep_rejection(*old(ctx), meme_id) {
            Some(e) => r == Err::<SweepReceipt, MemeError>(e) && *final(ctx) == *old(ctx),
            None => r is Ok && *final(ctx) == swept(*old(ctx)) && r->Ok_0@ == sweep_receipt(
                *old(ctx),
                meme_id,
            ),
        },
        old(ctx).registry.wf() ==> final(ctx).registry.wf(),
{
    if !same_meme_id(&ctx.registry.meme_id, &meme_id) {
        return Err(MemeError::InvalidMemeId);
    }
    if !ctx.authority.equals(&ctx.state.authority) {
        return Err(MemeError::Unauthorized);
    }
    if !ctx.fee_recipient.equals(&ctx.state.fee_recipient) {
        return Err(MemeError::InvalidFeeRecipient);
    }
    if ctx.registry.claimed_count != ctx.registry.contributor_count {
        return Err(MemeError::NotAllTokensClaimed);
    }
    if ctx.registry.unclaimed_rewards == 0 {
        return Err(MemeError::NoRewardsToClaim);
    }
    let amount = ctx.registry.unclaimed_rewards;
    let transfer = system_transfer(&ctx.vault, &ctx.fee_recipient, amount);
    let signer_seeds = signer_seeds_for_vault(&meme_id, ctx.vault_bump);
    ctx.registry.unclaimed_rewards = 0;
    let event = RewardsSwept { meme_id, fee_recipient: ctx.fee_recipient, amount };
    Ok(SweepReceipt { event, transfer, signer_seeds })
}

} // verus!

use vstd::prelude::*;
use crate::accounts::{
    Initialize, UpdateCommissionRate, UpdateFeeRecipient, UpdateFundDuration,
    UpdateMaxBuyAmount, UpdateMaxClaimAvailableTime, UpdateMaxFundLimit, UpdateMinBuyAmount,
};
use crate::address::Address;
use crate::error::MemeError;
use crate::events::{
    ClaimAvailableTimeUpdated, CommissionRateUpdated, FeeRecipientUpdated, FundDurationUpdated,
    MaxBuyAmountUpdated, MaxFundLimitUpdated, MinBuyAmountUpdated,
};
use crate::limits::{
    MAX_COMMISSION_RATE, MAX_FUND_LIMIT, MAX_SOL_AMOUNT, MAX_TOKEN_CLAIM_AVAILABLE_TIME,
    MIN_SOL_AMOUNT,
};
use crate::state::State;

verus! {

/// `amount` brought into the range that the protocol allows for a single contribution.
pub open spec fn clamp_buy_amount(amount: u64) -> u64 {
    if amount < MIN_SOL_AMOUNT {
        MIN_SOL_AMOUNT
    } else if amount > MAX_SOL_AMOUNT {
        MAX_SOL_AMOUNT
    } else {
        amount
    }
}

/// The configuration that `initialize` writes for values that it does not reject: every
/// bound is brought into the protocol's range, and the caller is the administrator.
pub open spec fn initial_state(
    authority: Address,
    fee_recipient: Address,
    initial_min_buy_amount: u64,
    initial_max_buy_amount: u64,
    initial_fund_duration: i64,
    initial_max_fund_limit: u64,
    initial_commission_rate: u8,
    initial_token_claim_available_time: i64,
) -> State {
    State {
        fee_recipient,
        max_buy_amount: clamp_buy_amount(initial_max_buy_amount),
        min_buy_amount: clamp_buy_amount(initial_min_buy_amount),
        authority,
        fund_duration: initial_fund_duration,
        max_fund_limit: if initial_max_fund_limit > MAX_FUND_LIMIT {
            MAX_FUND_LIMIT
        } else {
            initial_max_fund_limit
        },
        commission_rate: if initial_commission_rate > MAX_COMMISSION_RATE {
            MAX_COMMISSION_RATE
        } else {
            initial_commission_rate
        },
        token_claim_available_time: if initial_token_claim_available_time
            > MAX_TOKEN_CLAIM_AVAILABLE_TIME {
            MAX_TOKEN_CLAIM_AVAILABLE_TIME
        } else {
            initial_token_claim_available_time
        },
    }
}

/// `amount` brought into the range that the protocol allows for a single contribution.
pub fn clamped_buy_amount(amount: u64) -> (r: u64)
    ensures
        r == clamp_buy_amount(amount),
{
    if amount < MIN_SOL_AMOUNT {
        MIN_SOL_AMOUNT
    } else if amount > MAX_SOL_AMOUNT {
        MAX_SOL_AMOUNT
    } else {
        amount
    }
}

/// Writes the configuration, with the caller as administrator. A duration that is not
/// positive and a minimum above the maximum are rejected, in this order; every other
/// value out of range is brought into range.
///
/// The configuration record is the one that the ledger has just created: whatever it held
/// is overwritten, and that it is created once is the ledger's doing.
pub fn initialize(
    ctx: &mut Initialize,
    fee_recipient: Address,
    initial_min_buy_amount: u64,
    initial_max_buy_amount: u64,
    initial_fund_duration: i64,
    initial_max_fund_limit: u64,
    initial_commission_rate: u8,
    initial_token_claim_available_time: i64,
) -> (r: Result<(), MemeError>)
    ensures
        if initial_fund_duration <= 0 {
            r == Err::<(), MemeError>(MemeError::InvalidFundDuration) && *final(ctx) == *old(ctx)
        } else if initial_min_buy_amount > initial_max_buy_amount {
            r == Err::<(), MemeError>(MemeError::InvalidBuyAmount) && *final(ctx) == *old(ctx)
        } else {
            &&& r == Ok::<(), MemeError>(())
            &&& final(ctx).authority == old(ctx).authority
            &&& final(ctx).state == initial_state(
                old(ctx).authority,
                fee_recipient,
                initial_min_buy_amount,
                initial_max_buy_amount,
                initial_fund_duration,
                initial_max_fund_limit,
                initial_commission_rate,
                initial_token_claim_available_time,
            )
            &&& final(ctx).state.wf()
        },
{
    if initial_fund_duration <= 0 {
        return Err(MemeError::InvalidFundDuration);
    }
    if initial_min_buy_amount > initial_max_buy_amount {
        return Err(MemeError::InvalidBuyAmount);
    }
    ctx.state = State {
        fee_recipient,
        max_buy_amount: clamped_buy_amount(initial_max_buy_amount),
        min_buy_amount: clamped_buy_amount(initial_min_buy_amount),
        authority: ctx.authority,
        fund_duration: initial_fund_duration,
        max_fund_limit: if initial_max_fund_limit > MAX_FUND_LIMIT {
            MAX_FUND_LIMIT
        } else {
            initial_max_fund_limit
        },
        commission_rate: if initial_commission_rate > MAX_COMMISSION_RATE {
            MAX_COMMISSION_RATE
        } else {
            initial_commission_rate
        },
        token_claim_available_time: if initial_token_claim_available_time
            > MAX_TOKEN_CLAIM_AVAILABLE_TIME {
            MAX_TOKEN_CLAIM_AVAILABLE_TIME
        } else {
            initial_token_claim_available_time
        },
    };
    Ok(())
}

/// Names a new fee recipient. Only the administrator may, and the new recipient must
/// differ from the old one.
pub fn update_fee_recipient(ctx: &mut UpdateFeeRecipient, new_fee_recipient: Address) -> (r: Result<
    FeeRecipientUpdated,
    MemeError,
>)
    ensures
        if old(ctx).authority != old(ctx).state.authority {
            r == Err::<FeeRecipientUpdated, MemeError>(MemeError::Unauthorized) && *final(ctx)
                == *old(ctx)
        } else if old(ctx).state.fee_recipient == new_fee_recipient {
            r == Err::<FeeRecipientUpdated, MemeError>(MemeError::SameWalletAddress) && *final(ctx) == *old(ctx)
        } else {
            &&& r == Ok::<FeeRecipientUpdated, MemeError>(
                FeeRecipientUpdated {
                    old_wallet: old(ctx).state.fee_recipient,
                    new_wallet: new_fee_recipient,
                },
            )
            &&& *final(ctx) == (UpdateFeeRecipient {
                state: State { fee_recipient: new_fee_recipient, ..old(ctx).state },
                ..*old(ctx)
            })
        },
        old(ctx).state.wf() ==> final(ctx).state.wf(),
{
    if !ctx.authority.equals(&ctx.state.authority) {
        return Err(MemeError::Unauthorized);
    }
    let old_wallet = ctx.state.fee_recipient;
    if old_wallet.equals(&new_fee_recipient) {
        return Err(MemeError::SameWalletAddress);
    }
    ctx.state.fee_recipient = new_fee_recipient;
    Ok(FeeRecipientUpdated { old_wallet, new_wallet: new_fee_recipient })
}

/// Sets the largest single contribution. Only the administrator may; the new maximum may
/// not exceed the protocol's ceiling nor fall under the configured minimum. Whoever calls
/// and whatever is asked for, the minimum is not above the maximum afterwards if it was
/// not before.
pub fn update_max_buy_amount(ctx: &mut UpdateMaxBuyAmount, new_max_buy_amount: u64) -> (r: Result<
    MaxBuyAmountUpdated,
    MemeError,
>)
    ensures
        if old(ctx).authority != old(ctx).state.authority {
            r == Err::<MaxBuyAmountUpdated, MemeError>(MemeError::Unauthorized) && *final(ctx)
                == *old(ctx)
        } else if new_max_buy_amount > MAX_SOL_AMOUNT {
            r == Err::<MaxBuyAmountUpdated, MemeError>(MemeError::ExceedsMaxAllowedAmount)
                && *final(ctx) == *old(ctx)
        } else if new_max_buy_amount < old(ctx).state.min_buy_amount {
            r == Err::<MaxBuyAmountUpdated, MemeError>(MemeError::InvalidBuyAmount) && *final(ctx)
                == *old(ctx)
        } else {
            &&& r == Ok::<MaxBuyAmountUpdated, MemeError>(
                MaxBuyAmountUpdated {
                    old_amount: old(ctx).state.max_buy_amount,
                    new_amount: new_max_buy_amount,
                },
            )
            &&& *final(ctx) == (UpdateMaxBuyAmount {
                state: State { max_buy_amount: new_max_buy_amount, ..old(ctx).state },
                ..*old(ctx)
            })
        },
        old(ctx).state.wf() ==> final(ctx).state.wf(),
        old(ctx).state.min_buy_amount <= old(ctx).state.max_buy_amount ==> final(ctx).state.min_buy_amount
            <= final(ctx).state.max_buy_amount,
{
    if !ctx.authority.equals(&ctx.state.authority) {
        return Err(MemeError::Unauthorized);
    }
    if new_max_buy_amount > MAX_SOL_AMOUNT {
        return Err(MemeError::ExceedsMaxAllowedAmount);
    }
    if new_max_buy_amount < ctx.state.min_buy_amount {
        return Err(MemeError::InvalidBuyAmount);
    }
    let old_amount = ctx.state.max_buy_amount;
    ctx.state.max_buy_amount = new_max_buy_amount;
    Ok(MaxBuyAmountUpdated { old_amount, new_amount: new_max_buy_amount })
}

/// Sets the smallest single contribution. Only the administrator may; the new minimum may
/// not fall under the protocol's floor nor exceed the configured maximum. Whoever calls
/// and whatever is asked for, the minimum is not above the maximum afterwards if it was
/// not before.
pub fn update_min_buy_amount(ctx: &mut UpdateMinBuyAmount, new_min_buy_amount: u64) -> (r: Result<
    MinBuyAmountUpdated,
    MemeError,
>)
    ensures
        if old(ctx).authority != old(ctx).state.authority {
            r == Err::<MinBuyAmountUpdated, MemeError>(MemeError::Unauthorized) && *final(ctx)
                == *old(ctx)
        } else if new_min_buy_amount < MIN_SOL_AMOUNT {
            r == Err::<MinBuyAmountUpdated, MemeError>(MemeError::BelowMinAllowedAmount)
                && *final(ctx) == *old(ctx)
        } else if new_min_buy_amount > old(ctx).state.max_buy_amount {
            r == Err::<MinBuyAmountUpdated, MemeError>(MemeError::ExceedsMaxBuyAmount) && *final(ctx) == *old(ctx)
        } else {
            &&& r == Ok::<MinBuyAmountUpdated, MemeError>(
                MinBuyAmountUpdated {
                    old_amount: old(ctx).state.min_buy_amount,
                    new_amount: new_min_buy_amount,
                },
            )
            &&& *final(ctx) == (UpdateMinBuyAmount {
                state: State { min_buy_amount: new_min_buy_amount, ..old(ctx).state },
                ..*old(ctx)
            })
        },
        old(ctx).state.wf() ==> final(ctx).state.wf(),
        old(ctx).state.min_buy_amount <= old(ctx).state.max_buy_amount ==> final(ctx).state.min_buy_amount
            <= final(ctx).state.max_buy_amount,
{
    if !ctx.authority.equals(&ctx.state.authority) {
        return Err(MemeError::Unauthorized);
    }
    if new_min_buy_amount < MIN_SOL_AMOUNT {
        return Err(MemeError::BelowMinAllowedAmount);
    }
    if new_min_buy_amount > ctx.state.max_buy_amount {
        return Err(MemeError::ExceedsMaxBuyAmount);
    }
    let old_amount = ctx.state.min_buy_amount;
    ctx.state.min_buy_amount = new_min_buy_amount;
    Ok(MinBuyAmountUpdated { old_amount, new_amount: new_min_buy_amount })
}

/// Sets the length of the contribution window of campaigns created from now on. Only the
/// administrator may, and the length must be positive.
pub fn update_fund_duration(ctx: &mut UpdateFundDuration, new_fund_duration: i64) -> (r: Result<
    FundDurationUpdated,
    MemeError,
>)
    ensures
        if old(ctx).authority != old(ctx).state.authority {
            r == Err::<FundDurationUpdated, MemeError>(MemeError::Unauthorized) && *final(ctx)
                == *old(ctx)
        } else if new_fund_duration <= 0 {
            r == Err::<FundDurationUpdated, MemeError>(MemeError::InvalidFundDuration) && *final(ctx) == *old(ctx)
        } else {
            &&& r == Ok::<FundDurationUpdated, MemeError>(
                FundDurationUpdated {
                    old_duration: old(ctx).state.fund_duration,
                    new_duration: new_fund_duration,
                },
            )
            &&& *final(ctx) == (UpdateFundDuration {
                state: State { fund_duration: new_fund_duration, ..old(ctx).state },
                ..*old(ctx)
            })
        },
        old(ctx).state.wf() ==> final(ctx).state.wf(),
{
    if !ctx.authority.equals(&ctx.state.authority) {
        return Err(MemeError::Unauthorized);
    }
    if new_fund_duration <= 0 {
        return Err(MemeError::InvalidFundDuration);
    }
    let old_duration = ctx.state.fund_duration;
    ctx.state.fund_duration = new_fund_duration;
    Ok(FundDurationUpdated { old_duration, new_duration: new_fund_duration })
}

/// Sets the upper bound on what one campaign may pool. Only the administrator may.
pub fn update_max_fund_limit(ctx: &mut UpdateMaxFundLimit, new_max_fund_limit: u64) -> (r: Result<
    MaxFundLimitUpdated,
    MemeError,
>)
    ensures
        if old(ctx).authority != old(ctx).state.authority {
            r == Err::<MaxFundLimitUpdated, MemeError>(MemeError::Unauthorized) && *final(ctx)
                == *old(ctx)
        } else {
            &&& r == Ok::<MaxFundLimitUpdated, MemeError>(
                MaxFundLimitUpdated {
                    old_limit: old(ctx).state.max_fund_limit,
                    new_limit: new_max_fund_limit,
                },
            )
            &&& *final(ctx) == (UpdateMaxFundLimit {
                state: State { max_fund_limit: new_max_fund_limit, ..old(ctx).state },
                ..*old(ctx)
            })
        },
        old(ctx).state.wf() ==> final(ctx).state.wf(),
{
    if !ctx.authority.equals(&ctx.state.authority) {
        return Err(MemeError::Unauthorized);
    }
    let old_limit = ctx.state.max_fund_limit;
    ctx.state.max_fund_limit = new_max_fund_limit;
    Ok(MaxFundLimitUpdated { old_limit, new_limit: new_max_fund_limit })
}

/// Sets the commission. Only the administrator may, and the rate may not exceed 10
/// percent. Whoever calls and whatever is asked for, the rate is at most 10 percent
/// afterwards if it was before.
pub fn update_commission_rate(ctx: &mut UpdateCommissionRate, new_rate: u8) -> (r: Result<
    CommissionRateUpdated,
    MemeError,
>)
    ensures
        if old(ctx).authority != old(ctx).state.authority {
            r == Err::<CommissionRateUpdated, MemeError>(MemeError::Unauthorized) && *final(ctx)
                == *old(ctx)
        } else if new_rate > MAX_COMMISSION_RATE {
            r == Err::<CommissionRateUpdated, MemeError>(MemeError::CommissionRateTooHigh)
                && *final(ctx) == *old(ctx)
        } else {
            &&& r == Ok::<CommissionRateUpdated, MemeError>(
                CommissionRateUpdated { old_rate: old(ctx).state.commission_rate, new_rate },
            )
            &&& *final(ctx) == (UpdateCommissionRate {
                state: State { commission_rate: new_rate, ..old(ctx).state },
                ..*old(ctx)
            })
        },
        old(ctx).state.wf() ==> final(ctx).state.wf(),
        old(ctx).state.commission_rate <= MAX_COMMISSION_RATE ==> final(ctx).state.commission_rate
            <= MAX_COMMISSION_RATE,
{
    if !ctx.authority.equals(&ctx.state.authority) {
        return Err(MemeError::Unauthorized);
    }
    if new_rate > MAX_COMMISSION_RATE {
        return Err(MemeError::CommissionRateTooHigh);
    }
    let old_rate = ctx.state.commission_rate;
    ctx.state.commission_rate = new_rate;
    Ok(CommissionRateUpdated { old_rate, new_rate })
}

/// Sets the wait between the end of a campaign and the opening of claims. Only the
/// administrator may, and the wait may not exceed 24 hours.
pub fn update_max_claim_available_time(
    ctx: &mut UpdateMaxClaimAvailableTime,
    new_claim_available_time: i64,
) -> (r: Result<ClaimAvailableTimeUpdated, MemeError>)
    ensures
        if old(ctx).authority != old(ctx).state.authority {
            r == Err::<ClaimAvailableTimeUpdated, MemeError>(MemeError::Unauthorized) && *final(ctx) == *old(ctx)
        } else if new_claim_available_time > MAX_TOKEN_CLAIM_AVAILABLE_TIME {
            r == Err::<ClaimAvailableTimeUpdated, MemeError>(MemeError::InvalidFundDuration)
                && *final(ctx) == *old(ctx)
        } else {
            &&& r == Ok::<ClaimAvailableTimeUpdated, MemeError>(
                ClaimAvailableTimeUpdated {
                    old_time: old(ctx).state.token_claim_available_time,
                    new_time: new_claim_available_time,
                },
            )
            &&& *final(ctx) == (UpdateMaxClaimAvailableTime {
                state: State {
                    token_claim_available_time: new_claim_available_time,
                    ..old(ctx).state
                },
                ..*old(ctx)
            })
        },
        old(ctx).state.wf() ==> final(ctx).state.wf(),
{
    if !ctx.authority.equals(&ctx.state.authority) {
        return Err(MemeError::Unauthorized);
    }
    if new_claim_available_time > MAX_TOKEN_CLAIM_AVAILABLE_TIME {
        return Err(MemeError::InvalidFundDuration);
    }
    let old_time = ctx.state.token_claim_available_time;
    ctx.state.token_claim_available_time = new_claim_available_time;
    Ok(ClaimAvailableTimeUpdated { old_time, new_time: new_claim_available_time })
}

} // verus!

use vstd::prelude::*;
use vstd::arithmetic::div_mod::{lemma_div_is_ordered, lemma_div_multiples_vanish};
use vstd::arithmetic::mul::{lemma_mul_inequality, lemma_mul_is_commutative, lemma_mul_upper_bound};
use crate::error::MemeError;

verus! {

/// The commission on `amount` at `rate` percent, rounded down.
pub open spec fn commission_of(amount: int, rate: int) -> int {
    amount * rate / 100
}

/// A contribution divided into commission and net amount. The division fails where the
/// product of amount and rate does not fit in 64 bits, or where the commission would
/// exceed the amount.
pub open spec fn commission_split(amount: u64, rate: u8) -> Result<(u64, u64), MemeError> {
    if amount * rate > u64::MAX || commission_of(amount as int, rate as int) > amount {
        Err(MemeError::ArithmeticOverflow)
    } else {
        Ok(
            (
                commission_of(amount as int, rate as int) as u64,
                (amount - commission_of(amount as int, rate as int)) as u64,
            ),
        )
    }
}

/// The number of tokens due to a contribution of `amount` when `held` tokens stand
/// against `total_funds` pooled: the proportional share, rounded down.
pub open spec fn share_of(amount: int, held: int, total_funds: int) -> int {
    amount * held / total_funds
}

/// At a rate of at most 100 percent the commission never exceeds the amount.
pub proof fn lemma_commission_bounded(amount: int, rate: int)
    requires
        0 <= amount,
        0 <= rate <= 100,
    ensures
        0 <= commission_of(amount, rate) <= amount,
{
    lemma_mul_inequality(rate, 100, amount);
    lemma_mul_is_commutative(rate, amount);
    lemma_mul_is_commutative(100, amount);
    lemma_mul_inequality(0, rate, amount);
    lemma_mul_is_commutative(0, amount);
    lemma_div_is_ordered(amount * rate, amount * 100, 100);
    lemma_div_is_ordered(0, amount * rate, 100);
    lemma_div_multiples_vanish(amount, 100);
    assert(amount * 100 == 100 * amount);
}

/// The product of two 64-bit numbers fits in 128 bits.
pub proof fn lemma_product_fits(a: u64, b: u64)
    ensures
        0 <= a * b <= u128::MAX,
{
    lemma_mul_upper_bound(a as int, u64::MAX as int, b as int, u64::MAX as int);
    lemma_mul_inequality(0, a as int, b as int);
    assert(0xffff_ffff_ffff_ffff * 0xffff_ffff_ffff_ffff <= u128::MAX) by (nonlinear_arith);
}

/// A contributor whose stake is part of what is pooled gets at most what is held, and
/// never a negative number of tokens.
pub proof fn lemma_share_bounded(amount: int, held: int, total_funds: int)
    requires
        0 <= amount <= total_funds,
        0 < total_funds,
        0 <= held,
    ensures
        0 <= share_of(amount, held, total_funds) <= held,
{
    lemma_mul_inequality(amount, total_funds, held);
    lemma_mul_inequality(0, amount, held);
    lemma_div_is_ordered(amount * held, total_funds * held, total_funds);
    lemma_div_is_ordered(0, amount * held, total_funds);
    lemma_div_multiples_vanish(held, total_funds);
}

/// The sole contributor of a campaign gets everything that is held.
pub proof fn lemma_share_of_everything(amount: int, held: int)
    requires
        0 < amount,
    ensures
        share_of(amount, held, amount) == held,
{
    lemma_div_multiples_vanish(held, amount);
}

/// Divides a contribution into the commission, at `rate` percent and rounded down, and
/// the net amount that is pooled.
pub fn split_commission(amount: u64, rate: u8) -> (r: Result<(u64, u64), MemeError>)
    ensures
        r == commission_split(amount, rate),
{
    let product = match amount.checked_mul(rate as u64) {
        Some(p) => p,
        None => { return Err(MemeError::ArithmeticOverflow); },
    };
    let commission = product / 100;
    match amount.checked_sub(commission) {
        Some(net) => Ok((commission, net)),
        None => Err(MemeError::ArithmeticOverflow),
    }
}

/// The proportional share of `held` tokens due to a contribution of `amount`, computed in
/// 128 bits; `None` where nothing is pooled.
pub fn token_share(amount: u64, held: u64, total_funds: u64) -> (r: Option<u128>)
    ensures
        match r {
            Some(tokens) => total_funds > 0 && tokens == share_of(
                amount as int,
                held as int,
                total_funds as int,
            ),
            None => total_funds == 0,
        },
{
    proof {
        lemma_product_fits(amount, held);
        if total_funds > 0 {
            lemma_div_is_ordered(0, amount * held, total_funds as int);
            vstd::arithmetic::div_mod::lemma_div_nonincreasing(amount * held, total_funds as int);
        }
    }
    if total_funds == 0 {
        return None;
    }
    let product: u128 = (amount as u128) * (held as u128);
    Some(product / (total_funds as u128))
}

} // verus!

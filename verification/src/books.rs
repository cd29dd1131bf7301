use vstd::prelude::*;
use crate::accounts::{ClaimTokens, Contribute, CreateMemeRegistry};
use crate::claim::{claim_rejection, claimed, tokens_due};
use crate::contribute::{contribute_rejection, contributed};
use crate::error::MemeError;
use crate::math::{lemma_share_bounded, lemma_share_of_everything};
use crate::registry::new_registry;
use crate::state::{Contribution, MemeRegistry};

verus! {

/// What a contribution still has in the pool: its amount until it is claimed, nothing
/// after.
pub open spec fn open_amount(c: Contribution) -> int {
    if c.is_claimed {
        0
    } else {
        c.amount as int
    }
}

/// What the contributions of a campaign still have in the pool, together.
pub open spec fn open_funds(contributions: Seq<Contribution>) -> int
    decreases contributions.len(),
{
    if contributions.len() == 0 {
        0
    } else {
        open_funds(contributions.drop_last()) + open_amount(contributions.last())
    }
}

/// How many of the contributions of a campaign are claimed.
pub open spec fn claims_made(contributions: Seq<Contribution>) -> int
    decreases contributions.len(),
{
    if contributions.len() == 0 {
        0
    } else {
        claims_made(contributions.drop_last()) + if contributions.last().is_claimed {
            1int
        } else {
            0int
        }
    }
}

/// The campaign record agrees with the campaign's contribution records: it counts them
/// all, counts the claimed ones, and pools exactly what the open ones hold.
pub open spec fn books_balance(registry: MemeRegistry, contributions: Seq<Contribution>) -> bool {
    &&& registry.contributor_count == contributions.len()
    &&& registry.claimed_count == claims_made(contributions)
    &&& registry.total_funds == open_funds(contributions)
}

/// Adding a contribution adds what it holds, and a claim if it is claimed.
pub proof fn lemma_books_after_push(contributions: Seq<Contribution>, c: Contribution)
    ensures
        open_funds(contributions.push(c)) == open_funds(contributions) + open_amount(c),
        claims_made(contributions.push(c)) == claims_made(contributions) + if c.is_claimed {
            1int
        } else {
            0int
        },
{
    assert(contributions.push(c).drop_last() =~= contributions);
}

/// Replacing a contribution replaces what it holds, and its claim.
pub proof fn lemma_books_after_update(contributions: Seq<Contribution>, i: int, c: Contribution)
    requires
        0 <= i < contributions.len(),
    ensures
        open_funds(contributions.update(i, c)) == open_funds(contributions) - open_amount(
            contributions[i],
        ) + open_amount(c),
        claims_made(contributions.update(i, c)) == claims_made(contributions) - (if contributions[i].is_claimed {
            1int
        } else {
            0int
        }) + (if c.is_claimed {
            1int
        } else {
            0int
        }),
    decreases contributions.len(),
{
    let updated = contributions.update(i, c);
    if i == contributions.len() - 1 {
        assert(updated.drop_last() =~= contributions.drop_last());
    } else {
        lemma_books_after_update(contributions.drop_last(), i, c);
        assert(updated.drop_last() =~= contributions.drop_last().update(i, c));
    }
}

/// No more contributions are claimed than there are, nothing negative is pooled, and
/// every open contribution is part of what is pooled and leaves a claim to be made.
pub proof fn lemma_books_bounds(contributions: Seq<Contribution>)
    ensures
        0 <= claims_made(contributions) <= contributions.len(),
        0 <= open_funds(contributions),
        forall|i: int|
            0 <= i < contributions.len() && !(#[trigger] contributions[i]).is_claimed ==> {
                &&& contributions[i].amount <= open_funds(contributions)
                &&& claims_made(contributions) < contributions.len()
            },
    decreases contributions.len(),
{
    if contributions.len() > 0 {
        let rest = contributions.drop_last();
        lemma_books_bounds(rest);
        assert forall|i: int|
            0 <= i < contributions.len() && !(#[trigger] contributions[i]).is_claimed implies {
            &&& contributions[i].amount <= open_funds(contributions)
            &&& claims_made(contributions) < contributions.len()
        } by {
            if i < rest.len() {
                assert(rest[i] == contributions[i]);
            }
        }
    }
}

/// Where every contribution is claimed, nothing is pooled.
pub proof fn lemma_nothing_open(contributions: Seq<Contribution>)
    requires
        claims_made(contributions) == contributions.len(),
    ensures
        open_funds(contributions) == 0,
    decreases contributions.len(),
{
    if contributions.len() > 0 {
        lemma_books_bounds(contributions.drop_last());
        lemma_nothing_open(contributions.drop_last());
    }
}

/// Where one contribution alone is open, it holds all that is pooled.
pub proof fn lemma_last_open_holds_all(contributions: Seq<Contribution>, i: int)
    requires
        0 <= i < contributions.len(),
        !contributions[i].is_claimed,
        claims_made(contributions) + 1 == contributions.len(),
    ensures
        open_funds(contributions) == contributions[i].amount,
    decreases contributions.len(),
{
    let rest = contributions.drop_last();
    lemma_books_bounds(rest);
    if i == contributions.len() - 1 {
        lemma_nothing_open(rest);
    } else {
        assert(rest[i] == contributions[i]);
        lemma_last_open_holds_all(rest, i);
    }
}

/// A campaign that has just been created agrees with an empty list of contributions.
pub proof fn new_campaign_balances(ctx: CreateMemeRegistry, meme_id: [u8; 16], now: i64)
    ensures
        books_balance(new_registry(ctx, meme_id, now), Seq::<Contribution>::empty()),
{
}

/// An accepted contribution keeps the books: the campaign record after it agrees with
/// the contributions before it and the new one.
pub proof fn contribution_keeps_the_books(
    ctx: Contribute,
    meme_id: [u8; 16],
    amount: u64,
    now: i64,
    contributions: Seq<Contribution>,
)
    requires
        books_balance(ctx.registry, contributions),
        contribute_rejection(ctx, meme_id, amount, now) is None,
    ensures
        books_balance(
            contributed(ctx, meme_id, amount, now).registry,
            contributions.push(contributed(ctx, meme_id, amount, now).contribution),
        ),
        contributed(ctx, meme_id, amount, now).registry.claimed_count <= contributed(
            ctx,
            meme_id,
            amount,
            now,
        ).registry.contributor_count,
{
    lemma_books_after_push(contributions, contributed(ctx, meme_id, amount, now).contribution);
    lemma_books_bounds(contributions);
}

/// An accepted claim keeps the books: the campaign record after it agrees with the
/// contributions once the claimed one has taken the place of the open one. The campaign
/// never counts more claims than contributions.
pub proof fn claim_keeps_the_books(
    ctx: ClaimTokens,
    meme_id: [u8; 16],
    now: i64,
    contributions: Seq<Contribution>,
    i: int,
)
    requires
        books_balance(ctx.registry, contributions),
        0 <= i < contributions.len(),
        contributions[i] == ctx.contribution,
        claim_rejection(ctx, meme_id, now) is None,
    ensures
        books_balance(claimed(ctx).registry, contributions.update(i, claimed(ctx).contribution)),
        claimed(ctx).registry.claimed_count <= claimed(ctx).registry.contributor_count,
{
    lemma_books_after_update(contributions, i, claimed(ctx).contribution);
    lemma_books_bounds(contributions);
    lemma_books_bounds(contributions.update(i, claimed(ctx).contribution));
}

/// Where the books balance, a claim of an open contribution never meets the guards that
/// are there for broken books: the contribution does not exceed what is pooled, a claim
/// is left to be counted, and no more tokens are due than are held. It can only be
/// rejected for the reasons that a caller can mend.
pub proof fn claim_guards_hold_on_balanced_books(
    ctx: ClaimTokens,
    meme_id: [u8; 16],
    now: i64,
    contributions: Seq<Contribution>,
    i: int,
)
    requires
        books_balance(ctx.registry, contributions),
        0 <= i < contributions.len(),
        contributions[i] == ctx.contribution,
        !ctx.contribution.is_claimed,
    ensures
        ctx.contribution.amount <= ctx.registry.total_funds,
        ctx.registry.claimed_count < ctx.registry.contributor_count,
        ctx.registry.total_funds > 0 ==> 0 <= tokens_due(ctx) <= ctx.vault_token_amount,
        claim_rejection(ctx, meme_id, now) != Some(MemeError::InsufficientVaultBalance),
        claim_rejection(ctx, meme_id, now) == Some(MemeError::ArithmeticOverflow) ==> {
            ||| ctx.registry.end_time + ctx.state.token_claim_available_time > i64::MAX
            ||| ctx.registry.end_time + ctx.state.token_claim_available_time < i64::MIN
        },
{
    lemma_books_bounds(contributions);
    if ctx.registry.total_funds > 0 {
        lemma_share_bounded(
            ctx.contribution.amount as int,
            ctx.vault_token_amount as int,
            ctx.registry.total_funds as int,
        );
    }
}

/// Nothing is left behind: where the books balance, the contributor who claims last is
/// due every token that the holding address still holds, and the campaign's pool is empty
/// afterwards.
pub proof fn last_claim_takes_everything(
    ctx: ClaimTokens,
    meme_id: [u8; 16],
    now: i64,
    contributions: Seq<Contribution>,
    i: int,
)
    requires
        books_balance(ctx.registry, contributions),
        0 <= i < contributions.len(),
        contributions[i] == ctx.contribution,
        claim_rejection(ctx, meme_id, now) is None,
        ctx.registry.claimed_count + 1 == ctx.registry.contributor_count,
    ensures
        tokens_due(ctx) == ctx.vault_token_amount,
        claimed(ctx).registry.total_funds == 0,
        claimed(ctx).registry.is_settled(),
{
    lemma_last_open_holds_all(contributions, i);
    lemma_share_of_everything(ctx.contribution.amount as int, ctx.vault_token_amount as int);
}

} // verus!

use vstd::prelude::*;
use crate::accounts::{AdminClaimRewards, ClaimTokens, Contribute, CreateMemeRegistry, StartMeme};
use crate::books::{
    books_balance, claim_keeps_the_books, contribution_keeps_the_books,
};
use crate::claim::{claim_rejection, claimed};
use crate::contribute::{contribute_rejection, contributed};
use crate::launch::{launch_rejection, launched};
use crate::registry::new_registry;
use crate::state::{Contribution, MemeRegistry};
use crate::sweep::{sweep_rejection, swept};

verus! {

/// A campaign with its contributions, in the order in which they were accepted.
pub struct Campaign {
    pub registry: MemeRegistry,
    pub contributions: Seq<Contribution>,
}

/// One operation on a campaign, with what it was given.
pub enum CampaignEvent {
    /// A contribution.
    Contributed { contribute: Contribute, meme_id: [u8; 16], amount: u64, now: i64 },
    /// A recorded launch, with the bytes of the token's name and symbol.
    Launched { launch: StartMeme, name: Seq<u8>, symbol: Seq<u8> },
    /// A claim of the contribution at `index`.
    Claimed { claim: ClaimTokens, meme_id: [u8; 16], now: i64, index: int },
    /// A sweep.
    Swept { sweep: AdminClaimRewards, meme_id: [u8; 16] },
}

/// Whether the operation is made on this campaign, on one of its contributions where it
/// is a claim, and is not rejected.
pub open spec fn accepted(campaign: Campaign, event: CampaignEvent) -> bool {
    match event {
        CampaignEvent::Contributed { contribute: ctx, meme_id, amount, now } => {
            &&& ctx.registry == campaign.registry
            &&& contribute_rejection(ctx, meme_id, amount, now) is None
        },
        CampaignEvent::Launched { launch: ctx, name, symbol } => {
            &&& ctx.registry == campaign.registry
            &&& launch_rejection(ctx, name, symbol) is None
        },
        CampaignEvent::Claimed { claim: ctx, meme_id, now, index } => {
            &&& ctx.registry == campaign.registry
            &&& 0 <= index < campaign.contributions.len()
            &&& ctx.contribution == campaign.contributions[index]
            &&& claim_rejection(ctx, meme_id, now) is None
        },
        CampaignEvent::Swept { sweep: ctx, meme_id } => {
            &&& ctx.registry == campaign.registry
            &&& sweep_rejection(ctx, meme_id) is None
        },
    }
}

/// The campaign after an operation that it accepted.
pub open spec fn after(campaign: Campaign, event: CampaignEvent) -> Campaign {
    match event {
        CampaignEvent::Contributed { contribute: ctx, meme_id, amount, now } => Campaign {
            registry: contributed(ctx, meme_id, amount, now).registry,
            contributions: campaign.contributions.push(
                contributed(ctx, meme_id, amount, now).contribution,
            ),
        },
        CampaignEvent::Launched { launch: ctx, name, symbol } => Campaign {
            registry: launched(ctx).registry,
            contributions: campaign.contributions,
        },
        CampaignEvent::Claimed { claim: ctx, meme_id, now, index } => Campaign {
            registry: claimed(ctx).registry,
            contributions: campaign.contributions.update(index, claimed(ctx).contribution),
        },
        CampaignEvent::Swept { sweep: ctx, meme_id } => Campaign {
            registry: swept(ctx).registry,
            contributions: campaign.contributions,
        },
    }
}

/// The campaign after the operations of `events`, one after the other; `None` where one
/// of them is not accepted.
pub open spec fn replay(start: Campaign, events: Seq<CampaignEvent>) -> Option<Campaign>
    decreases events.len(),
{
    if events.len() == 0 {
        Some(start)
    } else {
        match replay(start, events.drop_last()) {
            Some(campaign) => if accepted(campaign, events.last()) {
                Some(after(campaign, events.last()))
            } else {
                None
            },
            None => None,
        }
    }
}

/// How many of the operations are launches.
pub open spec fn launches(events: Seq<CampaignEvent>) -> int
    decreases events.len(),
{
    if events.len() == 0 {
        0
    } else {
        launches(events.drop_last()) + if events.last() is Launched {
            1int
        } else {
            0int
        }
    }
}

/// Whether the operation is a claim of the contribution at `index`.
pub open spec fn is_claim_of(event: CampaignEvent, index: int) -> bool {
    event matches CampaignEvent::Claimed { index: claimed_index, .. } && claimed_index == index
}

/// How many of the operations are claims of the contribution at `index`.
pub open spec fn claims_of(events: Seq<CampaignEvent>, index: int) -> int
    decreases events.len(),
{
    if events.len() == 0 {
        0
    } else {
        claims_of(events.drop_last(), index) + if is_claim_of(events.last(), index) {
            1int
        } else {
            0int
        }
    }
}

/// One operation more is one launch more if it is a launch, and one claim more of the
/// contribution that it claims.
pub proof fn lemma_counts_after_push(events: Seq<CampaignEvent>, event: CampaignEvent)
    ensures
        launches(events.push(event)) == launches(events) + if event is Launched {
            1int
        } else {
            0int
        },
        forall|i: int| #[trigger]
            claims_of(events.push(event), i) == claims_of(events, i) + if is_claim_of(event, i) {
                1int
            } else {
                0int
            },
{
    assert(events.push(event).drop_last() =~= events);
}

/// What holds of a campaign throughout its life.
pub open spec fn campaign_invariant(
    start: Campaign,
    events: Seq<CampaignEvent>,
    campaign: Campaign,
) -> bool {
    &&& books_balance(campaign.registry, campaign.contributions)
    &&& campaign.registry.claimed_count <= campaign.registry.contributor_count
    &&& campaign.registry.meme_id == start.registry.meme_id
    &&& campaign.registry.authority == start.registry.authority
    &&& campaign.registry.start_time == start.registry.start_time
    &&& campaign.registry.end_time == start.registry.end_time
    &&& launches(events) == if campaign.registry.is_started() {
        1int
    } else {
        0int
    }
    &&& forall|i: int|
        0 <= i < campaign.contributions.len() ==> claims_of(events, i) == if (
        #[trigger] campaign.contributions[i]).is_claimed {
            1int
        } else {
            0int
        }
    &&& forall|i: int| i < 0 || i >= campaign.contributions.len() ==> #[trigger] claims_of(events, i) == 0
}

/// One accepted operation keeps what holds of a campaign throughout its life.
pub proof fn lemma_step_keeps_invariant(
    start: Campaign,
    events: Seq<CampaignEvent>,
    campaign: Campaign,
    event: CampaignEvent,
)
    requires
        campaign_invariant(start, events, campaign),
        accepted(campaign, event),
    ensures
        campaign_invariant(start, events.push(event), after(campaign, event)),
{
    let next = after(campaign, event);
    let longer = events.push(event);
    lemma_counts_after_push(events, event);
    match event {
        CampaignEvent::Contributed { contribute: ctx, meme_id, amount, now } => {
            contribution_keeps_the_books(ctx, meme_id, amount, now, campaign.contributions);
        },
        CampaignEvent::Launched { launch: ctx, name, symbol } => {},
        CampaignEvent::Claimed { claim: ctx, meme_id, now, index } => {
            claim_keeps_the_books(ctx, meme_id, now, campaign.contributions, index);
        },
        CampaignEvent::Swept { sweep: ctx, meme_id } => {},
    }
    assert forall|i: int| 0 <= i < next.contributions.len() implies claims_of(longer, i) == if (
    #[trigger] next.contributions[i]).is_claimed {
        1int
    } else {
        0int
    } by {
        if i < campaign.contributions.len() {
            assert(claims_of(events, i) == if campaign.contributions[i].is_claimed {
                1int
            } else {
                0int
            });
        } else {
            assert(claims_of(events, i) == 0);
        }
    }
    assert forall|i: int| i < 0 || i >= next.contributions.len() implies #[trigger] claims_of(
        longer,
        i,
    ) == 0 by {
        assert(claims_of(events, i) == 0);
    }
}

/// Throughout the life of a campaign, from its creation through any operations that were
/// accepted: its record agrees with its contribution records, it counts no more claims
/// than contributions, its identifier, creator and window never change, it is launched at
/// most once, and each of its contributions is claimed at most once, exactly once if it is
/// marked as claimed.
pub proof fn campaign_keeps_its_invariants(
    ctx: CreateMemeRegistry,
    meme_id: [u8; 16],
    now: i64,
    events: Seq<CampaignEvent>,
)
    requires
        replay(
            Campaign {
                registry: new_registry(ctx, meme_id, now),
                contributions: Seq::<Contribution>::empty(),
            },
            events,
        ) is Some,
    ensures
        ({
            let start = Campaign {
                registry: new_registry(ctx, meme_id, now),
                contributions: Seq::<Contribution>::empty(),
            };
            let campaign = replay(start, events)->Some_0;
            &&& campaign_invariant(start, events, campaign)
            &&& launches(events) <= 1
            &&& forall|i: int| 0 <= #[trigger] claims_of(events, i) <= 1
        }),
    decreases events.len(),
{
    let start = Campaign {
        registry: new_registry(ctx, meme_id, now),
        contributions: Seq::<Contribution>::empty(),
    };
    if events.len() == 0 {
        assert(campaign_invariant(start, events, start));
    } else {
        let earlier = events.drop_last();
        campaign_keeps_its_invariants(ctx, meme_id, now, earlier);
        let campaign = replay(start, earlier)->Some_0;
        lemma_step_keeps_invariant(start, earlier, campaign, events.last());
        assert(earlier.push(events.last()) =~= events);
    }
    let end = replay(start, events)->Some_0;
    assert forall|i: int| 0 <= #[trigger] claims_of(events, i) <= 1 by {
        if 0 <= i < end.contributions.len() {
            assert(claims_of(events, i) == if end.contributions[i].is_claimed {
                1int
            } else {
                0int
            });
        }
    }
}

} // verus!

use meme_fund::accounts::{
    AdminClaimRewards, ClaimTokens, Contribute, CreateMemeRegistry, StartMeme,
};
use meme_fund::address::Address;
use meme_fund::claim::{claim_tokens, TokenTransfer};
use meme_fund::contribute::contribute;
use meme_fund::error::MemeError;
use meme_fund::events::{ContributionMade, MemeRegistryCreated, RewardsSwept, TokensClaimed};
use meme_fund::instruction::AccountMeta;
use meme_fund::launch::{
    launch_advance, launch_begin, record_launch, start_meme, LaunchVerdict, PumpInterface,
};
use meme_fund::registry::create_meme_registry;
use meme_fund::state::{Contribution, MemeRegistry, State};
use meme_fund::sweep::admin_claim_rewards;

const ID: [u8; 16] = [7u8; 16];
const OTHER_ID: [u8; 16] = [8u8; 16];

fn key(n: u8) -> Address {
    Address::new([n; 32])
}

fn admin() -> Address {
    key(1)
}

fn fee_recipient() -> Address {
    key(2)
}

fn creator() -> Address {
    key(3)
}

fn vault() -> Address {
    key(4)
}

fn alice() -> Address {
    key(5)
}

fn mint() -> Address {
    key(6)
}

fn state() -> State {
    State {
        fee_recipient: fee_recipient(),
        max_buy_amount: 2_000_000_000,
        min_buy_amount: 100_000_000,
        authority: admin(),
        fund_duration: 3600,
        max_fund_limit: 20_000_000_000,
        commission_rate: 5,
        token_claim_available_time: 600,
    }
}

fn blank_registry() -> MemeRegistry {
    MemeRegistry {
        meme_id: [0; 16],
        total_funds: 0,
        start_time: 0,
        end_time: 0,
        authority: Address::unset(),
        contributor_count: 0,
        mint: Address::unset(),
        unclaimed_rewards: 0,
        claimed_count: 0,
    }
}

fn blank_contribution() -> Contribution {
    Contribution {
        meme_id: [0; 16],
        contributor: Address::unset(),
        amount: 0,
        timestamp: 0,
        is_claimed: false,
    }
}

fn open_registry() -> MemeRegistry {
    MemeRegistry {
        meme_id: ID,
        total_funds: 0,
        start_time: 1_000,
        end_time: 4_600,
        authority: creator(),
        contributor_count: 0,
        mint: Address::unset(),
        unclaimed_rewards: 0,
        claimed_count: 0,
    }
}

fn contribute_ctx(registry: MemeRegistry, who: Address, lamports: u64) -> Contribute {
    Contribute {
        vault: vault(),
        registry,
        contribution: blank_contribution(),
        contributor: who,
        contributor_lamports: lamports,
        state: state(),
        fee_recipient: fee_recipient(),
    }
}

fn claim_ctx(registry: MemeRegistry, contribution: Contribution, held: u64) -> ClaimTokens {
    ClaimTokens {
        registry,
        contribution,
        contributor: contribution.contributor,
        vault: vault(),
        vault_bump: 254,
        vault_lamports: 0,
        vault_token_account: key(20),
        vault_token_amount: held,
        user_token_account: key(21),
        mint: mint(),
        mint_decimals: 6,
        state: state(),
    }
}

fn launched(total_funds: u64, contributors: u64, claimed: u64) -> MemeRegistry {
    MemeRegistry {
        total_funds,
        contributor_count: contributors,
        claimed_count: claimed,
        mint: mint(),
        ..open_registry()
    }
}

fn stake(who: Address, amount: u64) -> Contribution {
    Contribution { meme_id: ID, contributor: who, amount, timestamp: 1_500, is_claimed: false }
}

fn launch_ctx(registry: MemeRegistry) -> StartMeme {
    StartMeme {
        registry,
        vault: vault(),
        vault_bump: 254,
        mint: mint(),
        mint_authority: key(31),
        bonding_curve: key(32),
        associated_bonding_curve: key(33),
        global: key(34),
        mpl_token_metadata: key(35),
        metadata: key(36),
        authority: creator(),
        system_program: key(37),
        token_program: key(38),
        associated_token_program: key(39),
        rent: key(40),
        event_authority: key(41),
        pump_program: key(42),
        fee_recipient: key(43),
        associated_user: key(20),
    }
}

fn le64(x: u64) -> Vec<u8> {
    x.to_le_bytes().to_vec()
}

#[test]
fn test_buy_amount_validation() {
    let min_amount: u64 = 100_000_000; // 0.1 SOL
    let max_amount: u64 = 1_000_000_000; // 1 SOL
    let test_amount: u64 = 500_000_000; // 0.5 SOL

    assert!(test_amount >= min_amount, "Amount below minimum");
    assert!(test_amount <= max_amount, "Amount above maximum");

    let mut ctx = contribute_ctx(open_registry(), alice(), 5_000_000_000);
    ctx.state.min_buy_amount = min_amount;
    ctx.state.max_buy_amount = max_amount;
    assert!(contribute(&mut ctx, ID, test_amount, 2_000).is_ok());
    let mut ctx = contribute_ctx(open_registry(), alice(), 5_000_000_000);
    ctx.state.min_buy_amount = min_amount;
    ctx.state.max_buy_amount = max_amount;
    assert_eq!(contribute(&mut ctx, ID, min_amount - 1, 2_000), Err(MemeError::BelowMinAmount));
    assert_eq!(contribute(&mut ctx, ID, max_amount + 1, 2_000), Err(MemeError::ExceedsMaxAmount));
}

#[test]
fn creating_a_campaign() {
    let mut ctx = CreateMemeRegistry { registry: blank_registry(), state: state(), authority: creator() };
    let r = create_meme_registry(&mut ctx, ID, 1_000);
    assert_eq!(r, Ok(MemeRegistryCreated { meme_id: ID, start_time: 1_000, end_time: 4_600 }));
    assert_eq!(ctx.registry, open_registry());
    assert_eq!(ctx.state, state());
    assert_eq!(ctx.authority, creator());
}

#[test]
fn creating_a_campaign_needs_no_administrator() {
    let stranger = key(99);
    let mut ctx = CreateMemeRegistry { registry: blank_registry(), state: state(), authority: stranger };
    assert!(create_meme_registry(&mut ctx, ID, 0).is_ok());
    assert_eq!(ctx.registry.authority, stranger);
}

#[test]
fn creating_a_campaign_whose_window_has_no_end_fails() {
    let mut ctx = CreateMemeRegistry { registry: blank_registry(), state: state(), authority: creator() };
    assert_eq!(
        create_meme_registry(&mut ctx, ID, i64::MAX - 3_599),
        Err(MemeError::ArithmeticOverflow)
    );
    assert_eq!(ctx.registry, blank_registry());
    assert!(create_meme_registry(&mut ctx, ID, i64::MAX - 3_600).is_ok());
    assert_eq!(ctx.registry.end_time, i64::MAX);
}

#[test]
fn an_accepted_contribution() {
    let mut ctx = contribute_ctx(open_registry(), alice(), 1_000_000_000);
    let receipt = contribute(&mut ctx, ID, 1_000_000_000, 2_000).unwrap();
    assert_eq!(
        receipt.event,
        ContributionMade {
            meme_id: ID,
            contributor: alice(),
            amount: 1_000_000_000,
            commission_amount: 50_000_000,
            net_contribution_amount: 950_000_000,
            timestamp: 2_000,
        }
    );
    assert_eq!(
        ctx.contribution,
        Contribution {
            meme_id: ID,
            contributor: alice(),
            amount: 950_000_000,
            timestamp: 2_000,
            is_claimed: false,
        }
    );
    assert_eq!(
        ctx.registry,
        MemeRegistry { total_funds: 950_000_000, contributor_count: 1, ..open_registry() }
    );
    assert_eq!(ctx.contributor_lamports, 1_000_000_000);
    assert_eq!(ctx.state, state());
}

#[test]
fn the_transfers_of_a_contribution() {
    let mut ctx = contribute_ctx(open_registry(), alice(), 1_000_000_000);
    let receipt = contribute(&mut ctx, ID, 1_000_000_000, 2_000).unwrap();
    let commission = receipt.commission_transfer;
    assert_eq!(commission.program_id, Address::unset());
    assert_eq!(
        commission.accounts,
        vec![
            AccountMeta { pubkey: alice(), is_signer: true, is_writable: true },
            AccountMeta { pubkey: fee_recipient(), is_signer: false, is_writable: true },
        ]
    );
    assert_eq!(commission.data, [vec![2, 0, 0, 0], le64(50_000_000)].concat());
    let net = receipt.net_transfer;
    assert_eq!(net.program_id, Address::unset());
    assert_eq!(
        net.accounts,
        vec![
            AccountMeta { pubkey: alice(), is_signer: true, is_writable: true },
            AccountMeta { pubkey: vault(), is_signer: false, is_writable: true },
        ]
    );
    assert_eq!(net.data, [vec![2, 0, 0, 0], le64(950_000_000)].concat());
    assert_eq!(net.data, vec![2, 0, 0, 0, 0x80, 0xd9, 0x9f, 0x38, 0, 0, 0, 0]);
}

#[test]
fn a_contribution_moves_what_the_contributor_pays_and_no_more() {
    for amount in [100_000_000u64, 123_456_789, 2_000_000_000] {
        let mut ctx = contribute_ctx(open_registry(), alice(), amount);
        let receipt = contribute(&mut ctx, ID, amount, 2_000).unwrap();
        let commission = u64::from_le_bytes(receipt.commission_transfer.data[4..12].try_into().unwrap());
        let net = u64::from_le_bytes(receipt.net_transfer.data[4..12].try_into().unwrap());
        assert_eq!(commission, amount * 5 / 100);
        assert_eq!(commission + net, amount);
        assert_eq!(receipt.event.commission_amount + receipt.event.net_contribution_amount, amount);
        assert_eq!(ctx.registry.total_funds, net);
    }
}

#[test]
fn a_contribution_overwrites_what_the_fresh_record_held() {
    let mut ctx = contribute_ctx(open_registry(), alice(), 1_000_000_000);
    ctx.contribution = Contribution {
        meme_id: OTHER_ID,
        contributor: key(77),
        amount: 5,
        timestamp: 9,
        is_claimed: true,
    };
    assert!(contribute(&mut ctx, ID, 100_000_000, 2_000).is_ok());
    assert_eq!(ctx.contribution, stake_at(alice(), 95_000_000, 2_000));
}

fn stake_at(who: Address, amount: u64, timestamp: i64) -> Contribution {
    Contribution { meme_id: ID, contributor: who, amount, timestamp, is_claimed: false }
}

#[test]
fn contribution_window() {
    // One second before the end: accepted.
    let mut ctx = contribute_ctx(open_registry(), alice(), 1_000_000_000);
    assert!(contribute(&mut ctx, ID, 100_000_000, 4_599).is_ok());
    // At the end and after: expired, and nothing changes.
    for now in [4_600i64, 4_601, i64::MAX] {
        let mut ctx = contribute_ctx(open_registry(), alice(), 1_000_000_000);
        let before = ctx;
        assert_eq!(contribute(&mut ctx, ID, 100_000_000, now), Err(MemeError::FundExpired));
        assert_eq!(ctx, before);
    }
    // Before the campaign's creation time the window is open too.
    let mut ctx = contribute_ctx(open_registry(), alice(), 1_000_000_000);
    assert!(contribute(&mut ctx, ID, 100_000_000, i64::MIN).is_ok());
}

#[test]
fn contribution_rejections() {
    let base = contribute_ctx(open_registry(), alice(), 5_000_000_000);

    let mut ctx = base;
    ctx.fee_recipient = key(66);
    assert_eq!(contribute(&mut ctx, ID, 1_000_000_000, 2_000), Err(MemeError::InvalidFeeRecipient));

    let mut ctx = base;
    assert_eq!(contribute(&mut ctx, ID, 99_999_999, 2_000), Err(MemeError::BelowMinAmount));
    assert_eq!(ctx, base);

    let mut ctx = base;
    assert_eq!(contribute(&mut ctx, ID, 2_000_000_001, 2_000), Err(MemeError::ExceedsMaxAmount));
    assert_eq!(ctx, base);

    let mut ctx = base;
    assert_eq!(contribute(&mut ctx, OTHER_ID, 1_000_000_000, 2_000), Err(MemeError::InvalidMemeId));
    assert_eq!(ctx, base);

    let mut ctx = base;
    ctx.contributor_lamports = 999_999_999;
    assert_eq!(contribute(&mut ctx, ID, 1_000_000_000, 2_000), Err(MemeError::InsufficientBalance));

    let mut ctx = base;
    ctx.registry.contributor_count = u64::MAX;
    assert_eq!(
        contribute(&mut ctx, ID, 1_000_000_000, 2_000),
        Err(MemeError::MaxContributorsReached)
    );
    assert_eq!(ctx.registry.total_funds, 0);
}

#[test]
fn contribution_rejections_come_in_order() {
    // Everything is wrong at once: the fee recipient is named first.
    let mut ctx = contribute_ctx(open_registry(), alice(), 0);
    ctx.fee_recipient = key(66);
    assert_eq!(contribute(&mut ctx, OTHER_ID, 1, 9_999), Err(MemeError::InvalidFeeRecipient));
    ctx.fee_recipient = fee_recipient();
    assert_eq!(contribute(&mut ctx, OTHER_ID, 1, 9_999), Err(MemeError::BelowMinAmount));
    assert_eq!(contribute(&mut ctx, OTHER_ID, 100_000_000, 9_999), Err(MemeError::InvalidMemeId));
    assert_eq!(contribute(&mut ctx, ID, 100_000_000, 9_999), Err(MemeError::FundExpired));
    assert_eq!(contribute(&mut ctx, ID, 100_000_000, 2_000), Err(MemeError::InsufficientBalance));
}

#[test]
fn contribution_arithmetic_rejections() {
    // The product of amount and rate leaves 64 bits.
    let mut ctx = contribute_ctx(open_registry(), alice(), u64::MAX);
    ctx.state.max_buy_amount = u64::MAX;
    ctx.state.max_fund_limit = u64::MAX;
    assert_eq!(contribute(&mut ctx, ID, u64::MAX, 2_000), Err(MemeError::ArithmeticOverflow));
    // The commission exceeds the amount.
    let mut ctx = contribute_ctx(open_registry(), alice(), 1_000_000_000);
    ctx.state.commission_rate = 101;
    assert_eq!(contribute(&mut ctx, ID, 1_000_000_000, 2_000), Err(MemeError::ArithmeticOverflow));
    // The pooled total leaves 64 bits.
    let mut ctx = contribute_ctx(open_registry(), alice(), 1_000_000_000);
    ctx.registry.total_funds = u64::MAX - 949_999_999;
    ctx.state.max_fund_limit = u64::MAX;
    let before = ctx;
    assert_eq!(contribute(&mut ctx, ID, 1_000_000_000, 2_000), Err(MemeError::ArithmeticOverflow));
    assert_eq!(ctx, before);
    // The pooled total fits, the amount on top of it does not: the limit is exceeded.
    let mut ctx = contribute_ctx(open_registry(), alice(), 1_000_000_000);
    ctx.registry.total_funds = u64::MAX - 950_000_000;
    ctx.state.max_fund_limit = u64::MAX;
    assert_eq!(contribute(&mut ctx, ID, 1_000_000_000, 2_000), Err(MemeError::ExceedsMaxFundLimit));
}

#[test]
fn the_limit_counts_the_net_total_and_the_whole_amount() {
    // 18.05 pooled + 0.95 net + 1 = 20: accepted.
    let mut ctx = contribute_ctx(open_registry(), alice(), 1_000_000_000);
    ctx.registry.total_funds = 18_050_000_000;
    assert!(contribute(&mut ctx, ID, 1_000_000_000, 2_000).is_ok());
    assert_eq!(ctx.registry.total_funds, 19_000_000_000);
    // One lamport more was pooled: rejected, though 19.000000001 + 1 would pass a check
    // of the pooled total alone.
    let mut ctx = contribute_ctx(open_registry(), alice(), 1_000_000_000);
    ctx.registry.total_funds = 18_050_000_001;
    let before = ctx;
    assert_eq!(contribute(&mut ctx, ID, 1_000_000_000, 2_000), Err(MemeError::ExceedsMaxFundLimit));
    assert_eq!(ctx, before);
}

#[test]
fn an_accepted_claim() {
    let registry = launched(10_000_000_000, 3, 0);
    let mut ctx = claim_ctx(registry, stake(alice(), 1_000_000_000), 1_000_000);
    let receipt = claim_tokens(&mut ctx, ID, 5_200).unwrap();
    assert_eq!(receipt.event, TokensClaimed { meme_id: ID, contributor: alice(), amount: 100_000 });
    assert_eq!(
        receipt.transfer,
        TokenTransfer {
            from: key(20),
            to: key(21),
            authority: vault(),
            mint: mint(),
            amount: 100_000,
            decimals: 6,
        }
    );
    assert_eq!(receipt.signer_seeds, vec![b"vault".to_vec(), ID.to_vec(), vec![254]]);
    assert_eq!(
        ctx.registry,
        MemeRegistry { total_funds: 9_000_000_000, claimed_count: 1, ..registry }
    );
    assert_eq!(ctx.contribution, Contribution { is_claimed: true, ..stake(alice(), 1_000_000_000) });
    assert_eq!(ctx.vault_token_amount, 1_000_000);
}

#[test]
fn a_claim_opens_after_the_delay() {
    let registry = launched(1_000, 1, 0);
    for now in [0i64, 4_600, 5_199] {
        let mut ctx = claim_ctx(registry, stake(alice(), 1_000), 50);
        let before = ctx;
        assert_eq!(claim_tokens(&mut ctx, ID, now), Err(MemeError::ClaimTimeNotReached));
        assert_eq!(ctx, before);
    }
    let mut ctx = claim_ctx(registry, stake(alice(), 1_000), 50);
    assert!(claim_tokens(&mut ctx, ID, 5_200).is_ok());
}

#[test]
fn a_claim_is_made_once() {
    let mut ctx = claim_ctx(launched(2_000, 2, 0), stake(alice(), 1_000), 50);
    ctx.vault_lamports = 10;
    assert!(claim_tokens(&mut ctx, ID, 6_000).is_ok());
    let after_first = ctx;
    assert_eq!(claim_tokens(&mut ctx, ID, 6_000), Err(MemeError::AlreadyClaimed));
    assert_eq!(ctx, after_first);
    assert_eq!(claim_tokens(&mut ctx, ID, i64::MAX), Err(MemeError::AlreadyClaimed));
    assert_eq!(ctx, after_first);
}

#[test]
fn claim_rejections() {
    let registry = launched(10_000, 4, 1);
    let base = claim_ctx(registry, stake(alice(), 1_000), 500);

    let mut ctx = base;
    assert_eq!(claim_tokens(&mut ctx, OTHER_ID, 6_000), Err(MemeError::InvalidMemeId));
    assert_eq!(ctx, base);

    let mut ctx = base;
    ctx.contribution.meme_id = OTHER_ID;
    assert_eq!(claim_tokens(&mut ctx, ID, 6_000), Err(MemeError::InvalidMemeId));

    let mut ctx = base;
    ctx.contributor = key(88);
    assert_eq!(claim_tokens(&mut ctx, ID, 6_000), Err(MemeError::Unauthorized));
    assert_eq!(ctx.registry, registry);

    let mut ctx = base;
    ctx.mint = key(89);
    assert_eq!(claim_tokens(&mut ctx, ID, 6_000), Err(MemeError::InvalidMint));

    let mut ctx = base;
    ctx.registry.mint = Address::unset();
    ctx.mint = Address::unset();
    assert_eq!(claim_tokens(&mut ctx, ID, 6_000), Err(MemeError::InvalidMint));

    let mut ctx = base;
    ctx.contribution.is_claimed = true;
    assert_eq!(claim_tokens(&mut ctx, ID, 6_000), Err(MemeError::AlreadyClaimed));

    let mut ctx = base;
    ctx.contribution.amount = 0;
    assert_eq!(claim_tokens(&mut ctx, ID, 6_000), Err(MemeError::ZeroContributionAmount));

    let mut ctx = base;
    ctx.registry.total_funds = 0;
    assert_eq!(claim_tokens(&mut ctx, ID, 6_000), Err(MemeError::NoFundsInRegistry));

    let mut ctx = base;
    ctx.registry.end_time = i64::MAX;
    assert_eq!(claim_tokens(&mut ctx, ID, i64::MAX), Err(MemeError::ArithmeticOverflow));

    let mut ctx = base;
    ctx.vault_token_amount = 9;
    assert_eq!(claim_tokens(&mut ctx, ID, 6_000), Err(MemeError::ZeroClaimAmount));
    assert_eq!(ctx.registry, registry);

    let mut ctx = base;
    ctx.vault_token_amount = 0;
    assert_eq!(claim_tokens(&mut ctx, ID, 6_000), Err(MemeError::ZeroClaimAmount));
}

#[test]
fn claim_guards_against_broken_books() {
    // The contribution exceeds what is pooled, so more is due than is held.
    let mut ctx = claim_ctx(launched(2, 1, 0), stake(alice(), 10), 5);
    let before = ctx;
    assert_eq!(claim_tokens(&mut ctx, ID, 6_000), Err(MemeError::InsufficientVaultBalance));
    assert_eq!(ctx, before);
    // What is due does not fit in 64 bits: it is compared in full.
    let mut ctx = claim_ctx(launched(1, 1, 0), stake(alice(), u64::MAX), u64::MAX);
    assert_eq!(claim_tokens(&mut ctx, ID, 6_000), Err(MemeError::InsufficientVaultBalance));
    let mut ctx = claim_ctx(launched(1, 1, 0), stake(alice(), 4), 1 << 62);
    assert_eq!(claim_tokens(&mut ctx, ID, 6_000), Err(MemeError::InsufficientVaultBalance));
    // The count of claims is at its end.
    let mut ctx = claim_ctx(launched(10, u64::MAX, u64::MAX), stake(alice(), 10), 5);
    let before = ctx;
    assert_eq!(claim_tokens(&mut ctx, ID, 6_000), Err(MemeError::ArithmeticOverflow));
    assert_eq!(ctx, before);
}

#[test]
fn the_last_claim_notes_what_the_vault_has_left() {
    let mut ctx = claim_ctx(launched(1_000, 2, 1), stake(alice(), 1_000), 77);
    ctx.vault_lamports = 12_345;
    let receipt = claim_tokens(&mut ctx, ID, 6_000).unwrap();
    assert_eq!(receipt.transfer.amount, 77);
    assert_eq!(ctx.registry.claimed_count, 2);
    assert_eq!(ctx.registry.total_funds, 0);
    assert_eq!(ctx.registry.unclaimed_rewards, 12_345);
}

#[test]
fn the_last_claim_of_an_empty_vault_keeps_the_note() {
    let mut ctx = claim_ctx(launched(1_000, 2, 1), stake(alice(), 1_000), 77);
    ctx.registry.unclaimed_rewards = 3;
    ctx.vault_lamports = 0;
    assert!(claim_tokens(&mut ctx, ID, 6_000).is_ok());
    assert_eq!(ctx.registry.unclaimed_rewards, 3);
}

#[test]
fn a_claim_that_is_not_the_last_notes_nothing() {
    let mut ctx = claim_ctx(launched(2_000, 3, 1), stake(alice(), 1_000), 77);
    ctx.vault_lamports = 12_345;
    let receipt = claim_tokens(&mut ctx, ID, 6_000).unwrap();
    assert_eq!(receipt.transfer.amount, 38);
    assert_eq!(ctx.registry.unclaimed_rewards, 0);
}

fn sweep_ctx(registry: MemeRegistry) -> AdminClaimRewards {
    AdminClaimRewards {
        registry,
        state: state(),
        vault: vault(),
        vault_bump: 253,
        fee_recipient: fee_recipient(),
        authority: admin(),
    }
}

#[test]
fn an_accepted_sweep() {
    let registry = MemeRegistry { unclaimed_rewards: 12_345, ..launched(0, 2, 2) };
    let mut ctx = sweep_ctx(registry);
    let receipt = admin_claim_rewards(&mut ctx, ID).unwrap();
    assert_eq!(
        receipt.event,
        RewardsSwept { meme_id: ID, fee_recipient: fee_recipient(), amount: 12_345 }
    );
    assert_eq!(receipt.transfer.program_id, Address::unset());
    assert_eq!(
        receipt.transfer.accounts,
        vec![
            AccountMeta { pubkey: vault(), is_signer: true, is_writable: true },
            AccountMeta { pubkey: fee_recipient(), is_signer: false, is_writable: true },
        ]
    );
    assert_eq!(receipt.transfer.data, [vec![2, 0, 0, 0], le64(12_345)].concat());
    assert_eq!(receipt.signer_seeds, vec![b"vault".to_vec(), ID.to_vec(), vec![253]]);
    assert_eq!(ctx.registry, MemeRegistry { unclaimed_rewards: 0, ..registry });
    // A second sweep finds nothing.
    let after = ctx;
    assert_eq!(admin_claim_rewards(&mut ctx, ID), Err(MemeError::NoRewardsToClaim));
    assert_eq!(ctx, after);
}

#[test]
fn sweep_rejections() {
    let registry = MemeRegistry { unclaimed_rewards: 12_345, ..launched(0, 2, 2) };

    let mut ctx = sweep_ctx(registry);
    assert_eq!(admin_claim_rewards(&mut ctx, OTHER_ID), Err(MemeError::InvalidMemeId));
    assert_eq!(ctx.registry, registry);

    let mut ctx = sweep_ctx(registry);
    ctx.authority = creator();
    assert_eq!(admin_claim_rewards(&mut ctx, ID), Err(MemeError::Unauthorized));
    assert_eq!(ctx.registry, registry);

    let mut ctx = sweep_ctx(registry);
    ctx.fee_recipient = key(66);
    assert_eq!(admin_claim_rewards(&mut ctx, ID), Err(MemeError::InvalidFeeRecipient));
    assert_eq!(ctx.registry, registry);

    let open = MemeRegistry { unclaimed_rewards: 12_345, ..launched(500, 2, 1) };
    let mut ctx = sweep_ctx(open);
    assert_eq!(admin_claim_rewards(&mut ctx, ID), Err(MemeError::NotAllTokensClaimed));
    assert_eq!(ctx.registry, open);

    let mut ctx = sweep_ctx(launched(0, 2, 2));
    assert_eq!(admin_claim_rewards(&mut ctx, ID), Err(MemeError::NoRewardsToClaim));
}

#[test]
fn a_campaign_without_contributions_has_nothing_to_sweep() {
    let mut ctx = sweep_ctx(open_registry());
    assert_eq!(admin_claim_rewards(&mut ctx, ID), Err(MemeError::NoRewardsToClaim));
}

#[test]
fn three_contributors_share_the_tokens_and_leave_nothing() {
    let bob = key(11);
    let carol = key(12);
    let mut registry = open_registry();
    let mut stakes = Vec::new();
    for (who, amount) in [(alice(), 1_000_000_000u64), (bob, 500_000_000), (carol, 333_333_333)] {
        let mut ctx = contribute_ctx(registry, who, amount);
        contribute(&mut ctx, ID, amount, 2_000).unwrap();
        registry = ctx.registry;
        stakes.push(ctx.contribution);
    }
    assert_eq!(registry.contributor_count, 3);
    assert_eq!(registry.total_funds, 950_000_000 + 475_000_000 + 316_666_667);
    registry.mint = mint();

    let mut held: u64 = 1_000_000_007;
    let mut paid: u64 = 0;
    for (i, contribution) in stakes.iter().enumerate() {
        let mut ctx = claim_ctx(registry, *contribution, held);
        ctx.vault_lamports = 42;
        let receipt = claim_tokens(&mut ctx, ID, 10_000).unwrap();
        assert!(receipt.transfer.amount <= held);
        held -= receipt.transfer.amount;
        paid += receipt.transfer.amount;
        registry = ctx.registry;
        assert_eq!(registry.claimed_count, i as u64 + 1);
        assert!(registry.claimed_count <= registry.contributor_count);
    }
    assert_eq!(held, 0);
    assert_eq!(paid, 1_000_000_007);
    assert_eq!(registry.total_funds, 0);
    assert_eq!(registry.unclaimed_rewards, 42);
}

#[test]
fn a_whole_campaign() {
    // A campaign of an hour, under a limit of 20 SOL.
    let mut config = state();
    config.fund_duration = 3600;
    config.max_fund_limit = 20_000_000_000;
    config.commission_rate = 5;
    let mut create = CreateMemeRegistry { registry: blank_registry(), state: config, authority: creator() };
    create_meme_registry(&mut create, ID, 1_000).unwrap();
    assert_eq!(create.registry.end_time, 4_600);

    // A contributes 1 SOL at 5 percent.
    let mut pay = contribute_ctx(create.registry, alice(), 1_000_000_000);
    pay.state = config;
    contribute(&mut pay, ID, 1_000_000_000, 1_500).unwrap();
    assert_eq!(pay.registry.total_funds, 950_000_000);
    assert_eq!(pay.registry.contributor_count, 1);

    // The creator launches the campaign: the three calls succeed, and the campaign has
    // its token.
    let mut launch = launch_ctx(pay.registry);
    let pump = PumpInterface {
        create_discriminator: [24, 30, 200, 40, 5, 28, 7, 119],
        buy_discriminator: [102, 6, 61, 18, 1, 218, 235, 234],
    };
    let plan = start_meme(&launch, ID, "Test", "TST", "https://x.io/m.json", 1_000_000, 950_000_000, &pump)
        .unwrap();
    assert_eq!(plan.create.accounts.len(), 14);
    assert_eq!(plan.buy.accounts.len(), 12);
    let mut step = launch_begin();
    let mut calls = 0;
    loop {
        calls += 1;
        match launch_advance(step, true) {
            LaunchVerdict::Continue(next) => step = next,
            LaunchVerdict::Complete => break,
            other => panic!("a launch whose calls succeed ended with {:?}", other),
        }
    }
    assert_eq!(calls, 3);
    let started = record_launch(
        &mut launch,
        ID,
        String::from("Test"),
        String::from("TST"),
        String::from("https://x.io/m.json"),
    )
    .unwrap();
    assert_eq!(started.mint, mint());
    assert_eq!(started.total_funds, 950_000_000);
    let registry = launch.registry;
    assert_eq!(registry.mint, mint());
    assert_eq!(registry, MemeRegistry { mint: mint(), ..pay.registry });

    // After the end of the window and the delay A claims everything that is held.
    let held = 987_654_321u64;
    let mut claim = claim_ctx(registry, pay.contribution, held);
    claim.state = config;
    let opens = registry.end_time + config.token_claim_available_time;
    assert_eq!(claim_tokens(&mut claim, ID, opens - 1), Err(MemeError::ClaimTimeNotReached));
    let receipt = claim_tokens(&mut claim, ID, opens).unwrap();
    assert_eq!(receipt.transfer.amount, held);
    assert_eq!(receipt.event.amount, held);

    // A's second claim fails.
    assert_eq!(claim_tokens(&mut claim, ID, opens), Err(MemeError::AlreadyClaimed));
}

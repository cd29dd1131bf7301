use anchor_lang::prelude::Pubkey;
use anchor_lang::solana_program::system_instruction;
use meme_fund::accounts::Contribute;
use meme_fund::address::{bytes_equal, Address};
use meme_fund::contribute::contribute;
use meme_fund::pda::{
    bump_if_derived, bytes_to_vec, find_contribution, find_registry, find_state, find_vault,
    signer_seeds_for_vault, vault_bump,
};
use meme_fund::state::{same_meme_id, Contribution, MemeRegistry, State};

fn address_of(key: &Pubkey) -> Address {
    Address::new(key.to_bytes())
}

#[test]
fn test_pda_derivation() {
    let program_id = address_of(&Pubkey::new_unique());
    let meme_id = [1u8; 16];

    let (registry_pda, _) = find_registry(&meme_id, &program_id).unwrap();

    let (vault_pda, _) = find_vault(&meme_id, &program_id).unwrap();

    assert_ne!(registry_pda, vault_pda, "PDAs should be different");
}

#[test]
fn derived_addresses_are_those_of_the_ledger() {
    let program = Pubkey::new_unique();
    let program_id = address_of(&program);
    let meme_id = [1u8; 16];
    let contributor = Pubkey::new_unique();

    let (key, bump) = Pubkey::find_program_address(&[b"state"], &program);
    assert_eq!(find_state(&program_id), Some((address_of(&key), bump)));

    let (key, bump) = Pubkey::find_program_address(&[b"registry", &meme_id], &program);
    assert_eq!(find_registry(&meme_id, &program_id), Some((address_of(&key), bump)));

    let (key, bump) = Pubkey::find_program_address(&[b"vault", &meme_id], &program);
    assert_eq!(find_vault(&meme_id, &program_id), Some((address_of(&key), bump)));

    let (key, bump) = Pubkey::find_program_address(
        &[b"contribution", &meme_id, contributor.as_ref()],
        &program,
    );
    assert_eq!(
        find_contribution(&meme_id, &address_of(&contributor), &program_id),
        Some((address_of(&key), bump))
    );
}

#[test]
fn derived_addresses_depend_on_every_seed() {
    let program_id = address_of(&Pubkey::new_unique());
    let other_program = address_of(&Pubkey::new_unique());
    let a = [1u8; 16];
    let b = [2u8; 16];
    assert_ne!(find_vault(&a, &program_id), find_vault(&b, &program_id));
    assert_ne!(find_vault(&a, &program_id), find_vault(&a, &other_program));
    assert_ne!(find_registry(&a, &program_id), find_registry(&b, &program_id));
    let alice = Address::new([5; 32]);
    let bob = Address::new([6; 32]);
    assert_ne!(
        find_contribution(&a, &alice, &program_id),
        find_contribution(&a, &bob, &program_id)
    );
    assert_ne!(
        find_contribution(&a, &alice, &program_id),
        find_contribution(&b, &alice, &program_id)
    );
    assert_eq!(find_vault(&a, &program_id), find_vault(&a, &program_id));
}

#[test]
fn a_derived_address_is_made_by_its_signer_seeds() {
    let program = Pubkey::new_unique();
    let meme_id = [3u8; 16];
    let (vault, bump) = find_vault(&meme_id, &address_of(&program)).unwrap();
    let seeds = signer_seeds_for_vault(&meme_id, bump);
    assert_eq!(seeds, vec![b"vault".to_vec(), meme_id.to_vec(), vec![bump]]);
    let slices: Vec<&[u8]> = seeds.iter().map(|s| s.as_slice()).collect();
    let made = Pubkey::create_program_address(&slices, &program).unwrap();
    assert_eq!(address_of(&made), vault);
}

#[test]
fn a_holding_address_is_recognised() {
    let program = Pubkey::new_unique();
    let program_id = address_of(&program);
    let meme_id = [3u8; 16];
    let (vault, bump) = find_vault(&meme_id, &program_id).unwrap();
    assert_eq!(vault_bump(&meme_id, &program_id, &vault), Some(bump));
    // Another campaign's holding address, the campaign's record, any other account: none
    // of them is this campaign's holding address.
    let (other_vault, _) = find_vault(&[4u8; 16], &program_id).unwrap();
    assert_eq!(vault_bump(&meme_id, &program_id, &other_vault), None);
    let (registry, _) = find_registry(&meme_id, &program_id).unwrap();
    assert_eq!(vault_bump(&meme_id, &program_id, &registry), None);
    assert_eq!(vault_bump(&meme_id, &program_id, &Address::new([9; 32])), None);
    assert_eq!(vault_bump(&meme_id, &address_of(&Pubkey::new_unique()), &vault), None);
}

#[test]
fn a_bump_is_given_for_the_address_that_was_found() {
    let a = Address::new([1; 32]);
    let b = Address::new([2; 32]);
    assert_eq!(bump_if_derived(Some((a, 250)), &a), Some(250));
    assert_eq!(bump_if_derived(Some((a, 250)), &b), None);
    assert_eq!(bump_if_derived(None, &a), None);
}

#[test]
fn the_transfers_are_those_of_the_system_program() {
    let contributor = Pubkey::new_unique();
    let fee_recipient = Pubkey::new_unique();
    let vault = Pubkey::new_unique();
    let id = [7u8; 16];
    let mut ctx = Contribute {
        vault: address_of(&vault),
        registry: MemeRegistry {
            meme_id: id,
            total_funds: 0,
            start_time: 0,
            end_time: 100,
            authority: Address::unset(),
            contributor_count: 0,
            mint: Address::unset(),
            unclaimed_rewards: 0,
            claimed_count: 0,
        },
        contribution: Contribution {
            meme_id: id,
            contributor: Address::unset(),
            amount: 0,
            timestamp: 0,
            is_claimed: false,
        },
        contributor: address_of(&contributor),
        contributor_lamports: 2_000_000_000,
        state: State {
            fee_recipient: address_of(&fee_recipient),
            max_buy_amount: 2_000_000_000,
            min_buy_amount: 100_000_000,
            authority: Address::unset(),
            fund_duration: 100,
            max_fund_limit: 20_000_000_000,
            commission_rate: 7,
            token_claim_available_time: 0,
        },
        fee_recipient: address_of(&fee_recipient),
    };
    let receipt = contribute(&mut ctx, id, 1_234_567_890, 5).unwrap();

    let expected = system_instruction::transfer(&contributor, &fee_recipient, 86_419_752);
    assert_eq!(receipt.commission_transfer.program_id, address_of(&expected.program_id));
    assert_eq!(receipt.commission_transfer.data, expected.data);
    assert_eq!(receipt.commission_transfer.accounts.len(), expected.accounts.len());
    for (ours, theirs) in receipt.commission_transfer.accounts.iter().zip(expected.accounts.iter()) {
        assert_eq!(ours.pubkey, address_of(&theirs.pubkey));
        assert_eq!(ours.is_signer, theirs.is_signer);
        assert_eq!(ours.is_writable, theirs.is_writable);
    }

    let expected = system_instruction::transfer(&contributor, &vault, 1_148_148_138);
    assert_eq!(receipt.net_transfer.data, expected.data);
    assert_eq!(receipt.net_transfer.accounts[0].pubkey, address_of(&contributor));
    assert_eq!(receipt.net_transfer.accounts[1].pubkey, address_of(&vault));
}

#[test]
fn the_unset_address_is_all_zero() {
    assert_eq!(Address::unset().bytes, [0u8; 32]);
    assert_eq!(Address::unset(), address_of(&Pubkey::default()));
    assert!(Address::unset().is_unset());
    assert!(!Address::new([1; 32]).is_unset());
    let mut almost = [0u8; 32];
    almost[31] = 1;
    assert!(!Address::new(almost).is_unset());
}

#[test]
fn addresses_are_compared_byte_for_byte() {
    let a = Address::new([1; 32]);
    let mut bytes = [1u8; 32];
    bytes[17] = 2;
    let b = Address::new(bytes);
    assert!(a.equals(&a));
    assert!(a.equals(&Address::new([1; 32])));
    assert!(!a.equals(&b));
    assert!(!b.equals(&a));
    assert!(bytes_equal(&[1, 2, 3], &[1, 2, 3]));
    assert!(!bytes_equal(&[1, 2, 3], &[1, 2]));
    assert!(!bytes_equal(&[1, 2, 3], &[1, 2, 4]));
    assert!(bytes_equal(&[], &[]));
    assert!(same_meme_id(&[4; 16], &[4; 16]));
    let mut id = [4u8; 16];
    id[0] = 5;
    assert!(!same_meme_id(&[4; 16], &id));
    assert_eq!(bytes_to_vec(&[1, 2, 3]), vec![1, 2, 3]);
}

use vstd::prelude::*;
use anchor_lang::prelude::Pubkey;
use crate::address::{lemma_address_extensional, Address};

verus! {

/// The ASCII bytes of `state`, which tag the configuration record.
pub open spec fn state_tag() -> Seq<u8> {
    seq![0x73u8, 0x74u8, 0x61u8, 0x74u8, 0x65u8]
}

/// The ASCII bytes of `registry`, which tag a campaign record.
pub open spec fn registry_tag() -> Seq<u8> {
    seq![0x72u8, 0x65u8, 0x67u8, 0x69u8, 0x73u8, 0x74u8, 0x72u8, 0x79u8]
}

/// The ASCII bytes of `vault`, which tag a campaign's holding address.
pub open spec fn vault_tag() -> Seq<u8> {
    seq![0x76u8, 0x61u8, 0x75u8, 0x6cu8, 0x74u8]
}

/// The ASCII bytes of `contribution`, which tag a contribution record.
pub open spec fn contribution_tag() -> Seq<u8> {
    seq![
        0x63u8, 0x6fu8, 0x6eu8, 0x74u8, 0x72u8, 0x69u8, 0x62u8, 0x75u8, 0x74u8, 0x69u8, 0x6fu8,
        0x6eu8,
    ]
}

/// The seeds of the configuration record.
pub open spec fn state_seeds() -> Seq<Seq<u8>> {
    seq![state_tag()]
}

/// The seeds of the record of campaign `meme_id`.
pub open spec fn registry_seeds(meme_id: Seq<u8>) -> Seq<Seq<u8>> {
    seq![registry_tag(), meme_id]
}

/// The seeds of the holding address of campaign `meme_id`.
pub open spec fn vault_seeds(meme_id: Seq<u8>) -> Seq<Seq<u8>> {
    seq![vault_tag(), meme_id]
}

/// The seeds of the record of `contributor`'s contribution to campaign `meme_id`.
pub open spec fn contribution_seeds(meme_id: Seq<u8>, contributor: Seq<u8>) -> Seq<Seq<u8>> {
    seq![contribution_tag(), meme_id, contributor]
}

/// The seeds with which a campaign's holding address signs: its seeds, then its bump.
pub open spec fn vault_signer_seeds(meme_id: Seq<u8>, bump: u8) -> Seq<Seq<u8>> {
    seq![vault_tag(), meme_id, seq![bump]]
}

/// What a list of seeds holds, as mathematical values.
pub open spec fn seeds_view(seeds: Seq<Vec<u8>>) -> Seq<Seq<u8>> {
    Seq::new(seeds.len(), |i: int| seeds[i]@)
}

/// The program-derived address, with its bump, that the ledger assigns to `seeds` under
/// the program `program_id`; `None` where it assigns none.
pub uninterp spec fn program_address(seeds: Seq<Seq<u8>>, program_id: Seq<u8>) -> Option<(Seq<u8>, u8)>;

/// Whether `found` is what the ledger derives from `seeds` under `program_id`.
pub open spec fn is_derived(
    seeds: Seq<Seq<u8>>,
    program_id: Address,
    found: Option<(Address, u8)>,
) -> bool {
    match found {
        Some((address, bump)) => program_address(seeds, program_id@) == Some((address@, bump)),
        None => program_address(seeds, program_id@) is None,
    }
}

/// Calls `Pubkey::try_find_program_address`, which searches for the bump that gives the
/// seeds an address under the program. Trusted: that its result depends on the seeds and
/// the program's address alone. Nothing is claimed of which address it is.
#[verifier::external_body]
pub(crate) fn try_find_program_address(seeds: &Vec<Vec<u8>>, program_id: &Address) -> (r: Option<(Address, u8)>)
    ensures
        match r {
            Some((address, bump)) => program_address(seeds_view(seeds@), program_id@) == Some(
                (address@, bump),
            ),
            None => program_address(seeds_view(seeds@), program_id@) is None,
        },
{
    let slices: Vec<&[u8]> = seeds.iter().map(|s| s.as_slice()).collect();
    let id = Pubkey::new_from_array(program_id.bytes);
    let found = Pubkey::try_find_program_address(&slices, &id);
    found.map(|(key, bump)| (Address { bytes: key.to_bytes() }, bump))
}

/// The tag of the configuration record.
fn state_tag_bytes() -> (r: Vec<u8>)
    ensures
        r@ == state_tag(),
{
    let r: Vec<u8> = vec![0x73u8, 0x74u8, 0x61u8, 0x74u8, 0x65u8];
    assert(r@ =~= state_tag());
    r
}

/// The tag of a campaign record.
fn registry_tag_bytes() -> (r: Vec<u8>)
    ensures
        r@ == registry_tag(),
{
    let r: Vec<u8> = vec![0x72u8, 0x65u8, 0x67u8, 0x69u8, 0x73u8, 0x74u8, 0x72u8, 0x79u8];
    assert(r@ =~= registry_tag());
    r
}

/// The tag of a campaign's holding address.
fn vault_tag_bytes() -> (r: Vec<u8>)
    ensures
        r@ == vault_tag(),
{
    let r: Vec<u8> = vec![0x76u8, 0x61u8, 0x75u8, 0x6cu8, 0x74u8];
    assert(r@ =~= vault_tag());
    r
}

/// The tag of a contribution record.
fn contribution_tag_bytes() -> (r: Vec<u8>)
    ensures
        r@ == contribution_tag(),
{
    let r: Vec<u8> = vec![
        0x63u8, 0x6fu8, 0x6eu8, 0x74u8, 0x72u8, 0x69u8, 0x62u8, 0x75u8, 0x74u8, 0x69u8, 0x6fu8,
        0x6eu8,
    ];
    assert(r@ =~= contribution_tag());
    r
}

/// A copy of `bytes` in a vector.
pub fn bytes_to_vec(bytes: &[u8]) -> (r: Vec<u8>)
    ensures
        r@ == bytes@,
{
    let mut r: Vec<u8> = Vec::new();
    crate::encoding::put_bytes(&mut r, bytes);
    assert(r@ =~= bytes@);
    r
}

/// The seeds with which the holding address of campaign `meme_id` signs.
pub fn signer_seeds_for_vault(meme_id: &[u8; 16], bump: u8) -> (r: Vec<Vec<u8>>)
    ensures
        seeds_view(r@) == vault_signer_seeds(meme_id@, bump),
{
    let mut r: Vec<Vec<u8>> = Vec::new();
    r.push(vault_tag_bytes());
    r.push(bytes_to_vec(meme_id.as_slice()));
    let bump_seed: Vec<u8> = vec![bump];
    assert(bump_seed@ =~= seq![bump]);
    r.push(bump_seed);
    assert(seeds_view(r@) =~= vault_signer_seeds(meme_id@, bump));
    r
}

/// Where the configuration record lives under `program_id`.
pub fn find_state(program_id: &Address) -> (r: Option<(Address, u8)>)
    ensures
        is_derived(state_seeds(), *program_id, r),
{
    let mut seeds: Vec<Vec<u8>> = Vec::new();
    seeds.push(state_tag_bytes());
    assert(seeds_view(seeds@) =~= state_seeds());
    try_find_program_address(&seeds, program_id)
}

/// Where the record of campaign `meme_id` lives under `program_id`.
pub fn find_registry(meme_id: &[u8; 16], program_id: &Address) -> (r: Option<(Address, u8)>)
    ensures
        is_derived(registry_seeds(meme_id@), *program_id, r),
{
    let mut seeds: Vec<Vec<u8>> = Vec::new();
    seeds.push(registry_tag_bytes());
    seeds.push(bytes_to_vec(meme_id.as_slice()));
    assert(seeds_view(seeds@) =~= registry_seeds(meme_id@));
    try_find_program_address(&seeds, program_id)
}

/// The holding address of campaign `meme_id` under `program_id`.
pub fn find_vault(meme_id: &[u8; 16], program_id: &Address) -> (r: Option<(Address, u8)>)
    ensures
        is_derived(vault_seeds(meme_id@), *program_id, r),
{
    let mut seeds: Vec<Vec<u8>> = Vec::new();
    seeds.push(vault_tag_bytes());
    seeds.push(bytes_to_vec(meme_id.as_slice()));
    assert(seeds_view(seeds@) =~= vault_seeds(meme_id@));
    try_find_program_address(&seeds, program_id)
}

/// Where the record of `contributor`'s contribution to campaign `meme_id` lives under
/// `program_id`.
pub fn find_contribution(meme_id: &[u8; 16], contributor: &Address, program_id: &Address) -> (r:
    Option<(Address, u8)>)
    ensures
        is_derived(contribution_seeds(meme_id@, contributor@), *program_id, r),
{
    let mut seeds: Vec<Vec<u8>> = Vec::new();
    seeds.push(contribution_tag_bytes());
    seeds.push(bytes_to_vec(meme_id.as_slice()));
    seeds.push(bytes_to_vec(contributor.bytes.as_slice()));
    assert(seeds_view(seeds@) =~= contribution_seeds(meme_id@, contributor@));
    try_find_program_address(&seeds, program_id)
}

/// The bump with which `account` is the address that was found, if it is that address.
pub fn bump_if_derived(found: Option<(Address, u8)>, account: &Address) -> (r: Option<u8>)
    ensures
        r == match found {
            Some((address, bump)) => if address == *account {
                Some(bump)
            } else {
                None
            },
            None => None,
        },
{
    match found {
        Some((address, bump)) => if address.equals(account) {
            Some(bump)
        } else {
            None
        },
        None => None,
    }
}

/// Whether `vault` is the holding address of campaign `meme_id` under `program_id`: its
/// bump if it is, `None` if it is not.
pub fn vault_bump(meme_id: &[u8; 16], program_id: &Address, vault: &Address) -> (r: Option<u8>)
    ensures
        match r {
            Some(bump) => is_derived(vault_seeds(meme_id@), *program_id, Some((*vault, bump))),
            None => forall|bump: u8|
                !is_derived(vault_seeds(meme_id@), *program_id, Some((*vault, bump))),
        },
{
    let found = find_vault(meme_id, program_id);
    proof {
        if let Some((address, _)) = found {
            if address@ == vault@ {
                lemma_address_extensional(address, *vault);
            }
        }
    }
    bump_if_derived(found, vault)
}

} // verus!

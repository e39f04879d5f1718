use vstd::prelude::*;

use crate::key::Key;

verus! {

/// The domain-separation prefix of stake-entry addresses: `stake-entry`.
pub open spec fn stake_entry_prefix() -> Seq<u8> {
    seq![115u8, 116, 97, 107, 101, 45, 101, 110, 116, 114, 121]
}

/// The domain-separation prefix of group-reward-entry addresses: `group-reward-entry`.
pub open spec fn group_reward_entry_prefix() -> Seq<u8> {
    seq![103u8, 114, 111, 117, 112, 45, 114, 101, 119, 97, 114, 100, 45, 101, 110, 116, 114, 121]
}

/// The prefix of token-metadata addresses: `metadata`.
pub open spec fn metadata_prefix() -> Seq<u8> {
    seq![109u8, 101, 116, 97, 100, 97, 116, 97]
}

/// The program-derived address of `seeds` under `program`, with its bump, or `None` when
/// no bump yields a valid address.
pub uninterp spec fn pda_of(seeds: Seq<Seq<u8>>, program: Seq<u8>) -> Option<(Seq<u8>, u8)>;

/// The seed that separates stake positions: a non-divisible asset (supply one) has a
/// single slot shared by every staker, a divisible one a slot per staker.
pub open spec fn stake_seed(supply: u64, user: Seq<u8>) -> Seq<u8> {
    if supply == 1 {
        Seq::new(32, |i: int| 0u8)
    } else {
        user
    }
}

pub open spec fn stake_entry_seed_list(pool: Seq<u8>, mint: Seq<u8>, seed: Seq<u8>) -> Seq<Seq<u8>> {
    seq![stake_entry_prefix(), pool, mint, seed]
}

pub open spec fn group_reward_entry_seed_list(distributor: Seq<u8>, group: Seq<u8>) -> Seq<Seq<u8>> {
    seq![group_reward_entry_prefix(), distributor, group]
}

pub open spec fn metadata_seed_list(metadata_program: Seq<u8>, mint: Seq<u8>) -> Seq<Seq<u8>> {
    seq![metadata_prefix(), metadata_program, mint]
}

/// A seed list as byte strings.
pub open spec fn seeds_view(v: Vec<Vec<u8>>) -> Seq<Seq<u8>> {
    v@.map_values(|s: Vec<u8>| s@)
}

/// The derived identity and bump as library values.
pub open spec fn derived_view(r: Option<(Key, u8)>) -> Option<(Seq<u8>, u8)> {
    match r {
        Some((k, b)) => Some((k@, b)),
        None => None,
    }
}

/// Relies on `Pubkey::try_find_program_address` of solana-program: the derived address
/// and bump depend on the seeds and the program alone; `None` where no bump works or the
/// seeds are out of bounds.
#[verifier::external_body]
fn find_program_address(seeds: &Vec<Vec<u8>>, program: &Key) -> (r: Option<(Key, u8)>)
    ensures
        derived_view(r) == pda_of(seeds_view(*seeds), program@),
{
    let refs: Vec<&[u8]> = seeds.iter().map(|s| s.as_slice()).collect();
    let program_id = solana_program::pubkey::Pubkey::new_from_array(program.bytes);
    solana_program::pubkey::Pubkey::try_find_program_address(&refs, &program_id).map(
        |(k, b)| (Key { bytes: k.to_bytes() }, b),
    )
}

/// The stake seed of `user` for an asset of the given supply.
pub fn get_stake_seed(supply: u64, user: &Key) -> (r: Key)
    ensures
        r@ == stake_seed(supply, user@),
{
    if supply == 1 {
        Key::zero()
    } else {
        *user
    }
}

/// The seed list that locates the stake entry of (`pool`, `mint`, `seed`).
pub fn stake_entry_seeds(pool: &Key, mint: &Key, seed: &Key) -> (r: Vec<Vec<u8>>)
    ensures
        seeds_view(r) == stake_entry_seed_list(pool@, mint@, seed@),
{
    let mut r: Vec<Vec<u8>> = Vec::new();
    r.push(vec![115u8, 116, 97, 107, 101, 45, 101, 110, 116, 114, 121]);
    r.push(pool.to_vec());
    r.push(mint.to_vec());
    r.push(seed.to_vec());
    assert(seeds_view(r) =~= stake_entry_seed_list(pool@, mint@, seed@));
    r
}

/// The seed list that locates the reward entry of `group` under `distributor`.
pub fn group_reward_entry_seeds(distributor: &Key, group: &Key) -> (r: Vec<Vec<u8>>)
    ensures
        seeds_view(r) == group_reward_entry_seed_list(distributor@, group@),
{
    let mut r: Vec<Vec<u8>> = Vec::new();
    r.push(vec![103u8, 114, 111, 117, 112, 45, 114, 101, 119, 97, 114, 100, 45, 101, 110, 116, 114, 121]);
    r.push(distributor.to_vec());
    r.push(group.to_vec());
    assert(seeds_view(r) =~= group_reward_entry_seed_list(distributor@, group@));
    r
}

/// The seed list that locates the token metadata of `mint`.
pub fn metadata_seeds(metadata_program: &Key, mint: &Key) -> (r: Vec<Vec<u8>>)
    ensures
        seeds_view(r) == metadata_seed_list(metadata_program@, mint@),
{
    let mut r: Vec<Vec<u8>> = Vec::new();
    r.push(vec![109u8, 101, 116, 97, 100, 97, 116, 97]);
    r.push(metadata_program.to_vec());
    r.push(mint.to_vec());
    assert(seeds_view(r) =~= metadata_seed_list(metadata_program@, mint@));
    r
}

/// The identity and bump of the stake entry of (`pool`, `mint`, `seed`) under `program`.
pub fn derive_stake_entry_id(program: &Key, pool: &Key, mint: &Key, seed: &Key) -> (r: Option<(Key, u8)>)
    ensures
        derived_view(r) == pda_of(stake_entry_seed_list(pool@, mint@, seed@), program@),
{
    let seeds = stake_entry_seeds(pool, mint, seed);
    find_program_address(&seeds, program)
}

/// The identity and bump of the reward entry of `group` under `distributor`.
pub fn derive_group_reward_entry_id(program: &Key, distributor: &Key, group: &Key) -> (r: Option<(Key, u8)>)
    ensures
        derived_view(r) == pda_of(group_reward_entry_seed_list(distributor@, group@), program@),
{
    let seeds = group_reward_entry_seeds(distributor, group);
    find_program_address(&seeds, program)
}

/// The address and bump of the token metadata of `mint`.
pub fn derive_metadata_id(metadata_program: &Key, mint: &Key) -> (r: Option<(Key, u8)>)
    ensures
        derived_view(r) == pda_of(metadata_seed_list(metadata_program@, mint@), metadata_program@),
{
    let seeds = metadata_seeds(metadata_program, mint);
    find_program_address(&seeds, metadata_program)
}

} // verus!

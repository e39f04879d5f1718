use vstd::prelude::*;

use crate::address::{derive_metadata_id, derived_view, metadata_seed_list, pda_of};
use crate::errors::ErrorCode;
use crate::key::{same_key, Key};
use crate::ledger::StakeEntry;
use crate::metadata::{decode_metadata, decoded_metadata, metadata_view, MetadataFields, MintMetadata};
use crate::policy::{all_distinct, all_equal, has_unique_elements, is_all_same, items_view};

verus! {

/// Which metadata members of a group must not share.
#[derive(Clone, Copy, Debug, PartialEq, Eq, Structural)]
pub enum GroupRewardDistributorMetadataKind {
    Unrestricted,
    UniqueNames,
    UniqueSymbols,
}

/// How the members of a group must be spread over pools.
#[derive(Clone, Copy, Debug, PartialEq, Eq, Structural)]
pub enum GroupRewardDistributorPoolKind {
    Unrestricted,
    AllFromSinglePool,
    EachFromSeparatePool,
}

/// The policy that a group must meet to earn group rewards.
#[derive(Debug)]
pub struct GroupRewardDistributor {
    pub min_group_size: Option<u8>,
    pub min_stake_seconds: u128,
    pub min_cooldown_seconds: u32,
    pub authorized_pools: Vec<Key>,
    pub authorized_creators: Option<Vec<Key>>,
    pub metadata_kind: GroupRewardDistributorMetadataKind,
    pub pool_kind: GroupRewardDistributorPoolKind,
}

/// A group of stake positions with its aggregate durations.
#[derive(Debug)]
pub struct GroupStakeEntry {
    /// Identities of the member stake entries, in order.
    pub stake_entries: Vec<Key>,
    pub group_stake_seconds: u128,
    pub group_cooldown_seconds: u32,
}

/// The reward record of one stake entry.
#[derive(Clone, Copy, Debug)]
pub struct RewardEntry {
    pub stake_entry: Key,
    pub multiplier: u64,
}

/// The reward record of a group under a distributor.
#[derive(Clone, Copy, Debug)]
pub struct GroupRewardEntry {
    pub group_reward_distributor: Key,
    pub group_entry: Key,
    pub multiplier: u64,
    pub reward_seconds_received: u128,
    pub bump: u8,
}

/// Number of group reward entries created for a distributor.
#[derive(Clone, Copy, Debug)]
pub struct GroupRewardCounter {
    pub count: u64,
}

/// The records supplied for one member of a group. `None` and `false` stand for an
/// account that is empty or holds no record of the expected kind.
#[derive(Debug)]
pub struct MemberAccounts {
    pub stake_entry_id: Key,
    pub stake_entry: Option<StakeEntry>,
    pub mint_id: Key,
    pub mint_exists: bool,
    pub metadata_id: Key,
    pub metadata_owner: Key,
    pub metadata_data: Vec<u8>,
    pub reward_entry: Option<RewardEntry>,
}

/// Whether `k` is among `keys`.
pub open spec fn key_in(keys: Seq<Key>, k: Seq<u8>) -> bool {
    exists|j: int| 0 <= j < keys.len() && #[trigger] keys[j]@ == k
}

/// Whether some verified creator is among `authorized`.
pub open spec fn has_authorized_creator(authorized: Seq<Key>, creators: Seq<(Seq<u8>, bool)>) -> bool {
    exists|j: int| 0 <= j < creators.len() && #[trigger] creators[j].1 && key_in(authorized, creators[j].0)
}

/// Whether `meta` passes the distributor's creator policy.
pub open spec fn creators_allowed(authorized: Option<Vec<Key>>, meta: MetadataFields) -> bool {
    match authorized {
        None => true,
        Some(a) => match meta.3 {
            Some(cs) => has_authorized_creator(a@, cs),
            None => false,
        },
    }
}

/// The first check that the member at a group position fails, if any; `expected` is
/// the identity the group records there, `derived` the derived metadata address of
/// the member's asset and `meta` its decoded metadata.
pub open spec fn member_error(
    d: GroupRewardDistributor,
    expected: Key,
    a: MemberAccounts,
    derived: Option<(Seq<u8>, u8)>,
    meta: Option<MetadataFields>,
    metadata_program: Seq<u8>,
) -> Option<ErrorCode> {
    match a.stake_entry {
        None => Some(ErrorCode::InvalidStakeEntry),
        Some(se) => if a.stake_entry_id@ != expected@ {
            Some(ErrorCode::InvalidStakeEntry)
        } else if !key_in(d.authorized_pools@, se.pool@) {
            Some(ErrorCode::InvalidPool)
        } else if !a.mint_exists || a.mint_id@ != se.original_mint@ {
            Some(ErrorCode::InvalidOriginalMint)
        } else if a.metadata_data@.len() == 0 {
            Some(ErrorCode::InvalidMintMetadata)
        } else if !(match derived {
            Some((k, _)) => k == a.metadata_id@,
            None => false,
        }) {
            Some(ErrorCode::InvalidMintMetadata)
        } else if a.metadata_owner@ != metadata_program {
            Some(ErrorCode::InvalidMintMetadataOwner)
        } else {
            match meta {
                None => Some(ErrorCode::InvalidMintMetadata),
                Some(m) => if m.0 != a.mint_id@ {
                    Some(ErrorCode::InvalidMintMetadata)
                } else if !creators_allowed(d.authorized_creators, m) {
                    Some(ErrorCode::InvalidOriginalMint)
                } else {
                    match a.reward_entry {
                        None => Some(ErrorCode::InvalidRewardEntry),
                        Some(re) => if re.stake_entry@ != a.stake_entry_id@ {
                            Some(ErrorCode::InvalidRewardEntry)
                        } else {
                            None
                        },
                    }
                },
            }
        },
    }
}

pub open spec fn reward_multiplier(a: MemberAccounts) -> int {
    match a.reward_entry {
        Some(re) => re.multiplier as int,
        None => 0,
    }
}

/// Sum of the reward multipliers of the first `n` members.
pub open spec fn multiplier_sum(members: Seq<MemberAccounts>, n: nat) -> int
    decreases n,
{
    if n == 0 {
        0
    } else {
        multiplier_sum(members, (n - 1) as nat) + reward_multiplier(members[n - 1])
    }
}

/// The first failure among the first `n` group positions, in order: a missing
/// member, a failed member check, or a running multiplier sum past `u64::MAX`.
pub open spec fn members_error(
    d: GroupRewardDistributor,
    g: GroupStakeEntry,
    members: Seq<MemberAccounts>,
    derived: Seq<Option<(Seq<u8>, u8)>>,
    metas: Seq<Option<MetadataFields>>,
    metadata_program: Seq<u8>,
    n: nat,
) -> Option<ErrorCode>
    decreases n,
{
    if n == 0 {
        None
    } else {
        match members_error(d, g, members, derived, metas, metadata_program, (n - 1) as nat) {
            Some(e) => Some(e),
            None => if n - 1 >= members.len() {
                Some(ErrorCode::NotEnoughAccountKeys)
            } else {
                let i = n - 1;
                match member_error(d, g.stake_entries@[i], members[i], derived[i], metas[i], metadata_program) {
                    Some(e) => Some(e),
                    None => if multiplier_sum(members, n) > u64::MAX {
                        Some(ErrorCode::ArithmeticOverflow)
                    } else {
                        None
                    },
                }
            },
        }
    }
}

pub open spec fn meta_name(m: Option<MetadataFields>) -> Seq<u8> {
    match m {
        Some(t) => t.1,
        None => Seq::empty(),
    }
}

pub open spec fn meta_symbol(m: Option<MetadataFields>) -> Seq<u8> {
    match m {
        Some(t) => t.2,
        None => Seq::empty(),
    }
}

pub open spec fn entry_pool(a: MemberAccounts) -> Seq<u8> {
    match a.stake_entry {
        Some(se) => se.pool@,
        None => Seq::empty(),
    }
}

/// Whether the members' names and symbols meet the distributor's metadata policy.
pub open spec fn metadata_policy_met(
    kind: GroupRewardDistributorMetadataKind,
    names: Seq<Seq<u8>>,
    symbols: Seq<Seq<u8>>,
) -> bool {
    match kind {
        GroupRewardDistributorMetadataKind::UniqueNames => all_distinct(names),
        GroupRewardDistributorMetadataKind::UniqueSymbols => all_distinct(symbols),
        GroupRewardDistributorMetadataKind::Unrestricted => true,
    }
}

/// Whether the members' pools meet the distributor's pool policy.
pub open spec fn pool_policy_met(kind: GroupRewardDistributorPoolKind, pools: Seq<Seq<u8>>) -> bool {
    match kind {
        GroupRewardDistributorPoolKind::AllFromSinglePool => all_equal(pools),
        GroupRewardDistributorPoolKind::EachFromSeparatePool => all_distinct(pools),
        GroupRewardDistributorPoolKind::Unrestricted => true,
    }
}

/// The group's multiplier, the floor of the mean of its members' multipliers, or the
/// first policy it violates.
pub open spec fn group_outcome(
    d: GroupRewardDistributor,
    g: GroupStakeEntry,
    members: Seq<MemberAccounts>,
    derived: Seq<Option<(Seq<u8>, u8)>>,
    metas: Seq<Option<MetadataFields>>,
    metadata_program: Seq<u8>,
) -> Result<u64, ErrorCode> {
    let n = g.stake_entries@.len();
    if d.min_group_size is Some && n < d.min_group_size->0 {
        Err(ErrorCode::InvalidGroupSize)
    } else if g.group_stake_seconds < d.min_stake_seconds {
        Err(ErrorCode::InvalidGroupSeconds)
    } else if g.group_cooldown_seconds < d.min_cooldown_seconds {
        Err(ErrorCode::InvalidGroupSeconds)
    } else {
        match members_error(d, g, members, derived, metas, metadata_program, n) {
            Some(e) => Err(e),
            None => if !metadata_policy_met(
                d.metadata_kind,
                Seq::new(n, |i: int| meta_name(metas[i])),
                Seq::new(n, |i: int| meta_symbol(metas[i])),
            ) {
                Err(ErrorCode::InvalidStakeEntry)
            } else if !pool_policy_met(d.pool_kind, Seq::new(n, |i: int| entry_pool(members[i]))) {
                Err(ErrorCode::InvalidStakeEntry)
            } else {
                Ok((multiplier_sum(members, n) / (n as int)) as u64)
            },
        }
    }
}

/// Whether `k` is among `keys`.
pub fn contains_key(keys: &Vec<Key>, k: &Key) -> (r: bool)
    ensures
        r == key_in(keys@, k@),
{
    let mut i: usize = 0;
    while i < keys.len()
        invariant
            i <= keys@.len(),
            forall|j: int| 0 <= j < i ==> #[trigger] keys@[j]@ != k@,
        decreases keys.len() - i,
    {
        if same_key(&keys[i], k) {
            return true;
        }
        i = i + 1;
    }
    false
}

/// Whether some verified creator is among `authorized`.
pub fn find_authorized_creator(authorized: &Vec<Key>, creators: &Vec<crate::metadata::Creator>) -> (r: bool)
    ensures
        r == has_authorized_creator(authorized@, crate::metadata::creators_view(Some(*creators))->0),
{
    let ghost cs = crate::metadata::creators_view(Some(*creators))->0;
    let mut i: usize = 0;
    while i < creators.len()
        invariant
            i <= creators@.len(),
            cs == creators@.map_values(|c: crate::metadata::Creator| crate::metadata::creator_view(c)),
            forall|j: int| 0 <= j < i ==> !(#[trigger] cs[j].1 && key_in(authorized@, cs[j].0)),
        decreases creators.len() - i,
    {
        if creators[i].verified && contains_key(authorized, &creators[i].address) {
            assert(cs[i as int].1 && key_in(authorized@, cs[i as int].0));
            return true;
        }
        i = i + 1;
    }
    false
}

/// Checks the member at a group position; `expected` is the identity that the group
/// records there.
pub fn check_member(
    d: &GroupRewardDistributor,
    expected: &Key,
    a: &MemberAccounts,
    derived: &Option<(Key, u8)>,
    meta: &Option<MintMetadata>,
    metadata_program: &Key,
) -> (r: Option<ErrorCode>)
    ensures
        r == member_error(*d, *expected, *a, derived_view(*derived), metadata_view(*meta), metadata_program@),
{
    let se = match &a.stake_entry {
        None => return Some(ErrorCode::InvalidStakeEntry),
        Some(se) => se,
    };
    if !same_key(&a.stake_entry_id, expected) {
        return Some(ErrorCode::InvalidStakeEntry);
    }
    if !contains_key(&d.authorized_pools, &se.pool) {
        return Some(ErrorCode::InvalidPool);
    }
    if !a.mint_exists || !same_key(&a.mint_id, &se.original_mint) {
        return Some(ErrorCode::InvalidOriginalMint);
    }
    if a.metadata_data.len() == 0 {
        return Some(ErrorCode::InvalidMintMetadata);
    }
    match derived {
        Some((k, _)) => if !same_key(k, &a.metadata_id) {
            return Some(ErrorCode::InvalidMintMetadata);
        },
        None => return Some(ErrorCode::InvalidMintMetadata),
    }
    if !same_key(&a.metadata_owner, metadata_program) {
        return Some(ErrorCode::InvalidMintMetadataOwner);
    }
    let m = match meta {
        None => return Some(ErrorCode::InvalidMintMetadata),
        Some(m) => m,
    };
    if !same_key(&m.mint, &a.mint_id) {
        return Some(ErrorCode::InvalidMintMetadata);
    }
    if let Some(authorized) = &d.authorized_creators {
        match &m.creators {
            None => return Some(ErrorCode::InvalidOriginalMint),
            Some(cs) => if !find_authorized_creator(authorized, cs) {
                return Some(ErrorCode::InvalidOriginalMint);
            },
        }
    }
    match &a.reward_entry {
        None => Some(ErrorCode::InvalidRewardEntry),
        Some(re) => if !same_key(&re.stake_entry, &a.stake_entry_id) {
            Some(ErrorCode::InvalidRewardEntry)
        } else {
            None
        },
    }
}

proof fn lemma_members_error_persists(
    d: GroupRewardDistributor,
    g: GroupStakeEntry,
    members: Seq<MemberAccounts>,
    derived: Seq<Option<(Seq<u8>, u8)>>,
    metas: Seq<Option<MetadataFields>>,
    metadata_program: Seq<u8>,
    i: nat,
    n: nat,
)
    requires
        i <= n,
        members_error(d, g, members, derived, metas, metadata_program, i) is Some,
    ensures
        members_error(d, g, members, derived, metas, metadata_program, n)
            == members_error(d, g, members, derived, metas, metadata_program, i),
    decreases n - i,
{
    if i < n {
        lemma_members_error_persists(d, g, members, derived, metas, metadata_program, i, (n - 1) as nat);
    }
}

fn copy_bytes(v: &Vec<u8>) -> (r: Vec<u8>)
    ensures
        r@ == v@,
{
    let mut r: Vec<u8> = Vec::new();
    let mut i: usize = 0;
    while i < v.len()
        invariant
            i <= v@.len(),
            r@ == v@.subrange(0, i as int),
        decreases v.len() - i,
    {
        r.push(v[i]);
        i = i + 1;
        assert(r@ =~= v@.subrange(0, i as int));
    }
    assert(r@ =~= v@);
    r
}

pub open spec fn derived_views(derived: Seq<Option<(Key, u8)>>) -> Seq<Option<(Seq<u8>, u8)>> {
    derived.map_values(|x: Option<(Key, u8)>| derived_view(x))
}

pub open spec fn metadata_views(metas: Seq<Option<MintMetadata>>) -> Seq<Option<MetadataFields>> {
    metas.map_values(|m: Option<MintMetadata>| metadata_view(m))
}

/// Validates a group against the distributor's policy and computes its multiplier.
/// `derived` and `metas` hold, for each supplied member, the derived metadata address
/// of its asset and its decoded metadata.
pub fn evaluate_group(
    d: &GroupRewardDistributor,
    g: &GroupStakeEntry,
    members: &Vec<MemberAccounts>,
    derived: &Vec<Option<(Key, u8)>>,
    metas: &Vec<Option<MintMetadata>>,
    metadata_program: &Key,
) -> (r: Result<u64, ErrorCode>)
    requires
        g.stake_entries@.len() > 0,
        derived@.len() == members@.len(),
        metas@.len() == members@.len(),
    ensures
        r == group_outcome(*d, *g, members@, derived_views(derived@), metadata_views(metas@), metadata_program@),
{
    let n = g.stake_entries.len();
    if let Some(min) = d.min_group_size {
        if n < min as usize {
            return Err(ErrorCode::InvalidGroupSize);
        }
    }
    if g.group_stake_seconds < d.min_stake_seconds {
        return Err(ErrorCode::InvalidGroupSeconds);
    }
    if g.group_cooldown_seconds < d.min_cooldown_seconds {
        return Err(ErrorCode::InvalidGroupSeconds);
    }
    let ghost dv = derived_views(derived@);
    let ghost mv = metadata_views(metas@);
    let mut names: Vec<Vec<u8>> = Vec::new();
    let mut symbols: Vec<Vec<u8>> = Vec::new();
    let mut pools: Vec<Vec<u8>> = Vec::new();
    let mut total: u64 = 0;
    let mut i: usize = 0;
    while i < n
        invariant
            n == g.stake_entries@.len(),
            i <= n,
            i <= members@.len(),
            derived@.len() == members@.len(),
            metas@.len() == members@.len(),
            dv == derived_views(derived@),
            mv == metadata_views(metas@),
            members_error(*d, *g, members@, dv, mv, metadata_program@, i as nat) is None,
            total == multiplier_sum(members@, i as nat),
            names@.len() == i,
            symbols@.len() == i,
            pools@.len() == i,
            !(d.min_group_size is Some && n < d.min_group_size->0),
            g.group_stake_seconds >= d.min_stake_seconds,
            g.group_cooldown_seconds >= d.min_cooldown_seconds,
            forall|j: int| 0 <= j < i ==> #[trigger] names@[j]@ == meta_name(mv[j]),
            forall|j: int| 0 <= j < i ==> #[trigger] symbols@[j]@ == meta_symbol(mv[j]),
            forall|j: int| 0 <= j < i ==> #[trigger] pools@[j]@ == entry_pool(members@[j]),
        decreases n - i,
    {
        if i >= members.len() {
            assert(members_error(*d, *g, members@, dv, mv, metadata_program@, (i + 1) as nat) == Some(ErrorCode::NotEnoughAccountKeys));
            proof {
                lemma_members_error_persists(*d, *g, members@, dv, mv, metadata_program@, (i + 1) as nat, n as nat);
            }
            return Err(ErrorCode::NotEnoughAccountKeys);
        }
        if let Some(e) = check_member(d, &g.stake_entries[i], &members[i], &derived[i], &metas[i], metadata_program) {
            proof {
                lemma_members_error_persists(*d, *g, members@, dv, mv, metadata_program@, (i + 1) as nat, n as nat);
            }
            return Err(e);
        }
        let multiplier: u64 = match &members[i].reward_entry {
            Some(re) => re.multiplier,
            None => 0,
        };
        assert(multiplier == reward_multiplier(members@[i as int]));
        if total > u64::MAX - multiplier {
            assert(multiplier_sum(members@, (i + 1) as nat) == total + multiplier);
            assert(members_error(*d, *g, members@, dv, mv, metadata_program@, (i + 1) as nat) == Some(ErrorCode::ArithmeticOverflow));
            proof {
                lemma_members_error_persists(*d, *g, members@, dv, mv, metadata_program@, (i + 1) as nat, n as nat);
            }
            return Err(ErrorCode::ArithmeticOverflow);
        }
        total = total + multiplier;
        match &metas[i] {
            Some(m) => {
                names.push(copy_bytes(&m.name));
                symbols.push(copy_bytes(&m.symbol));
            },
            None => {
                names.push(Vec::new());
                symbols.push(Vec::new());
            },
        }
        match &members[i].stake_entry {
            Some(se) => pools.push(se.pool.to_vec()),
            None => pools.push(Vec::new()),
        }
        i = i + 1;
    }
    assert(items_view(names@) =~= Seq::new(n as nat, |j: int| meta_name(mv[j])));
    assert(items_view(symbols@) =~= Seq::new(n as nat, |j: int| meta_symbol(mv[j])));
    assert(items_view(pools@) =~= Seq::new(n as nat, |j: int| entry_pool(members@[j])));
    let policy_met = match d.metadata_kind {
        GroupRewardDistributorMetadataKind::UniqueNames => has_unique_elements(&names),
        GroupRewardDistributorMetadataKind::UniqueSymbols => has_unique_elements(&symbols),
        GroupRewardDistributorMetadataKind::Unrestricted => true,
    };
    if !policy_met {
        return Err(ErrorCode::InvalidStakeEntry);
    }
    let pools_met = match d.pool_kind {
        GroupRewardDistributorPoolKind::AllFromSinglePool => is_all_same(&pools),
        GroupRewardDistributorPoolKind::EachFromSeparatePool => has_unique_elements(&pools),
        GroupRewardDistributorPoolKind::Unrestricted => true,
    };
    if !pools_met {
        return Err(ErrorCode::InvalidStakeEntry);
    }
    Ok(total / (n as u64))
}

/// The derived metadata address of each member's asset.
pub open spec fn metadata_addresses(metadata_program: Seq<u8>, members: Seq<MemberAccounts>) -> Seq<Option<(Seq<u8>, u8)>> {
    Seq::new(members.len(), |j: int| pda_of(metadata_seed_list(metadata_program, members[j].mint_id@), metadata_program))
}

/// The decoded metadata of each member.
pub open spec fn decoded_metadatas(members: Seq<MemberAccounts>) -> Seq<Option<MetadataFields>> {
    Seq::new(members.len(), |j: int| decoded_metadata(members[j].metadata_data@))
}

/// The reward entry and counter after initialising the reward entry of a group whose
/// evaluation is `evaluated`; refused when the entry already exists.
pub open spec fn init_outcome(
    slot: Option<GroupRewardEntry>,
    counter: GroupRewardCounter,
    distributor_id: Key,
    group_id: Key,
    bump: u8,
    evaluated: Result<u64, ErrorCode>,
) -> Result<(GroupRewardEntry, GroupRewardCounter), ErrorCode> {
    if slot is Some {
        Err(ErrorCode::GroupRewardEntryExists)
    } else {
        match evaluated {
            Err(e) => Err(e),
            Ok(m) => if counter.count == u64::MAX {
                Err(ErrorCode::ArithmeticOverflow)
            } else {
                Ok(
                    (
                        GroupRewardEntry {
                            group_reward_distributor: distributor_id,
                            group_entry: group_id,
                            multiplier: m,
                            reward_seconds_received: 0,
                            bump: bump,
                        },
                        GroupRewardCounter { count: (counter.count + 1) as u64 },
                    ),
                )
            },
        }
    }
}

/// Creates the reward entry of `group` under the distributor in the empty `slot` and
/// counts it, when the group meets the distributor's policy.
pub fn init_group_reward_entry(
    slot: &mut Option<GroupRewardEntry>,
    counter: &mut GroupRewardCounter,
    distributor_id: &Key,
    group_id: &Key,
    bump: u8,
    distributor: &GroupRewardDistributor,
    group: &GroupStakeEntry,
    members: &Vec<MemberAccounts>,
    metadata_program: &Key,
) -> (r: Result<(), ErrorCode>)
    requires
        group.stake_entries@.len() > 0,
    ensures
        match init_outcome(
            *old(slot),
            *old(counter),
            *distributor_id,
            *group_id,
            bump,
            group_outcome(
                *distributor,
                *group,
                members@,
                metadata_addresses(metadata_program@, members@),
                decoded_metadatas(members@),
                metadata_program@,
            ),
        ) {
            Ok((e, c)) => r is Ok && *final(slot) == Some(e) && *final(counter) == c,
            Err(err) => r == Err::<(), ErrorCode>(err) && *final(slot) == *old(slot) && *final(counter) == *old(counter),
        },
{
    if slot.is_some() {
        return Err(ErrorCode::GroupRewardEntryExists);
    }
    let mut derived: Vec<Option<(Key, u8)>> = Vec::new();
    let mut metas: Vec<Option<MintMetadata>> = Vec::new();
    let mut i: usize = 0;
    while i < members.len()
        invariant
            i <= members@.len(),
            derived@.len() == i,
            metas@.len() == i,
            forall|j: int| 0 <= j < i ==> #[trigger] derived_view(derived@[j]) == pda_of(
                metadata_seed_list(metadata_program@, members@[j].mint_id@),
                metadata_program@,
            ),
            forall|j: int| 0 <= j < i ==> #[trigger] metadata_view(metas@[j]) == decoded_metadata(members@[j].metadata_data@),
        decreases members.len() - i,
    {
        derived.push(derive_metadata_id(metadata_program, &members[i].mint_id));
        metas.push(decode_metadata(&members[i].metadata_data));
        i = i + 1;
    }
    assert(derived_views(derived@) =~= metadata_addresses(metadata_program@, members@));
    assert(metadata_views(metas@) =~= decoded_metadatas(members@));
    let multiplier = match evaluate_group(distributor, group, members, &derived, &metas, metadata_program) {
        Ok(m) => m,
        Err(e) => return Err(e),
    };
    if counter.count == u64::MAX {
        return Err(ErrorCode::ArithmeticOverflow);
    }
    *slot = Some(
        GroupRewardEntry {
            group_reward_distributor: *distributor_id,
            group_entry: *group_id,
            multiplier,
            reward_seconds_received: 0,
            bump,
        },
    );
    counter.count = counter.count + 1;
    Ok(())
}

/// A group's reward entry is created at most once: after a successful creation, which
/// counts one more entry, a second attempt for the same slot is refused whatever the
/// group's evaluation.
pub proof fn lemma_group_reward_entry_created_once(
    slot: Option<GroupRewardEntry>,
    counter: GroupRewardCounter,
    distributor_id: Key,
    group_id: Key,
    bump: u8,
    first: Result<u64, ErrorCode>,
    second: Result<u64, ErrorCode>,
)
    requires
        init_outcome(slot, counter, distributor_id, group_id, bump, first) is Ok,
    ensures
        ({
            let (e, c) = init_outcome(slot, counter, distributor_id, group_id, bump, first)->Ok_0;
            &&& slot is None
            &&& c.count == counter.count + 1
            &&& init_outcome(Some(e), c, distributor_id, group_id, bump, second)
                == Err::<(GroupRewardEntry, GroupRewardCounter), ErrorCode>(ErrorCode::GroupRewardEntryExists)
        }),
{
}

} // verus!

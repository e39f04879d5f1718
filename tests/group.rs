use cardinal_staking::{
    derive_metadata_id, evaluate_group, has_unique_elements, init_group_reward_entry, is_all_same, Creator,
    ErrorCode, GroupRewardCounter, GroupRewardDistributor, GroupRewardDistributorMetadataKind,
    GroupRewardDistributorPoolKind, GroupRewardEntry, GroupStakeEntry, Key, MemberAccounts, MintMetadata, RewardEntry,
    StakeEntry,
};

fn key(b: u8) -> Key {
    Key { bytes: [b; 32] }
}

fn program() -> Key {
    key(200)
}

fn distributor(pools: Vec<Key>) -> GroupRewardDistributor {
    GroupRewardDistributor {
        min_group_size: None,
        min_stake_seconds: 0,
        min_cooldown_seconds: 0,
        authorized_pools: pools,
        authorized_creators: None,
        metadata_kind: GroupRewardDistributorMetadataKind::Unrestricted,
        pool_kind: GroupRewardDistributorPoolKind::Unrestricted,
    }
}

fn group(n: u8) -> GroupStakeEntry {
    GroupStakeEntry {
        stake_entries: (0..n).map(|i| key(10 + i)).collect(),
        group_stake_seconds: 1000,
        group_cooldown_seconds: 10,
    }
}

/// Member `i` stakes in `pool`, asset `50 + i`, with the given multiplier.
fn member(i: u8, pool: Key, multiplier: u64) -> MemberAccounts {
    let mint = key(50 + i);
    MemberAccounts {
        stake_entry_id: key(10 + i),
        stake_entry: Some(StakeEntry {
            pool,
            original_mint: mint,
            amount: 1,
            last_staked_at: 0,
            last_updated_at: None,
            cooldown_start_seconds: None,
            total_stake_seconds: 0,
            last_staker: key(99),
            bump: 0,
        }),
        mint_id: mint,
        mint_exists: true,
        metadata_id: key(100 + i),
        metadata_owner: program(),
        metadata_data: vec![1],
        reward_entry: Some(RewardEntry { stake_entry: key(10 + i), multiplier }),
    }
}

fn meta(i: u8, name: &str, symbol: &str) -> Option<MintMetadata> {
    Some(MintMetadata {
        mint: key(50 + i),
        name: name.as_bytes().to_vec(),
        symbol: symbol.as_bytes().to_vec(),
        creators: Some(vec![Creator { address: key(150), verified: true }]),
    })
}

struct Setup {
    members: Vec<MemberAccounts>,
    derived: Vec<Option<(Key, u8)>>,
    metas: Vec<Option<MintMetadata>>,
}

fn setup(pools: &[Key], multipliers: &[u64], names: &[&str]) -> Setup {
    let mut s = Setup { members: Vec::new(), derived: Vec::new(), metas: Vec::new() };
    for i in 0..multipliers.len() {
        s.members.push(member(i as u8, pools[i], multipliers[i]));
        s.derived.push(Some((key(100 + i as u8), 255)));
        s.metas.push(meta(i as u8, names[i], names[i]));
    }
    s
}

fn eval(d: &GroupRewardDistributor, g: &GroupStakeEntry, s: &Setup) -> Result<u64, ErrorCode> {
    evaluate_group(d, g, &s.members, &s.derived, &s.metas, &program())
}

#[test]
fn multiplier_is_floor_of_mean() {
    let d = distributor(vec![key(1)]);
    let s = setup(&[key(1); 4], &[10, 20, 30, 41], &["a", "b", "c", "d"]);
    assert_eq!(eval(&d, &group(4), &s), Ok(25));
}

#[test]
fn unique_names_rejects_shared_name() {
    let mut d = distributor(vec![key(1)]);
    d.metadata_kind = GroupRewardDistributorMetadataKind::UniqueNames;
    let s = setup(&[key(1); 2], &[1, 1], &["same", "same"]);
    assert_eq!(eval(&d, &group(2), &s), Err(ErrorCode::InvalidStakeEntry));
    let s = setup(&[key(1); 2], &[1, 1], &["one", "two"]);
    assert_eq!(eval(&d, &group(2), &s), Ok(1));
}

#[test]
fn unique_symbols_rejects_shared_symbol() {
    let mut d = distributor(vec![key(1)]);
    d.metadata_kind = GroupRewardDistributorMetadataKind::UniqueSymbols;
    let s = setup(&[key(1); 2], &[1, 1], &["X", "X"]);
    assert_eq!(eval(&d, &group(2), &s), Err(ErrorCode::InvalidStakeEntry));
}

#[test]
fn pool_policies_on_two_pools() {
    let mut d = distributor(vec![key(1), key(2)]);
    let s = setup(&[key(1), key(2)], &[4, 6], &["a", "b"]);
    d.pool_kind = GroupRewardDistributorPoolKind::AllFromSinglePool;
    assert_eq!(eval(&d, &group(2), &s), Err(ErrorCode::InvalidStakeEntry));
    d.pool_kind = GroupRewardDistributorPoolKind::EachFromSeparatePool;
    assert_eq!(eval(&d, &group(2), &s), Ok(5));
    let same = setup(&[key(1), key(1)], &[4, 6], &["a", "b"]);
    assert_eq!(eval(&d, &group(2), &same), Err(ErrorCode::InvalidStakeEntry));
    d.pool_kind = GroupRewardDistributorPoolKind::AllFromSinglePool;
    assert_eq!(eval(&d, &group(2), &same), Ok(5));
}

#[test]
fn group_level_checks() {
    let mut d = distributor(vec![key(1)]);
    let s = setup(&[key(1); 2], &[1, 1], &["a", "b"]);
    d.min_group_size = Some(3);
    assert_eq!(eval(&d, &group(2), &s), Err(ErrorCode::InvalidGroupSize));
    d.min_group_size = Some(2);
    d.min_stake_seconds = 1001;
    assert_eq!(eval(&d, &group(2), &s), Err(ErrorCode::InvalidGroupSeconds));
    d.min_stake_seconds = 1000;
    d.min_cooldown_seconds = 11;
    assert_eq!(eval(&d, &group(2), &s), Err(ErrorCode::InvalidGroupSeconds));
    d.min_cooldown_seconds = 10;
    assert_eq!(eval(&d, &group(2), &s), Ok(1));
}

#[test]
fn member_checks_in_order() {
    let d = distributor(vec![key(1)]);
    let g = group(2);
    let fresh = || setup(&[key(1); 2], &[1, 1], &["a", "b"]);

    let mut s = fresh();
    s.members[1].stake_entry_id = key(77);
    assert_eq!(eval(&d, &g, &s), Err(ErrorCode::InvalidStakeEntry));

    let mut s = fresh();
    s.members[0].stake_entry = None;
    assert_eq!(eval(&d, &g, &s), Err(ErrorCode::InvalidStakeEntry));

    let s = setup(&[key(1), key(3)], &[1, 1], &["a", "b"]);
    assert_eq!(eval(&d, &g, &s), Err(ErrorCode::InvalidPool));

    let mut s = fresh();
    s.members[0].mint_id = key(66);
    assert_eq!(eval(&d, &g, &s), Err(ErrorCode::InvalidOriginalMint));

    let mut s = fresh();
    s.members[0].mint_exists = false;
    assert_eq!(eval(&d, &g, &s), Err(ErrorCode::InvalidOriginalMint));

    let mut s = fresh();
    s.members[0].metadata_data = Vec::new();
    assert_eq!(eval(&d, &g, &s), Err(ErrorCode::InvalidMintMetadata));

    let mut s = fresh();
    s.derived[0] = Some((key(5), 1));
    assert_eq!(eval(&d, &g, &s), Err(ErrorCode::InvalidMintMetadata));

    let mut s = fresh();
    s.members[0].metadata_owner = key(5);
    assert_eq!(eval(&d, &g, &s), Err(ErrorCode::InvalidMintMetadataOwner));

    let mut s = fresh();
    s.metas[0] = None;
    assert_eq!(eval(&d, &g, &s), Err(ErrorCode::InvalidMintMetadata));

    let mut s = fresh();
    s.metas[0] = meta(1, "a", "a");
    assert_eq!(eval(&d, &g, &s), Err(ErrorCode::InvalidMintMetadata));

    let mut s = fresh();
    s.members[0].reward_entry = None;
    assert_eq!(eval(&d, &g, &s), Err(ErrorCode::InvalidRewardEntry));

    let mut s = fresh();
    s.members[0].reward_entry = Some(RewardEntry { stake_entry: key(11), multiplier: 1 });
    assert_eq!(eval(&d, &g, &s), Err(ErrorCode::InvalidRewardEntry));

    let mut s = fresh();
    s.members.pop();
    s.derived.pop();
    s.metas.pop();
    assert_eq!(eval(&d, &g, &s), Err(ErrorCode::NotEnoughAccountKeys));

    let s = setup(&[key(1); 2], &[u64::MAX, 1], &["a", "b"]);
    assert_eq!(eval(&d, &g, &s), Err(ErrorCode::ArithmeticOverflow));
}

#[test]
fn authorized_creators() {
    let mut d = distributor(vec![key(1)]);
    let g = group(1);
    let mut s = setup(&[key(1)], &[8], &["a"]);
    d.authorized_creators = Some(vec![key(150)]);
    assert_eq!(eval(&d, &g, &s), Ok(8));
    d.authorized_creators = Some(vec![key(151)]);
    assert_eq!(eval(&d, &g, &s), Err(ErrorCode::InvalidOriginalMint));
    d.authorized_creators = Some(vec![key(150)]);
    s.metas[0].as_mut().unwrap().creators = Some(vec![Creator { address: key(150), verified: false }]);
    assert_eq!(eval(&d, &g, &s), Err(ErrorCode::InvalidOriginalMint));
    s.metas[0].as_mut().unwrap().creators = None;
    assert_eq!(eval(&d, &g, &s), Err(ErrorCode::InvalidOriginalMint));
}

#[test]
fn uniqueness_predicates() {
    assert!(has_unique_elements(&vec![]));
    assert!(has_unique_elements(&vec![vec![1], vec![2], vec![1, 2]]));
    assert!(!has_unique_elements(&vec![vec![1], vec![2], vec![1]]));
    assert!(is_all_same(&vec![]));
    assert!(is_all_same(&vec![vec![3], vec![3]]));
    assert!(!is_all_same(&vec![vec![3], vec![3], vec![4]]));
}

fn put_str(out: &mut Vec<u8>, s: &str) {
    out.extend_from_slice(&(s.len() as u32).to_le_bytes());
    out.extend_from_slice(s.as_bytes());
}

/// Token-metadata account data for `mint` with one verified creator.
fn metadata_bytes(mint: &Key, name: &str) -> Vec<u8> {
    let mut out = vec![4u8];
    out.extend_from_slice(&[9u8; 32]);
    out.extend_from_slice(&mint.bytes);
    put_str(&mut out, name);
    put_str(&mut out, "SYM");
    put_str(&mut out, "uri");
    out.extend_from_slice(&0u16.to_le_bytes());
    out.push(1);
    out.extend_from_slice(&1u32.to_le_bytes());
    out.extend_from_slice(&[150u8; 32]);
    out.push(1);
    out.push(100);
    out.extend_from_slice(&[0, 1, 0, 0, 0, 0, 0, 0]);
    out
}

fn onchain_members(program: &Key, multipliers: &[u64]) -> Vec<MemberAccounts> {
    let mut v = Vec::new();
    for (i, m) in multipliers.iter().enumerate() {
        let mut a = member(i as u8, key(1), *m);
        a.metadata_id = derive_metadata_id(program, &a.mint_id).unwrap().0;
        a.metadata_owner = *program;
        a.metadata_data = metadata_bytes(&a.mint_id, &format!("name{}", i));
        v.push(a);
    }
    v
}

#[test]
fn init_creates_entry_once() {
    let program = program();
    let mut d = distributor(vec![key(1)]);
    d.metadata_kind = GroupRewardDistributorMetadataKind::UniqueNames;
    d.authorized_creators = Some(vec![key(150)]);
    let g = group(4);
    let members = onchain_members(&program, &[10, 20, 30, 41]);
    let mut slot: Option<GroupRewardEntry> = None;
    let mut counter = GroupRewardCounter { count: 3 };
    let r = init_group_reward_entry(&mut slot, &mut counter, &key(20), &key(21), 254, &d, &g, &members, &program);
    assert_eq!(r, Ok(()));
    let e = slot.unwrap();
    assert_eq!(e.multiplier, 25);
    assert_eq!(e.reward_seconds_received, 0);
    assert_eq!(e.bump, 254);
    assert_eq!(e.group_reward_distributor.bytes, key(20).bytes);
    assert_eq!(e.group_entry.bytes, key(21).bytes);
    assert_eq!(counter.count, 4);
    let r = init_group_reward_entry(&mut slot, &mut counter, &key(20), &key(21), 254, &d, &g, &members, &program);
    assert_eq!(r, Err(ErrorCode::GroupRewardEntryExists));
    assert_eq!(counter.count, 4);
}

#[test]
fn init_rejects_undecodable_metadata() {
    let program = program();
    let d = distributor(vec![key(1)]);
    let g = group(2);
    let mut members = onchain_members(&program, &[1, 2]);
    members[1].metadata_data = vec![4, 1, 2];
    let mut slot: Option<GroupRewardEntry> = None;
    let mut counter = GroupRewardCounter { count: 0 };
    let r = init_group_reward_entry(&mut slot, &mut counter, &key(20), &key(21), 1, &d, &g, &members, &program);
    assert_eq!(r, Err(ErrorCode::InvalidMintMetadata));
    assert!(slot.is_none());
    assert_eq!(counter.count, 0);
}

#[test]
fn init_rejects_metadata_at_wrong_address() {
    let program = program();
    let d = distributor(vec![key(1)]);
    let g = group(2);
    let mut members = onchain_members(&program, &[1, 2]);
    members[0].metadata_id = key(100);
    let mut slot: Option<GroupRewardEntry> = None;
    let mut counter = GroupRewardCounter { count: 0 };
    let r = init_group_reward_entry(&mut slot, &mut counter, &key(20), &key(21), 1, &d, &g, &members, &program);
    assert_eq!(r, Err(ErrorCode::InvalidMintMetadata));
}

#[test]
fn init_counter_overflow_rejects() {
    let program = program();
    let d = distributor(vec![key(1)]);
    let g = group(1);
    let members = onchain_members(&program, &[1]);
    let mut slot: Option<GroupRewardEntry> = None;
    let mut counter = GroupRewardCounter { count: u64::MAX };
    let r = init_group_reward_entry(&mut slot, &mut counter, &key(20), &key(21), 1, &d, &g, &members, &program);
    assert_eq!(r, Err(ErrorCode::ArithmeticOverflow));
    assert!(slot.is_none());
}

#[test]
fn init_handler_updates_ctx() {
    let program = program();
    let mut ctx = cardinal_staking::InitGroupRewardEntryCtx {
        group_reward_entry: None,
        group_reward_entry_bump: 9,
        group_reward_counter: GroupRewardCounter { count: 0 },
        group_entry_id: key(21),
        group_entry: group(2),
        group_reward_distributor_id: key(20),
        group_reward_distributor: distributor(vec![key(1)]),
        remaining_accounts: onchain_members(&program, &[3, 4]),
    };
    assert_eq!(cardinal_staking::init_group_reward_entry::handler(&mut ctx, &program), Ok(()));
    assert_eq!(ctx.group_reward_entry.unwrap().multiplier, 3);
    assert_eq!(ctx.group_reward_entry.unwrap().bump, 9);
    assert_eq!(ctx.group_reward_counter.count, 1);
    assert_eq!(
        cardinal_staking::init_group_reward_entry::handler(&mut ctx, &program),
        Err(ErrorCode::GroupRewardEntryExists)
    );
    assert_eq!(ctx.group_reward_counter.count, 1);
}

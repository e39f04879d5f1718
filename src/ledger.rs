use vstd::prelude::*;

use crate::address::{derive_stake_entry_id, derived_view, pda_of, stake_entry_seed_list, stake_seed};
use crate::errors::ErrorCode;
use crate::key::{same_key, Key};

verus! {

/// A staking pool, as far as staking reads and writes it.
#[derive(Clone, Copy, Debug)]
pub struct StakePool {
    /// Number of stake operations performed in this pool.
    pub total_staked: u32,
    /// Whether a position that restarts from empty starts its stake-seconds from zero.
    pub reset_on_stake: bool,
    /// Time after which the pool accepts no more stakes.
    pub end_date: Option<i64>,
}

/// One staked position of (pool, asset, seed).
#[derive(Clone, Copy, Debug)]
pub struct StakeEntry {
    pub pool: Key,
    pub original_mint: Key,
    pub amount: u64,
    pub last_staked_at: i64,
    pub last_updated_at: Option<i64>,
    pub cooldown_start_seconds: Option<i64>,
    pub total_stake_seconds: u128,
    pub last_staker: Key,
    pub bump: u8,
}

/// The staker's token account for the staked asset.
#[derive(Clone, Copy, Debug)]
pub struct UserTokenAccount {
    pub mint: Key,
    pub owner: Key,
    pub amount: u64,
}

/// End of the interval that a re-stake credits: the cooldown start if one is open,
/// else the current time.
pub open spec fn accrual_end(e: StakeEntry, now: i64) -> i64 {
    match e.cooldown_start_seconds {
        Some(c) => c,
        None => now,
    }
}

/// Start of the interval that a re-stake credits: the last update, else the last stake.
pub open spec fn accrual_start(e: StakeEntry) -> i64 {
    match e.last_updated_at {
        Some(u) => u,
        None => e.last_staked_at,
    }
}

/// Stake-seconds earned since the last update: elapsed seconds (floored at zero)
/// times the staked amount.
pub open spec fn accrued(e: StakeEntry, now: i64) -> int {
    if accrual_end(e, now) >= accrual_start(e) {
        (accrual_end(e, now) - accrual_start(e)) * e.amount
    } else {
        0
    }
}

pub open spec fn saturating_sum(a: int, b: int) -> u128 {
    if a + b > u128::MAX {
        u128::MAX
    } else {
        (a + b) as u128
    }
}

/// The first reason a stake is refused, if any.
pub open spec fn stake_error(
    pool_id: Seq<u8>,
    pool: StakePool,
    e: StakeEntry,
    staker: Seq<u8>,
    token: UserTokenAccount,
    amount: u64,
    now: i64,
) -> Option<ErrorCode> {
    if e.pool@ != pool_id {
        Some(ErrorCode::InvalidStakePool)
    } else if !(token.amount > 0 && token.mint@ == e.original_mint@ && token.owner@ == staker) {
        Some(ErrorCode::InvalidUserOriginalMintTokenAccount)
    } else if pool.end_date is Some && now > pool.end_date->0 {
        Some(ErrorCode::StakePoolHasEnded)
    } else if e.amount + amount > u64::MAX || pool.total_staked + 1 > u32::MAX {
        Some(ErrorCode::ArithmeticOverflow)
    } else {
        None
    }
}

/// Stake-seconds after a stake: accrued first when the position was open, then reset
/// when the pool restarts empty positions.
pub open spec fn staked_seconds(reset_on_stake: bool, e: StakeEntry, now: i64) -> u128 {
    if e.amount == 0 {
        if reset_on_stake {
            0
        } else {
            e.total_stake_seconds
        }
    } else {
        saturating_sum(e.total_stake_seconds as int, accrued(e, now))
    }
}

/// The position after `staker` adds `amount` at time `now`.
pub open spec fn staked_entry(reset_on_stake: bool, e: StakeEntry, staker: Key, amount: u64, now: i64) -> StakeEntry {
    StakeEntry {
        pool: e.pool,
        original_mint: e.original_mint,
        amount: (e.amount + amount) as u64,
        last_staked_at: now,
        last_updated_at: Some(now),
        cooldown_start_seconds: if e.amount != 0 {
            None
        } else {
            e.cooldown_start_seconds
        },
        total_stake_seconds: staked_seconds(reset_on_stake, e, now),
        last_staker: staker,
        bump: e.bump,
    }
}

/// The pool after one more stake.
pub open spec fn staked_pool(p: StakePool) -> StakePool {
    StakePool { total_staked: (p.total_staked + 1) as u32, ..p }
}

/// Stakes `amount` more of the asset into `entry` on behalf of `staker` at time `now`.
/// On success the asset is then to be delegated to and locked by the entry.
pub fn stake(
    pool_id: &Key,
    pool: &mut StakePool,
    entry: &mut StakeEntry,
    staker: &Key,
    token: &UserTokenAccount,
    amount: u64,
    now: i64,
) -> (r: Result<(), ErrorCode>)
    requires
        old(entry).amount != 0 ==> accrual_start(*old(entry)) >= 0 && accrual_end(*old(entry), now) >= 0,
    ensures
        match stake_error(pool_id@, *old(pool), *old(entry), staker@, *token, amount, now) {
            Some(err) => r == Err::<(), ErrorCode>(err) && *final(pool) == *old(pool) && *final(entry) == *old(entry),
            None => r is Ok && *final(pool) == staked_pool(*old(pool))
                && *final(entry) == staked_entry(old(pool).reset_on_stake, *old(entry), *staker, amount, now),
        },
{
    if !same_key(&entry.pool, pool_id) {
        return Err(ErrorCode::InvalidStakePool);
    }
    if !(token.amount > 0 && same_key(&token.mint, &entry.original_mint) && same_key(&token.owner, staker)) {
        return Err(ErrorCode::InvalidUserOriginalMintTokenAccount);
    }
    if let Some(end_date) = pool.end_date {
        if now > end_date {
            return Err(ErrorCode::StakePoolHasEnded);
        }
    }
    if entry.amount > u64::MAX - amount || pool.total_staked == u32::MAX {
        return Err(ErrorCode::ArithmeticOverflow);
    }
    if entry.amount != 0 {
        let end: i64 = match entry.cooldown_start_seconds {
            Some(c) => c,
            None => now,
        };
        let start: i64 = match entry.last_updated_at {
            Some(u) => u,
            None => entry.last_staked_at,
        };
        let elapsed: u128 = (end as u128).saturating_sub(start as u128);
        let held: u128 = entry.amount as u128;
        assert(elapsed * held <= u128::MAX) by (nonlinear_arith)
            requires
                elapsed <= 0x8000_0000_0000_0000u128,
                held <= 0xffff_ffff_ffff_ffffu128,
        ;
        assert(elapsed * held == accrued(*old(entry), now));
        entry.total_stake_seconds = entry.total_stake_seconds.saturating_add(elapsed * held);
        entry.cooldown_start_seconds = None;
    }
    if pool.reset_on_stake && entry.amount == 0 {
        entry.total_stake_seconds = 0;
    }
    entry.last_staked_at = now;
    entry.last_updated_at = Some(now);
    entry.last_staker = *staker;
    entry.amount = entry.amount + amount;
    pool.total_staked = pool.total_staked + 1;
    Ok(())
}

/// The entry after re-deriving its bump: the derived identity must be the entry's own.
pub open spec fn rebumped(entry_id: Seq<u8>, derived: Option<(Seq<u8>, u8)>, e: StakeEntry) -> Result<StakeEntry, ErrorCode> {
    match derived {
        Some((k, b)) => if k == entry_id {
            Ok(StakeEntry { bump: b, ..e })
        } else {
            Err(ErrorCode::InvalidStakeEntry)
        },
        None => Err(ErrorCode::InvalidStakeEntry),
    }
}

/// Stores the freshly derived bump in the entry at `entry_id`, provided the derived
/// identity is that of the entry.
pub fn apply_bump(entry_id: &Key, derived: Option<(Key, u8)>, entry: &mut StakeEntry) -> (r: Result<(), ErrorCode>)
    ensures
        match rebumped(entry_id@, derived_view(derived), *old(entry)) {
            Ok(n) => r is Ok && *final(entry) == n,
            Err(err) => r == Err::<(), ErrorCode>(err) && *final(entry) == *old(entry),
        },
{
    match derived {
        Some((k, b)) => {
            if same_key(&k, entry_id) {
                entry.bump = b;
                Ok(())
            } else {
                Err(ErrorCode::InvalidStakeEntry)
            }
        },
        None => Err(ErrorCode::InvalidStakeEntry),
    }
}

/// Re-derives the address of the stake entry at `entry_id` from the pool, the asset and
/// the staker's seed under `program`, and stores the bump found.
pub fn reset_stake_entry_bump(
    program: &Key,
    entry_id: &Key,
    entry: &mut StakeEntry,
    pool_id: &Key,
    mint: &Key,
    mint_supply: u64,
    user: &Key,
) -> (r: Result<(), ErrorCode>)
    ensures
        match rebumped(
            entry_id@,
            pda_of(stake_entry_seed_list(pool_id@, mint@, stake_seed(mint_supply, user@)), program@),
            *old(entry),
        ) {
            Ok(n) => r is Ok && *final(entry) == n,
            Err(err) => r == Err::<(), ErrorCode>(err) && *final(entry) == *old(entry),
        },
{
    let seed = crate::address::get_stake_seed(mint_supply, user);
    let derived = derive_stake_entry_id(program, pool_id, mint, &seed);
    apply_bump(entry_id, derived, entry)
}

/// A stake that goes through adds exactly the requested amount to the position, and a
/// stake whose new amount would pass `u64::MAX` is refused rather than wrapped.
pub proof fn lemma_stake_adds_amount(
    pool_id: Seq<u8>,
    pool: StakePool,
    e: StakeEntry,
    staker: Key,
    token: UserTokenAccount,
    amount: u64,
    now: i64,
)
    ensures
        stake_error(pool_id, pool, e, staker@, token, amount, now) is None
            ==> staked_entry(pool.reset_on_stake, e, staker, amount, now).amount == e.amount + amount,
        e.amount + amount > u64::MAX ==> stake_error(pool_id, pool, e, staker@, token, amount, now) is Some,
{
}

/// Re-staking an open position credits its stake-seconds with the seconds from the last
/// update (or, without one, the last stake) to the start of an open cooldown (or, without
/// one, the present), times the amount held, as long as the total stays within `u128`.
pub proof fn lemma_restake_accrues(reset_on_stake: bool, e: StakeEntry, staker: Key, amount: u64, now: i64)
    requires
        e.amount != 0,
        accrual_start(e) <= accrual_end(e, now),
        e.total_stake_seconds + (accrual_end(e, now) - accrual_start(e)) * e.amount <= u128::MAX,
    ensures
        staked_entry(reset_on_stake, e, staker, amount, now).total_stake_seconds
            == e.total_stake_seconds + (accrual_end(e, now) - accrual_start(e)) * e.amount,
        e.cooldown_start_seconds is Some && e.last_updated_at is Some ==> staked_entry(
            reset_on_stake,
            e,
            staker,
            amount,
            now,
        ).total_stake_seconds == e.total_stake_seconds + (e.cooldown_start_seconds->0 - e.last_updated_at->0) * e.amount,
        e.cooldown_start_seconds is None && e.last_updated_at is None ==> staked_entry(
            reset_on_stake,
            e,
            staker,
            amount,
            now,
        ).total_stake_seconds == e.total_stake_seconds + (now - e.last_staked_at) * e.amount,
        staked_entry(reset_on_stake, e, staker, amount, now).cooldown_start_seconds is None,
{
}

/// In a pool that resets on stake, staking into an empty position starts its
/// stake-seconds from zero.
pub proof fn lemma_reset_on_restart(e: StakeEntry, staker: Key, amount: u64, now: i64)
    requires
        e.amount == 0,
    ensures
        staked_entry(true, e, staker, amount, now).total_stake_seconds == 0,
{
}

} // verus!

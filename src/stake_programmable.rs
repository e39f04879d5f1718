use vstd::prelude::*;

use crate::errors::ErrorCode;
use crate::key::Key;
use crate::ledger::{
    accrual_end, accrual_start, stake, stake_error, staked_entry, staked_pool, StakeEntry, StakePool, UserTokenAccount,
};

verus! {

/// The records that a stake reads and writes.
#[derive(Clone, Copy, Debug)]
pub struct StakeProgrammableCtx {
    pub stake_pool_id: Key,
    pub stake_pool: StakePool,
    pub stake_entry: StakeEntry,
    /// The staker.
    pub user: Key,
    pub user_original_mint_token_account: UserTokenAccount,
}

/// Stakes `amount` more of the entry's asset for the user at time `now`.
pub fn handler(ctx: &mut StakeProgrammableCtx, amount: u64, now: i64) -> (r: Result<(), ErrorCode>)
    requires
        old(ctx).stake_entry.amount != 0 ==> accrual_start(old(ctx).stake_entry) >= 0 && accrual_end(
            old(ctx).stake_entry,
            now,
        ) >= 0,
    ensures
        match stake_error(
            old(ctx).stake_pool_id@,
            old(ctx).stake_pool,
            old(ctx).stake_entry,
            old(ctx).user@,
            old(ctx).user_original_mint_token_account,
            amount,
            now,
        ) {
            Some(err) => r == Err::<(), ErrorCode>(err) && *final(ctx) == *old(ctx),
            None => r is Ok && *final(ctx) == (StakeProgrammableCtx {
                stake_pool: staked_pool(old(ctx).stake_pool),
                stake_entry: staked_entry(
                    old(ctx).stake_pool.reset_on_stake,
                    old(ctx).stake_entry,
                    old(ctx).user,
                    amount,
                    now,
                ),
                ..*old(ctx)
            }),
        },
{
    stake(
        &ctx.stake_pool_id,
        &mut ctx.stake_pool,
        &mut ctx.stake_entry,
        &ctx.user,
        &ctx.user_original_mint_token_account,
        amount,
        now,
    )
}

} // verus!

use vstd::prelude::*;

use crate::address::{pda_of, stake_entry_seed_list, stake_seed};
use crate::errors::ErrorCode;
use crate::key::Key;
use crate::ledger::{rebumped, reset_stake_entry_bump, StakeEntry};

verus! {

/// The records that re-deriving a stake entry's bump reads and writes.
#[derive(Clone, Copy, Debug)]
pub struct ResetStakeEntryBumpCtx {
    pub stake_entry_id: Key,
    pub stake_entry: StakeEntry,
    pub stake_pool_id: Key,
    /// The staker whose seed locates the entry.
    pub user: Key,
    pub original_mint_id: Key,
    pub original_mint_supply: u64,
}

/// Re-derives the stake entry's address under `program_id` and stores its bump.
pub fn handler(program_id: &Key, ctx: &mut ResetStakeEntryBumpCtx) -> (r: Result<(), ErrorCode>)
    ensures
        match rebumped(
            old(ctx).stake_entry_id@,
            pda_of(
                stake_entry_seed_list(
                    old(ctx).stake_pool_id@,
                    old(ctx).original_mint_id@,
                    stake_seed(old(ctx).original_mint_supply, old(ctx).user@),
                ),
                program_id@,
            ),
            old(ctx).stake_entry,
        ) {
            Ok(n) => r is Ok && *final(ctx) == (ResetStakeEntryBumpCtx { stake_entry: n, ..*old(ctx) }),
            Err(err) => r == Err::<(), ErrorCode>(err) && *final(ctx) == *old(ctx),
        },
{
    reset_stake_entry_bump(
        program_id,
        &ctx.stake_entry_id,
        &mut ctx.stake_entry,
        &ctx.stake_pool_id,
        &ctx.original_mint_id,
        ctx.original_mint_supply,
        &ctx.user,
    )
}

} // verus!

use vstd::prelude::*;

use crate::errors::ErrorCode;
use crate::group::{
    decoded_metadatas, group_outcome, init_group_reward_entry, init_outcome, metadata_addresses, GroupRewardCounter,
    GroupRewardDistributor, GroupRewardEntry, GroupStakeEntry, MemberAccounts,
};
use crate::key::Key;

verus! {

/// The records that initialising a group's reward entry reads and writes.
#[derive(Debug)]
pub struct InitGroupRewardEntryCtx {
    /// The reward entry's slot; `None` until it is created.
    pub group_reward_entry: Option<GroupRewardEntry>,
    /// The bump of the reward entry's derived address.
    pub group_reward_entry_bump: u8,
    pub group_reward_counter: GroupRewardCounter,
    pub group_entry_id: Key,
    pub group_entry: GroupStakeEntry,
    pub group_reward_distributor_id: Key,
    pub group_reward_distributor: GroupRewardDistributor,
    /// For each member in order, its stake entry, asset, metadata and reward entry.
    pub remaining_accounts: Vec<MemberAccounts>,
}

/// Initialises the group's reward entry, with `metadata_program` as the token
/// metadata authority.
pub fn handler(ctx: &mut InitGroupRewardEntryCtx, metadata_program: &Key) -> (r: Result<(), ErrorCode>)
    requires
        old(ctx).group_entry.stake_entries@.len() > 0,
    ensures
        match init_outcome(
            old(ctx).group_reward_entry,
            old(ctx).group_reward_counter,
            old(ctx).group_reward_distributor_id,
            old(ctx).group_entry_id,
            old(ctx).group_reward_entry_bump,
            group_outcome(
                old(ctx).group_reward_distributor,
                old(ctx).group_entry,
                old(ctx).remaining_accounts@,
                metadata_addresses(metadata_program@, old(ctx).remaining_accounts@),
                decoded_metadatas(old(ctx).remaining_accounts@),
                metadata_program@,
            ),
        ) {
            Ok((e, c)) => r is Ok && *final(ctx) == (InitGroupRewardEntryCtx {
                group_reward_entry: Some(e),
                group_reward_counter: c,
                ..*old(ctx)
            }),
            Err(err) => r == Err::<(), ErrorCode>(err) && *final(ctx) == *old(ctx),
        },
{
    init_group_reward_entry(
        &mut ctx.group_reward_entry,
        &mut ctx.group_reward_counter,
        &ctx.group_reward_distributor_id,
        &ctx.group_entry_id,
        ctx.group_reward_entry_bump,
        &ctx.group_reward_distributor,
        &ctx.group_entry,
        &ctx.remaining_accounts,
        metadata_program,
    )
}

} // verus!

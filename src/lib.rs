//! Stake-entry ledger and group reward aggregation for a staking program.
//!
//! - `key`, `address`: account identities and their deterministic derivation.
//! - `ledger`: the stake-entry state machine (stake, bump re-derivation).
//! - `metadata`, `policy`, `group`: validation of a group of stake positions against a
//!   distributor's policy, and the group's reward multiplier.
//! - `stake_programmable`, `reset_stake_entry_bump`, `init_group_reward_entry`: the three
//!   operations over the records that each one reads and writes.
pub mod address;
pub mod errors;
pub mod group;
pub mod init_group_reward_entry;
pub mod key;
pub mod ledger;
pub mod metadata;
pub mod policy;
pub mod reset_stake_entry_bump;
pub mod stake_programmable;

pub use address::{
    derive_group_reward_entry_id, derive_metadata_id, derive_stake_entry_id, get_stake_seed,
    group_reward_entry_seeds, metadata_seeds, stake_entry_seeds,
};
pub use errors::ErrorCode;
pub use group::{
    check_member, contains_key, evaluate_group, find_authorized_creator, init_group_reward_entry,
    lemma_group_reward_entry_created_once, GroupRewardCounter, GroupRewardDistributor,
    GroupRewardDistributorMetadataKind, GroupRewardDistributorPoolKind, GroupRewardEntry,
    GroupStakeEntry, MemberAccounts, RewardEntry,
};
pub use init_group_reward_entry::InitGroupRewardEntryCtx;
pub use key::{bytes_equal, same_key, Key};
pub use ledger::{
    apply_bump, lemma_reset_on_restart, lemma_restake_accrues, lemma_stake_adds_amount,
    reset_stake_entry_bump, stake, StakeEntry, StakePool, UserTokenAccount,
};
pub use metadata::{Creator, MintMetadata};
pub use policy::{has_unique_elements, is_all_same};
pub use reset_stake_entry_bump::ResetStakeEntryBumpCtx;
pub use stake_programmable::StakeProgrammableCtx;

use vstd::prelude::*;

verus! {

/// Why an operation was rejected.
#[derive(Clone, Copy, Debug, PartialEq, Eq, Structural)]
pub enum ErrorCode {
    InvalidGroupSize,
    InvalidGroupSeconds,
    InvalidStakeEntry,
    InvalidPool,
    InvalidOriginalMint,
    InvalidMintMetadata,
    InvalidMintMetadataOwner,
    InvalidRewardEntry,
    InvalidStakePool,
    InvalidUserOriginalMintTokenAccount,
    StakePoolHasEnded,
    NotEnoughAccountKeys,
    GroupRewardEntryExists,
    ArithmeticOverflow,
}

} // verus!

use vstd::prelude::*;

use crate::error::ErrorCode;
use crate::instructions::owner::{check_owner, owner_check};
use crate::key::Pubkey;
use crate::state::{StakeAccount, StakeConfig, UserAccount};

verus! {

/// The accounts of a claim instruction, as far as the program reads them.
#[derive(Clone, Copy, Debug)]
pub struct ClaimNFT {
    /// the user who is claiming rewards from their staked NFT
    pub user: Pubkey,
    /// the user's staking totals
    pub user_account: UserAccount,
    /// program-wide staking parameters
    pub config: StakeConfig,
    /// the record of the stake rewards are claimed for
    pub stake_account: StakeAccount,
}

impl ClaimNFT {
    /// Checks the accounts before the instruction runs: only the user who
    /// made the stake may claim for it.
    pub fn validate_accounts(&self) -> (r: Result<(), ErrorCode>)
        ensures
            r == owner_check(self.stake_account, self.user),
    {
        check_owner(&self.stake_account, &self.user)
    }
}

} // verus!

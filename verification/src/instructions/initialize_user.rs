use vstd::prelude::*;

use crate::error::ErrorCode;
use crate::key::Pubkey;
use crate::state::UserAccount;

verus! {

/// The accounts of the instruction that opens a user's staking account.
#[derive(Clone, Copy, Debug)]
pub struct InitializeUser {
    /// the user who opens the account
    pub user: Pubkey,
    /// the user's staking totals
    pub user_account: UserAccount,
}

/// Address bumps found for the accounts of `InitializeUser`.
#[derive(Clone, Copy, Debug)]
pub struct InitializeUserBumps {
    pub user_account: u8,
}

/// A user's totals when their account is opened: all zero.
pub open spec fn fresh_user_account(bump: u8) -> UserAccount {
    UserAccount {
        points: 0,
        nft_staked_amount: 0,
        sol_staked_amount: 0,
        spl_staked_amount: 0,
        bump: bump,
    }
}

impl InitializeUser {
    /// Opens the user's account with all totals zero.
    pub fn initialize_user(&mut self, bumps: &InitializeUserBumps) -> (r: Result<(), ErrorCode>)
        ensures
            r is Ok,
            final(self).user_account == fresh_user_account(bumps.user_account),
            final(self).user == old(self).user,
    {
        self.user_account = UserAccount {
            points: 0,
            nft_staked_amount: 0,
            sol_staked_amount: 0,
            spl_staked_amount: 0,
            bump: bumps.user_account,
        };
        Ok(())
    }
}

} // verus!

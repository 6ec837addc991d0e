use vstd::prelude::*;

use crate::error::ErrorCode;
use crate::key::Pubkey;
use crate::state::StakeConfig;

verus! {

/// The accounts of the instruction that sets the staking parameters.
#[derive(Clone, Copy, Debug)]
pub struct InitializeConfig {
    /// the admin who sets the parameters
    pub admin: Pubkey,
    /// the parameters
    pub config: StakeConfig,
    /// address of the reward token's mint
    pub reward_mint: Pubkey,
}

/// Address bumps found for the accounts of `InitializeConfig`.
#[derive(Clone, Copy, Debug)]
pub struct InitializeConfigBumps {
    pub config: u8,
    pub reward_mint: u8,
}

/// Only the program's admin may set the staking parameters.
pub open spec fn admin_check(admin: Pubkey, admin_key: Pubkey) -> Result<(), ErrorCode> {
    if admin@ == admin_key@ {
        Ok(())
    } else {
        Err(ErrorCode::InvalidAdmin)
    }
}

/// Checks that `admin` is the program's admin, whose address is `admin_key`.
pub fn check_admin(admin: &Pubkey, admin_key: &Pubkey) -> (r: Result<(), ErrorCode>)
    ensures
        r == admin_check(*admin, *admin_key),
{
    if *admin == *admin_key {
        Ok(())
    } else {
        Err(ErrorCode::InvalidAdmin)
    }
}

impl InitializeConfig {
    /// Checks the accounts before the instruction runs: only the program's
    /// admin, whose address is `admin_key`, may set the parameters.
    pub fn validate_accounts(&self, admin_key: &Pubkey) -> (r: Result<(), ErrorCode>)
        ensures
            r == admin_check(self.admin, *admin_key),
    {
        check_admin(&self.admin, admin_key)
    }

    /// Writes the staking parameters; the signing admin becomes their
    /// authority. The minimum freeze period is stored as a `u32`: a negative
    /// one is refused with `TooLowStakePeriod`, one above `u32::MAX` with
    /// `Overflow`, and then nothing changes.
    pub fn initialize_config(
        &mut self,
        points_per_nft_stake: u8,
        points_per_sol_stake: u8,
        points_per_spl_stake: u8,
        min_freeze_period: i64,
        max_nft_stake: u8,
        apr: u16,
        bumps: &InitializeConfigBumps,
    ) -> (r: Result<(), ErrorCode>)
        ensures
            r == (if min_freeze_period < 0 {
                Err(ErrorCode::TooLowStakePeriod)
            } else if min_freeze_period > u32::MAX {
                Err(ErrorCode::Overflow)
            } else {
                Ok(())
            }),
            r is Err ==> *final(self) == *old(self),
            r is Ok ==> final(self).config == (StakeConfig {
                points_per_nft_stake,
                points_per_sol_stake,
                points_per_spl_stake,
                max_nft_stake,
                min_freeze_period: min_freeze_period as u32,
                apr,
                reward_mint: old(self).reward_mint,
                authority: old(self).admin,
                rewards_bump: bumps.reward_mint,
                bump: bumps.config,
            }),
            final(self).admin == old(self).admin,
            final(self).reward_mint == old(self).reward_mint,
    {
        if min_freeze_period < 0 {
            return Err(ErrorCode::TooLowStakePeriod);
        }
        if min_freeze_period > u32::MAX as i64 {
            return Err(ErrorCode::Overflow);
        }
        let min_freeze_period = min_freeze_period as u32;
        self.config = StakeConfig {
            points_per_nft_stake,
            points_per_sol_stake,
            points_per_spl_stake,
            max_nft_stake,
            min_freeze_period,
            apr,
            reward_mint: self.reward_mint,
            authority: self.admin,
            rewards_bump: bumps.reward_mint,
            bump: bumps.config,
        };
        Ok(())
    }
}

} // verus!

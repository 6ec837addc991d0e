use vstd::prelude::*;

use crate::error::ErrorCode;
use crate::instructions::owner::{check_owner, owner_check};
use crate::key::Pubkey;
use crate::seeds::{seeds_view, stake_seeds_spec, stake_signer_seeds};
use crate::state::{StakeAccount, StakeConfig, UserAccount};

verus! {

/// The accounts of an unstake instruction, as far as the program reads them.
#[derive(Clone, Copy, Debug)]
pub struct UnstakeNFT {
    /// the user who is unstaking their NFT
    pub user: Pubkey,
    /// the user's staking totals
    pub user_account: UserAccount,
    /// program-wide staking parameters
    pub config: StakeConfig,
    /// address of the config account
    pub config_key: Pubkey,
    /// the record of the stake being ended
    pub stake_account: StakeAccount,
    /// address of the staked NFT's mint
    pub nft_mint_key: Pubkey,
}

/// Whether time `now` is past the lock period of a stake. The elapsed time is
/// `now - staked_at`.
pub open spec fn lock_check(stake: StakeAccount, now: i64) -> Result<(), ErrorCode> {
    if now - stake.staked_at >= stake.lock_period {
        Ok(())
    } else {
        Err(ErrorCode::FreezePeriodNotPassed)
    }
}

/// Whether the time elapsed since `staked_at` can be computed in an `i64`.
pub open spec fn elapsed_fits(stake: StakeAccount, now: i64) -> bool {
    i64::MIN <= now - stake.staked_at <= i64::MAX
}

impl UnstakeNFT {
    /// Checks the accounts before the instruction runs: only the user who
    /// made the stake may end it.
    pub fn validate_accounts(&self) -> (r: Result<(), ErrorCode>)
        ensures
            r == owner_check(self.stake_account, self.user),
    {
        check_owner(&self.stake_account, &self.user)
    }

    /// The user's totals after a successful unstake: the NFT no longer counts
    /// for the user, and the user is rewarded with the config's
    /// `points_per_nft_stake` points. Both totals saturate, so neither can
    /// keep the NFT from being handed back.
    pub open spec fn after_unstake(self) -> UnstakeNFT {
        let count = self.user_account.nft_staked_amount;
        let points = self.user_account.points + self.config.points_per_nft_stake;
        UnstakeNFT {
            user_account: UserAccount {
                nft_staked_amount: if count == 0 {
                    0u8
                } else {
                    (count - 1) as u8
                },
                points: if points > u32::MAX {
                    u32::MAX
                } else {
                    points as u32
                },
                ..self.user_account
            },
            ..self
        }
    }

    /// Ends the stake at time `now`, once the lock period has passed: the NFT
    /// is no longer counted for the user and the user earns
    /// `points_per_nft_stake` points (the library's reward rule: a fixed
    /// number of points per unstaked NFT). After this the NFT is thawed and
    /// handed back. Before the lock period has passed nothing changes.
    pub fn unstake(&mut self, now: i64) -> (r: Result<(), ErrorCode>)
        requires
            elapsed_fits(old(self).stake_account, now),
        ensures
            r == lock_check(old(self).stake_account, now),
            r is Ok ==> *final(self) == old(self).after_unstake(),
            r is Err ==> *final(self) == *old(self),
    {
        let staked_at = self.stake_account.staked_at;
        let time_elapsed = now - staked_at;
        if time_elapsed < self.stake_account.lock_period {
            return Err(ErrorCode::FreezePeriodNotPassed);
        }
        self.user_account.nft_staked_amount = self.user_account.nft_staked_amount.saturating_sub(1);
        self.user_account.points = self.user_account.points.saturating_add(
            self.config.points_per_nft_stake as u32,
        );
        Ok(())
    }

    /// The seeds with which the program signs for the stake record when it
    /// thaws the NFT.
    pub fn signer_seeds(&self) -> (s: Vec<Vec<u8>>)
        ensures
            seeds_view(s@) == stake_seeds_spec(
                self.config_key@,
                self.nft_mint_key@,
                self.stake_account.seed,
                self.stake_account.bump,
            ),
    {
        stake_signer_seeds(
            &self.config_key,
            &self.nft_mint_key,
            self.stake_account.seed,
            self.stake_account.bump,
        )
    }
}

} // verus!

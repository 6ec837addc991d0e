use vstd::prelude::*;

use crate::accounts::{MetadataInfo, MintInfo, TokenAccountInfo};
use crate::error::ErrorCode;
use crate::key::Pubkey;
use crate::seeds::{seeds_view, stake_seeds_spec, stake_signer_seeds};
use crate::state::{StakeAccount, StakeConfig, UserAccount};

verus! {

/// How many tokens of the NFT's mint a stake holds, and how many the user
/// delegates to the stake record before it is frozen: the one NFT.
pub const STAKED_NFT_AMOUNT: u64 = 1;

/// The accounts of a stake instruction, as far as the program reads them.
#[derive(Clone, Copy, Debug)]
pub struct StakeNFT {
    /// the user who is staking their NFT
    pub user: Pubkey,
    /// the user's staking totals
    pub user_account: UserAccount,
    /// program-wide staking parameters
    pub config: StakeConfig,
    /// address of the config account
    pub config_key: Pubkey,
    /// the record this stake creates
    pub stake_account: StakeAccount,
    /// the NFT mint being staked
    pub nft_mint: MintInfo,
    /// the collection the NFT must belong to
    pub collection_mint: MintInfo,
    /// the user's token account that holds the NFT
    pub user_nft_ata: TokenAccountInfo,
    /// the NFT's metadata
    pub metadata: MetadataInfo,
}

/// Address bumps found for the accounts of a stake instruction.
#[derive(Clone, Copy, Debug)]
pub struct StakeNFTBumps {
    pub stake_account: u8,
    pub metadata: u8,
    pub master_edition: u8,
}

impl StakeNFT {
    /// The checks a stake must pass before the NFT is delegated and frozen,
    /// in the order they are made: the first that fails gives the error. The
    /// last is the limit on how many NFTs one user may have staked: at most
    /// `max_nft_stake`, so a user who already has that many is refused.
    pub open spec fn stake_check(self, lock_period: i64) -> Result<(), ErrorCode> {
        if lock_period < self.config.min_freeze_period {
            Err(ErrorCode::TooLowStakePeriod)
        } else if self.metadata.mint@ != self.nft_mint.key@ {
            Err(ErrorCode::MetadataMintMismatch)
        } else {
            match self.metadata.collection {
                None => Err(ErrorCode::MissingCollection),
                Some(collection) => {
                    if collection.key@ != self.collection_mint.key@ {
                        Err(ErrorCode::WrongCollection)
                    } else if !collection.verified {
                        Err(ErrorCode::CollectionNotVerified)
                    } else if self.nft_mint.decimals != 0 {
                        Err(ErrorCode::InvalidMintDecimals)
                    } else if self.nft_mint.supply != 1 {
                        Err(ErrorCode::InvalidNftSupply)
                    } else if self.user_nft_ata.owner@ != self.user@ {
                        Err(ErrorCode::InvalidTokenOwner)
                    } else if self.user_nft_ata.amount != STAKED_NFT_AMOUNT {
                        Err(ErrorCode::InvalidTokenAmount)
                    } else if self.user_account.nft_staked_amount >= self.config.max_nft_stake {
                        Err(ErrorCode::ExceedsMaxNftStake)
                    } else {
                        Ok(())
                    }
                },
            }
        }
    }

    /// The record a successful stake writes.
    pub open spec fn stake_record(
        self,
        seed: u64,
        lock_period: i64,
        locked_stake: bool,
        stake_bump: u8,
        now: i64,
    ) -> StakeAccount {
        StakeAccount {
            owner: self.user,
            mint: self.nft_mint.key,
            staked_amount: STAKED_NFT_AMOUNT,
            staked_at: now,
            lock_period: lock_period,
            locked_stakers: locked_stake,
            bump: stake_bump,
            seed: seed,
        }
    }

    /// The accounts after a successful stake.
    pub open spec fn after_stake(
        self,
        seed: u64,
        lock_period: i64,
        locked_stake: bool,
        stake_bump: u8,
        now: i64,
    ) -> StakeNFT {
        StakeNFT {
            stake_account: self.stake_record(seed, lock_period, locked_stake, stake_bump, now),
            user_account: UserAccount {
                nft_staked_amount: (self.user_account.nft_staked_amount + 1) as u8,
                ..self.user_account
            },
            ..self
        }
    }

    /// Checks the stake before the NFT is delegated to the stake account
    /// and frozen.
    pub fn validate_stake(&self, lock_period: i64) -> (r: Result<(), ErrorCode>)
        ensures
            r == self.stake_check(lock_period),
    {
        if lock_period < self.config.min_freeze_period as i64 {
            return Err(ErrorCode::TooLowStakePeriod);
        }
        if self.metadata.mint != self.nft_mint.key {
            return Err(ErrorCode::MetadataMintMismatch);
        }
        let collection = match &self.metadata.collection {
            Some(c) => c,
            None => return Err(ErrorCode::MissingCollection),
        };
        if collection.key != self.collection_mint.key {
            return Err(ErrorCode::WrongCollection);
        }
        if !collection.verified {
            return Err(ErrorCode::CollectionNotVerified);
        }
        if self.nft_mint.decimals != 0 {
            return Err(ErrorCode::InvalidMintDecimals);
        }
        if self.nft_mint.supply != 1 {
            return Err(ErrorCode::InvalidNftSupply);
        }
        if self.user_nft_ata.owner != self.user {
            return Err(ErrorCode::InvalidTokenOwner);
        }
        if self.user_nft_ata.amount != STAKED_NFT_AMOUNT {
            return Err(ErrorCode::InvalidTokenAmount);
        }
        if self.user_account.nft_staked_amount >= self.config.max_nft_stake {
            return Err(ErrorCode::ExceedsMaxNftStake);
        }
        Ok(())
    }

    /// The seeds with which the program signs for the new stake record when it
    /// freezes the NFT.
    pub fn signer_seeds(&self, seed: u64, bumps: &StakeNFTBumps) -> (s: Vec<Vec<u8>>)
        ensures
            seeds_view(s@) == stake_seeds_spec(
                self.config_key@,
                self.nft_mint.key@,
                seed,
                bumps.stake_account,
            ),
    {
        stake_signer_seeds(&self.config_key, &self.nft_mint.key, seed, bumps.stake_account)
    }

    /// Stakes the NFT at time `now`, once it has been delegated and frozen:
    /// writes the stake record and counts the NFT for the user. On any error
    /// nothing changes, as a failed instruction changes no account.
    pub fn stake_nft(
        &mut self,
        seed: u64,
        lock_period: i64,
        locked_stake: bool,
        bumps: &StakeNFTBumps,
        now: i64,
    ) -> (r: Result<(), ErrorCode>)
        ensures
            r == old(self).stake_check(lock_period),
            r is Ok ==> *final(self) == old(self).after_stake(
                seed,
                lock_period,
                locked_stake,
                bumps.stake_account,
                now,
            ),
            r is Err ==> *final(self) == *old(self),
    {
        match self.validate_stake(lock_period) {
            Err(e) => return Err(e),
            Ok(()) => {},
        }
        let record = StakeAccount {
            owner: self.user,
            mint: self.nft_mint.key,
            staked_amount: STAKED_NFT_AMOUNT,
            staked_at: now,
            lock_period: lock_period,
            locked_stakers: locked_stake,
            bump: bumps.stake_account,
            seed: seed,
        };
        let count = match self.user_account.nft_staked_amount.checked_add(1) {
            Some(c) => c,
            None => return Err(ErrorCode::Overflow),
        };
        self.stake_account = record;
        self.user_account.nft_staked_amount = count;
        Ok(())
    }
}

} // verus!

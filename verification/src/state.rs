use vstd::prelude::*;

use crate::key::Pubkey;

verus! {

/// Program-wide staking parameters.
#[derive(Clone, Copy, Debug)]
pub struct StakeConfig {
    /// base points per NFT
    pub points_per_nft_stake: u8,
    /// points multiplier per SOL staked
    pub points_per_sol_stake: u8,
    /// points multiplier per SPL staked
    pub points_per_spl_stake: u8,
    /// max NFTs a user can stake
    pub max_nft_stake: u8,
    /// shortest lock period a stake may ask for
    pub min_freeze_period: u32,
    /// in basis points (e.g. 700 = 7.00%)
    pub apr: u16,
    /// token used for rewards
    pub reward_mint: Pubkey,
    /// admin who can update the config
    pub authority: Pubkey,
    pub rewards_bump: u8,
    pub bump: u8,
}

/// The record of one staked NFT.
#[derive(Clone, Copy, Debug)]
pub struct StakeAccount {
    /// who staked (the user)
    pub owner: Pubkey,
    /// NFT or token mint being staked
    pub mint: Pubkey,
    /// how much is staked
    pub staked_amount: u64,
    /// timestamp when staking started
    pub staked_at: i64,
    /// how long it is locked (in seconds)
    pub lock_period: i64,
    /// true if currently locked
    pub locked_stakers: bool,
    /// address bump
    pub bump: u8,
    /// unique seed the stake address is derived from
    pub seed: u64,
}

/// A user's staking totals.
#[derive(Clone, Copy, Debug)]
pub struct UserAccount {
    /// total points earned
    pub points: u32,
    /// number of NFTs staked
    pub nft_staked_amount: u8,
    /// total SOL staked
    pub sol_staked_amount: u64,
    /// total SPL staked
    pub spl_staked_amount: u64,
    pub bump: u8,
}

} // verus!

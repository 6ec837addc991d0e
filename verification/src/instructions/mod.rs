pub mod claim_nft;
pub mod initialize_config;
pub mod initialize_user;
pub mod owner;
pub mod stake_nft;
pub mod unstake_nft;

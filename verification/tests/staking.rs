use anchor_staking::accounts::{CollectionInfo, MetadataInfo, MintInfo, TokenAccountInfo};
use anchor_staking::error::{ErrorCode, ERROR_CODE_OFFSET};
use anchor_staking::instructions::claim_nft::ClaimNFT;
use anchor_staking::instructions::initialize_config::{InitializeConfig, InitializeConfigBumps};
use anchor_staking::instructions::initialize_user::{InitializeUser, InitializeUserBumps};
use anchor_staking::instructions::stake_nft::{StakeNFT, StakeNFTBumps, STAKED_NFT_AMOUNT};
use anchor_staking::instructions::unstake_nft::UnstakeNFT;
use anchor_staking::key::Pubkey;
use anchor_staking::seeds::stake_signer_seeds;
use anchor_staking::state::{StakeAccount, StakeConfig, UserAccount};

fn key(b: u8) -> Pubkey {
    Pubkey::new([b; 32])
}

fn config(max_nft_stake: u8, min_freeze_period: u32) -> StakeConfig {
    StakeConfig {
        points_per_nft_stake: 10,
        points_per_sol_stake: 2,
        points_per_spl_stake: 3,
        max_nft_stake,
        min_freeze_period,
        apr: 700,
        reward_mint: key(40),
        authority: key(41),
        rewards_bump: 254,
        bump: 253,
    }
}

fn zero_stake_account() -> StakeAccount {
    StakeAccount {
        owner: key(0),
        mint: key(0),
        staked_amount: 0,
        staked_at: 0,
        lock_period: 0,
        locked_stakers: false,
        bump: 0,
        seed: 0,
    }
}

fn user_account(count: u8) -> UserAccount {
    UserAccount { points: 7, nft_staked_amount: count, sol_staked_amount: 5, spl_staked_amount: 6, bump: 250 }
}

const USER: u8 = 1;
const NFT: u8 = 2;
const COLLECTION: u8 = 3;
const CONFIG: u8 = 4;

fn good_stake(count: u8, max: u8) -> StakeNFT {
    StakeNFT {
        user: key(USER),
        user_account: user_account(count),
        config: config(max, 100),
        config_key: key(CONFIG),
        stake_account: zero_stake_account(),
        nft_mint: MintInfo { key: key(NFT), decimals: 0, supply: 1 },
        collection_mint: MintInfo { key: key(COLLECTION), decimals: 0, supply: 1 },
        user_nft_ata: TokenAccountInfo { key: key(5), mint: key(NFT), owner: key(USER), amount: 1 },
        metadata: MetadataInfo {
            key: key(6),
            mint: key(NFT),
            collection: Some(CollectionInfo { verified: true, key: key(COLLECTION) }),
        },
    }
}

fn bumps() -> StakeNFTBumps {
    StakeNFTBumps { stake_account: 249, metadata: 248, master_edition: 247 }
}

fn unstake_for(record: StakeAccount, user: Pubkey) -> UnstakeNFT {
    UnstakeNFT {
        user,
        user_account: user_account(1),
        config: config(5, 100),
        config_key: key(CONFIG),
        stake_account: record,
        nft_mint_key: key(NFT),
    }
}

#[test]
fn error_codes_follow_declaration_order() {
    assert_eq!(ERROR_CODE_OFFSET, 6000);
    assert_eq!(ErrorCode::FreezePeriodNotPassed.code(), 6000);
    assert_eq!(ErrorCode::InvalidAdmin.code(), 6001);
    assert_eq!(ErrorCode::Overflow.code(), 6002);
    assert_eq!(ErrorCode::Underflow.code(), 6003);
    assert_eq!(ErrorCode::TooLowStakePeriod.code(), 6004);
    assert_eq!(ErrorCode::Unauthorized.code(), 6005);
    assert_eq!(ErrorCode::ExceedsMaxNftStake.code(), 6006);
    assert_eq!(ErrorCode::MetadataMintMismatch.code(), 6007);
    assert_eq!(ErrorCode::MissingCollection.code(), 6008);
    assert_eq!(ErrorCode::WrongCollection.code(), 6009);
    assert_eq!(ErrorCode::CollectionNotVerified.code(), 6010);
    assert_eq!(ErrorCode::InvalidMintDecimals.code(), 6011);
    assert_eq!(ErrorCode::InvalidNftSupply.code(), 6012);
    assert_eq!(ErrorCode::InvalidTokenOwner.code(), 6013);
    assert_eq!(ErrorCode::InvalidTokenAmount.code(), 6014);
}

#[test]
fn error_messages() {
    assert_eq!(ErrorCode::FreezePeriodNotPassed.msg(), "Freeze period not passed");
    assert_eq!(ErrorCode::InvalidAdmin.msg(), "Invalid Admin");
    assert_eq!(ErrorCode::Overflow.msg(), "overflow");
    assert_eq!(ErrorCode::Underflow.msg(), "underflow");
    assert_eq!(ErrorCode::TooLowStakePeriod.msg(), "Stake Period too low");
    assert_eq!(ErrorCode::Unauthorized.msg(), "Unauthorized access");
    assert_eq!(ErrorCode::ExceedsMaxNftStake.msg(), "max NFTs staked already");
    assert_eq!(ErrorCode::MetadataMintMismatch.msg(), "metadata mint does not match the nft mint");
    assert_eq!(ErrorCode::MissingCollection.msg(), "there is no specified collection");
    assert_eq!(ErrorCode::WrongCollection.msg(), "the nft does not belong to specified collection");
    assert_eq!(ErrorCode::CollectionNotVerified.msg(), "collection is not verified");
    assert_eq!(ErrorCode::InvalidMintDecimals.msg(), "invalid mint supply");
    assert_eq!(ErrorCode::InvalidNftSupply.msg(), "invalid NFT supple");
    assert_eq!(ErrorCode::InvalidTokenOwner.msg(), "Invalid token owner");
    assert_eq!(ErrorCode::InvalidTokenAmount.msg(), "Invalid Token amount");
}

#[test]
fn keys_compare_by_every_byte() {
    let a = key(9);
    let mut bytes = [9u8; 32];
    assert!(a == Pubkey::new(bytes));
    bytes[31] = 8;
    assert!(a != Pubkey::new(bytes));
    bytes[31] = 9;
    bytes[0] = 0;
    assert!(a != Pubkey::new(bytes));
}

#[test]
fn initialize_config_writes_parameters() {
    let mut ix = InitializeConfig { admin: key(41), config: config(0, 0), reward_mint: key(40) };
    ix.config.points_per_nft_stake = 0;
    let r = ix.initialize_config(1, 2, 3, 3600, 4, 700, &InitializeConfigBumps { config: 200, reward_mint: 201 });
    assert_eq!(r, Ok(()));
    assert_eq!(ix.config.points_per_nft_stake, 1);
    assert_eq!(ix.config.points_per_sol_stake, 2);
    assert_eq!(ix.config.points_per_spl_stake, 3);
    assert_eq!(ix.config.min_freeze_period, 3600);
    assert_eq!(ix.config.max_nft_stake, 4);
    assert_eq!(ix.config.apr, 700);
    assert!(ix.config.reward_mint == key(40));
    assert!(ix.config.authority == key(41));
    assert_eq!(ix.config.bump, 200);
    assert_eq!(ix.config.rewards_bump, 201);
}

#[test]
fn initialize_config_refuses_out_of_range_freeze_period() {
    let mut ix = InitializeConfig { admin: key(41), config: config(9, 9), reward_mint: key(40) };
    let b = InitializeConfigBumps { config: 200, reward_mint: 201 };
    assert_eq!(ix.initialize_config(1, 2, 3, -1, 4, 700, &b), Err(ErrorCode::TooLowStakePeriod));
    assert_eq!(ix.config.min_freeze_period, 9);
    assert_eq!(ix.config.max_nft_stake, 9);
    assert_eq!(ix.initialize_config(1, 2, 3, u32::MAX as i64 + 1, 4, 700, &b), Err(ErrorCode::Overflow));
    assert_eq!(ix.config.min_freeze_period, 9);
    assert_eq!(ix.initialize_config(1, 2, 3, u32::MAX as i64, 4, 700, &b), Ok(()));
    assert_eq!(ix.config.min_freeze_period, u32::MAX);
    assert_eq!(ix.initialize_config(1, 2, 3, 0, 4, 700, &b), Ok(()));
    assert_eq!(ix.config.min_freeze_period, 0);
}

#[test]
fn initialize_config_only_by_admin() {
    let ix = InitializeConfig { admin: key(41), config: config(0, 0), reward_mint: key(40) };
    assert_eq!(ix.validate_accounts(&key(41)), Ok(()));
    assert_eq!(ix.validate_accounts(&key(42)), Err(ErrorCode::InvalidAdmin));
}

#[test]
fn initialize_user_starts_at_zero() {
    let mut ix = InitializeUser { user: key(USER), user_account: user_account(3) };
    assert_eq!(ix.initialize_user(&InitializeUserBumps { user_account: 17 }), Ok(()));
    assert_eq!(ix.user_account.points, 0);
    assert_eq!(ix.user_account.nft_staked_amount, 0);
    assert_eq!(ix.user_account.sol_staked_amount, 0);
    assert_eq!(ix.user_account.spl_staked_amount, 0);
    assert_eq!(ix.user_account.bump, 17);
}

#[test]
fn stake_records_the_nft() {
    let mut s = good_stake(0, 5);
    assert_eq!(s.validate_stake(100), Ok(()));
    let r = s.stake_nft(77, 100, true, &bumps(), 1_700_000_000);
    assert_eq!(r, Ok(()));
    assert!(s.stake_account.owner == key(USER));
    assert!(s.stake_account.mint == key(NFT));
    assert_eq!(s.stake_account.staked_amount, 1);
    assert_eq!(STAKED_NFT_AMOUNT, 1);
    assert_eq!(s.stake_account.staked_at, 1_700_000_000);
    assert_eq!(s.stake_account.lock_period, 100);
    assert!(s.stake_account.locked_stakers);
    assert_eq!(s.stake_account.bump, 249);
    assert_eq!(s.stake_account.seed, 77);
    assert_eq!(s.user_account.nft_staked_amount, 1);
    assert_eq!(s.user_account.points, 7);
    assert_eq!(s.user_account.sol_staked_amount, 5);
}

#[test]
fn stake_lock_period_too_low() {
    let mut s = good_stake(0, 5);
    assert_eq!(s.validate_stake(99), Err(ErrorCode::TooLowStakePeriod));
    assert_eq!(s.stake_nft(1, 99, false, &bumps(), 10), Err(ErrorCode::TooLowStakePeriod));
    assert_eq!(s.user_account.nft_staked_amount, 0);
    assert!(s.stake_account.owner == key(0));
}

#[test]
fn stake_checks_in_order() {
    let mut s = good_stake(0, 5);
    s.metadata.mint = key(9);
    s.nft_mint.decimals = 3;
    assert_eq!(s.validate_stake(100), Err(ErrorCode::MetadataMintMismatch));

    let mut s = good_stake(0, 5);
    s.metadata.collection = None;
    assert_eq!(s.validate_stake(100), Err(ErrorCode::MissingCollection));

    let mut s = good_stake(0, 5);
    s.metadata.collection = Some(CollectionInfo { verified: false, key: key(9) });
    assert_eq!(s.validate_stake(100), Err(ErrorCode::WrongCollection));

    let mut s = good_stake(0, 5);
    s.metadata.collection = Some(CollectionInfo { verified: false, key: key(COLLECTION) });
    assert_eq!(s.validate_stake(100), Err(ErrorCode::CollectionNotVerified));

    let mut s = good_stake(0, 5);
    s.nft_mint.decimals = 6;
    assert_eq!(s.validate_stake(100), Err(ErrorCode::InvalidMintDecimals));

    let mut s = good_stake(0, 5);
    s.nft_mint.supply = 2;
    assert_eq!(s.validate_stake(100), Err(ErrorCode::InvalidNftSupply));

    let mut s = good_stake(0, 5);
    s.user_nft_ata.owner = key(9);
    assert_eq!(s.validate_stake(100), Err(ErrorCode::InvalidTokenOwner));

    let mut s = good_stake(0, 5);
    s.user_nft_ata.amount = 0;
    assert_eq!(s.validate_stake(100), Err(ErrorCode::InvalidTokenAmount));
    assert_eq!(s.stake_nft(1, 100, false, &bumps(), 10), Err(ErrorCode::InvalidTokenAmount));
}

#[test]
fn stake_limit_leaves_accounts_unchanged() {
    // with max_nft_stake 3 a user may hold 3 staked NFTs
    let mut s = good_stake(2, 3);
    assert_eq!(s.stake_nft(1, 100, false, &bumps(), 10), Ok(()));
    assert_eq!(s.user_account.nft_staked_amount, 3);
    let before = s;
    // refused before the NFT is delegated and frozen
    assert_eq!(s.validate_stake(100), Err(ErrorCode::ExceedsMaxNftStake));
    assert_eq!(s.stake_nft(2, 100, false, &bumps(), 20), Err(ErrorCode::ExceedsMaxNftStake));
    assert_eq!(s.user_account.nft_staked_amount, 3);
    assert_eq!(s.stake_account.seed, before.stake_account.seed);
    assert_eq!(s.stake_account.staked_at, 10);
}

#[test]
fn stake_with_max_zero_always_fails_and_one_allows_one() {
    let mut s = good_stake(0, 0);
    assert_eq!(s.stake_nft(1, 100, false, &bumps(), 10), Err(ErrorCode::ExceedsMaxNftStake));
    let mut s = good_stake(0, 1);
    assert_eq!(s.stake_nft(1, 100, false, &bumps(), 10), Ok(()));
    assert_eq!(s.stake_nft(2, 100, false, &bumps(), 10), Err(ErrorCode::ExceedsMaxNftStake));
}

#[test]
fn stake_counts_up_to_the_limit() {
    let mut s = good_stake(0, 255);
    let mut n: u32 = 0;
    while s.stake_nft(n as u64, 100, false, &bumps(), 10) == Ok(()) {
        n += 1;
    }
    assert_eq!(n, 255);
    assert_eq!(s.user_account.nft_staked_amount, 255);
}

#[test]
fn stake_at_count_255_is_refused() {
    let mut s = good_stake(255, 255);
    assert_eq!(s.stake_nft(1, 100, false, &bumps(), 10), Err(ErrorCode::ExceedsMaxNftStake));
    assert_eq!(s.user_account.nft_staked_amount, 255);
}

#[test]
fn unstake_after_lock_period() {
    let mut s = good_stake(0, 5);
    assert_eq!(s.stake_nft(3, 100, true, &bumps(), 1000), Ok(()));
    assert_eq!(s.user_account.nft_staked_amount, 1);
    let mut u = unstake_for(s.stake_account, key(USER));
    u.user_account = s.user_account;
    assert_eq!(u.validate_accounts(), Ok(()));
    assert_eq!(u.unstake(1099), Err(ErrorCode::FreezePeriodNotPassed));
    assert_eq!(u.user_account.nft_staked_amount, 1);
    assert_eq!(u.user_account.points, 7);
    assert_eq!(u.unstake(1100), Ok(()));
    // the count comes back down and the user earns points_per_nft_stake
    assert_eq!(u.user_account.nft_staked_amount, 0);
    assert_eq!(u.user_account.points, 17);
    assert_eq!(u.user_account.sol_staked_amount, 5);
    // a count already at zero stays there; the NFT is still handed back
    assert_eq!(u.unstake(5000), Ok(()));
    assert_eq!(u.user_account.nft_staked_amount, 0);
    assert_eq!(u.user_account.points, 27);
}

#[test]
fn unstake_frees_room_for_another_stake() {
    let mut s = good_stake(0, 1);
    assert_eq!(s.stake_nft(3, 100, true, &bumps(), 1000), Ok(()));
    assert_eq!(s.stake_nft(4, 100, true, &bumps(), 1000), Err(ErrorCode::ExceedsMaxNftStake));
    let mut u = unstake_for(s.stake_account, key(USER));
    u.user_account = s.user_account;
    assert_eq!(u.unstake(2000), Ok(()));
    s.user_account = u.user_account;
    assert_eq!(s.stake_nft(4, 100, true, &bumps(), 2000), Ok(()));
    assert_eq!(s.user_account.nft_staked_amount, 1);
}

#[test]
fn unstake_points_saturate() {
    let mut u = unstake_for(zero_stake_account(), key(0));
    u.user_account.points = u32::MAX - 9;
    assert_eq!(u.unstake(0), Ok(()));
    assert_eq!(u.user_account.points, u32::MAX);
    assert_eq!(u.user_account.nft_staked_amount, 0);
    let mut u = unstake_for(zero_stake_account(), key(0));
    u.user_account.points = u32::MAX - 10;
    assert_eq!(u.unstake(0), Ok(()));
    assert_eq!(u.user_account.points, u32::MAX);
}

#[test]
fn unstake_before_stake_time() {
    let mut record = zero_stake_account();
    record.staked_at = 10;
    record.lock_period = -20;
    let mut u = unstake_for(record, key(0));
    assert_eq!(u.unstake(-11), Err(ErrorCode::FreezePeriodNotPassed));
    assert_eq!(u.unstake(-5), Ok(()));
}

#[test]
fn only_owner_may_unstake_or_claim() {
    let mut s = good_stake(0, 5);
    assert_eq!(s.stake_nft(3, 100, true, &bumps(), 1000), Ok(()));
    let u = unstake_for(s.stake_account, key(8));
    assert_eq!(u.validate_accounts(), Err(ErrorCode::Unauthorized));
    let c = ClaimNFT { user: key(8), user_account: user_account(1), config: config(5, 100), stake_account: s.stake_account };
    assert_eq!(c.validate_accounts(), Err(ErrorCode::Unauthorized));
    let c = ClaimNFT { user: key(USER), ..c };
    assert_eq!(c.validate_accounts(), Ok(()));
}

#[test]
fn stake_seeds_layout() {
    let seeds = stake_signer_seeds(&key(4), &key(2), 0x0102030405060708, 251);
    assert_eq!(seeds.len(), 5);
    assert_eq!(seeds[0], b"stake".to_vec());
    assert_eq!(seeds[1], vec![4u8; 32]);
    assert_eq!(seeds[2], vec![2u8; 32]);
    assert_eq!(seeds[3], 0x0102030405060708u64.to_le_bytes().to_vec());
    assert_eq!(seeds[3], vec![8, 7, 6, 5, 4, 3, 2, 1]);
    assert_eq!(seeds[4], vec![251]);
}

#[test]
fn stake_and_unstake_sign_alike() {
    let mut s = good_stake(0, 5);
    let b = bumps();
    assert_eq!(s.stake_nft(42, 100, true, &b, 1000), Ok(()));
    let at_stake = s.signer_seeds(42, &b);
    let u = unstake_for(s.stake_account, key(USER));
    assert_eq!(u.signer_seeds(), at_stake);
    let other = stake_signer_seeds(&key(CONFIG), &key(NFT), 43, 249);
    assert_ne!(other, at_stake);
}

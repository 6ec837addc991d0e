use vstd::prelude::*;

use crate::error::ErrorCode;
use crate::instructions::initialize_config::admin_check;
use crate::instructions::owner::owner_check;
use crate::instructions::stake_nft::StakeNFT;
use crate::instructions::unstake_nft::{UnstakeNFT, lock_check};
use crate::key::Pubkey;
use crate::seeds::stake_seeds_spec;
use crate::state::StakeAccount;

verus! {

/// A stake passes its checks exactly when: the lock period is at least the
/// config's minimum; the metadata describes the staked mint; it names a
/// collection whose key is the given collection mint and which is verified;
/// the mint has no decimals and a supply of one; the user's token account is
/// the user's and holds exactly one token; and the user has fewer than
/// `max_nft_stake` NFTs staked.
pub proof fn lemma_stake_accepted_exactly_when(s: StakeNFT, lock_period: i64)
    ensures
        s.stake_check(lock_period) is Ok <==> {
            &&& lock_period >= s.config.min_freeze_period
            &&& s.metadata.mint@ == s.nft_mint.key@
            &&& s.metadata.collection is Some
            &&& s.metadata.collection->0.key@ == s.collection_mint.key@
            &&& s.metadata.collection->0.verified
            &&& s.nft_mint.decimals == 0
            &&& s.nft_mint.supply == 1
            &&& s.user_nft_ata.owner@ == s.user@
            &&& s.user_nft_ata.amount == 1
            &&& s.user_account.nft_staked_amount < s.config.max_nft_stake
        },
{
}

/// A lock period shorter than the config's minimum is refused with
/// `TooLowStakePeriod`, and that error comes for no other reason.
pub proof fn lemma_lock_period_too_low_exactly_when(s: StakeNFT, lock_period: i64)
    ensures
        (s.stake_check(lock_period) == Err::<(), ErrorCode>(ErrorCode::TooLowStakePeriod))
            <==> lock_period < s.config.min_freeze_period,
{
}

/// Asking for a longer lock period never turns an accepted stake into a
/// refused one.
pub proof fn lemma_longer_lock_still_accepted(s: StakeNFT, lp1: i64, lp2: i64)
    requires
        s.stake_check(lp1) is Ok,
        lp1 <= lp2,
    ensures
        s.stake_check(lp2) is Ok,
{
}

/// An NFT whose metadata names a collection other than the given collection
/// mint is refused with `WrongCollection` once the lock period and the
/// metadata's mint are right, whether or not that collection is verified; an
/// unverified collection of the right key is refused with
/// `CollectionNotVerified`; no collection at all with `MissingCollection`.
pub proof fn lemma_collection_must_match_and_be_verified(s: StakeNFT, lock_period: i64)
    requires
        lock_period >= s.config.min_freeze_period,
        s.metadata.mint@ == s.nft_mint.key@,
    ensures
        s.metadata.collection is None ==> s.stake_check(lock_period) == Err::<(), ErrorCode>(
            ErrorCode::MissingCollection,
        ),
        s.metadata.collection is Some && s.metadata.collection->0.key@ != s.collection_mint.key@
            ==> s.stake_check(lock_period) == Err::<(), ErrorCode>(ErrorCode::WrongCollection),
        s.metadata.collection is Some && s.metadata.collection->0.key@ == s.collection_mint.key@
            && !s.metadata.collection->0.verified ==> s.stake_check(lock_period) == Err::<
            (),
            ErrorCode,
        >(ErrorCode::CollectionNotVerified),
{
}

/// Once the lock period, the metadata's mint and the collection are right,
/// each remaining fault of a stake gives its own error, checked in this order:
/// decimals, supply, the token account's owner, its amount, then the cap. A
/// metadata that describes another mint is refused with
/// `MetadataMintMismatch` whatever else holds.
pub proof fn lemma_stake_errors_in_order(s: StakeNFT, lock_period: i64)
    requires
        lock_period >= s.config.min_freeze_period,
    ensures
        s.metadata.mint@ != s.nft_mint.key@ ==> s.stake_check(lock_period) == Err::<(), ErrorCode>(
            ErrorCode::MetadataMintMismatch,
        ),
        ({
            let collection_ok = s.metadata.mint@ == s.nft_mint.key@ && s.metadata.collection is Some
                && s.metadata.collection->0.key@ == s.collection_mint.key@
                && s.metadata.collection->0.verified;
            &&& collection_ok && s.nft_mint.decimals != 0 ==> s.stake_check(lock_period) == Err::<
                (),
                ErrorCode,
            >(ErrorCode::InvalidMintDecimals)
            &&& collection_ok && s.nft_mint.decimals == 0 && s.nft_mint.supply != 1
                ==> s.stake_check(lock_period) == Err::<(), ErrorCode>(ErrorCode::InvalidNftSupply)
            &&& collection_ok && s.nft_mint.decimals == 0 && s.nft_mint.supply == 1
                && s.user_nft_ata.owner@ != s.user@ ==> s.stake_check(lock_period) == Err::<
                (),
                ErrorCode,
            >(ErrorCode::InvalidTokenOwner)
            &&& collection_ok && s.nft_mint.decimals == 0 && s.nft_mint.supply == 1
                && s.user_nft_ata.owner@ == s.user@ && s.user_nft_ata.amount != 1
                ==> s.stake_check(lock_period) == Err::<(), ErrorCode>(ErrorCode::InvalidTokenAmount)
            &&& collection_ok && s.nft_mint.decimals == 0 && s.nft_mint.supply == 1
                && s.user_nft_ata.owner@ == s.user@ && s.user_nft_ata.amount == 1
                && s.user_account.nft_staked_amount >= s.config.max_nft_stake
                ==> s.stake_check(lock_period) == Err::<(), ErrorCode>(ErrorCode::ExceedsMaxNftStake)
        }),
{
}

/// A successful stake writes exactly the record the call describes: owned by
/// the staking user, for the staked mint, one token, staked at `now`, with
/// the asked lock period and locked flag, the given seed and the stake bump;
/// it raises the user's staked count by one and leaves every other total and
/// account as it was.
pub proof fn lemma_stake_writes_the_asked_record(
    s: StakeNFT,
    seed: u64,
    lock_period: i64,
    locked_stake: bool,
    stake_bump: u8,
    now: i64,
)
    requires
        s.stake_check(lock_period) is Ok,
    ensures
        ({
            let after = s.after_stake(seed, lock_period, locked_stake, stake_bump, now);
            let r = after.stake_account;
            &&& r.owner == s.user
            &&& r.mint == s.nft_mint.key
            &&& r.staked_amount == 1
            &&& r.staked_at == now
            &&& r.lock_period == lock_period
            &&& r.locked_stakers == locked_stake
            &&& r.seed == seed
            &&& r.bump == stake_bump
            &&& after.user_account.nft_staked_amount == s.user_account.nft_staked_amount + 1
            &&& after.user_account.points == s.user_account.points
            &&& after.user_account.sol_staked_amount == s.user_account.sol_staked_amount
            &&& after.user_account.spl_staked_amount == s.user_account.spl_staked_amount
            &&& after.user_account.bump == s.user_account.bump
            &&& after.config == s.config
            &&& after.user == s.user
            &&& after.nft_mint == s.nft_mint
            &&& after.metadata == s.metadata
        }),
{
}

/// The seeds of a stake record's address are five: the bytes of "stake", the
/// config's address, the NFT mint's address, the seed as exactly eight
/// little-endian bytes (which decode back to the seed, for every seed), and
/// the bump as a single byte.
pub proof fn lemma_stake_seeds_layout(config: Pubkey, mint: Pubkey, seed: u64, bump: u8)
    ensures
        ({
            let s = stake_seeds_spec(config@, mint@, seed, bump);
            &&& s.len() == 5
            &&& s[0] == seq![115u8, 116u8, 97u8, 107u8, 101u8]
            &&& s[1] == config@
            &&& s[2] == mint@
            &&& s[3].len() == 8
            &&& vstd::bytes::spec_u64_from_le_bytes(s[3]) == seed
            &&& s[3][0] == (seed % 256) as u8
            &&& s[4] == seq![bump]
        }),
{
    vstd::bytes::lemma_auto_spec_u64_to_from_le_bytes();
    vstd::bytes::spec_u64_to_le_bytes_to_open(seed);
    assert((seed & 0xff) == seed % 256) by (bit_vector);
}

/// Only the admin may set the parameters: the admin check passes exactly when
/// the signer's address is the admin's, byte for byte, so every key passes
/// against itself.
pub proof fn lemma_admin_accepted_exactly_when(admin: Pubkey, admin_key: Pubkey)
    ensures
        admin_check(admin, admin_key) is Ok <==> admin@ == admin_key@,
        admin_check(admin, admin_key) is Err ==> admin_check(admin, admin_key) == Err::<
            (),
            ErrorCode,
        >(ErrorCode::InvalidAdmin),
        admin_check(admin, admin) is Ok,
{
}

/// Only the staker may act on a stake: the owner check passes exactly when the
/// user is the record's owner, and otherwise gives `Unauthorized`.
pub proof fn lemma_owner_accepted_exactly_when(stake: StakeAccount, user: Pubkey)
    ensures
        owner_check(stake, user) is Ok <==> stake.owner@ == user@,
        owner_check(stake, user) is Err ==> owner_check(stake, user) == Err::<(), ErrorCode>(
            ErrorCode::Unauthorized,
        ),
{
}

/// A stake's lock has passed at `now` exactly when at least `lock_period`
/// seconds have gone by since it was staked; otherwise the unstake gives
/// `FreezePeriodNotPassed`.
pub proof fn lemma_unlock_exactly_when(stake: StakeAccount, now: i64)
    ensures
        lock_check(stake, now) is Ok <==> now - stake.staked_at >= stake.lock_period,
        lock_check(stake, now) is Err ==> lock_check(stake, now) == Err::<(), ErrorCode>(
            ErrorCode::FreezePeriodNotPassed,
        ),
{
}

/// A successful unstake lowers the user's staked count by one (not below
/// zero), adds `points_per_nft_stake` to the user's points (not above
/// `u32::MAX`), and leaves every other total, the stake record and the config
/// as they were.
pub proof fn lemma_unstake_updates_totals(u: UnstakeNFT)
    ensures
        ({
            let after = u.after_unstake();
            let count = u.user_account.nft_staked_amount;
            let points = u.user_account.points + u.config.points_per_nft_stake;
            &&& count > 0 ==> after.user_account.nft_staked_amount == count - 1
            &&& count == 0 ==> after.user_account.nft_staked_amount == 0
            &&& points <= u32::MAX ==> after.user_account.points == points
            &&& points > u32::MAX ==> after.user_account.points == u32::MAX
            &&& after.user_account.points >= u.user_account.points
            &&& after.user_account.sol_staked_amount == u.user_account.sol_staked_amount
            &&& after.user_account.spl_staked_amount == u.user_account.spl_staked_amount
            &&& after.user_account.bump == u.user_account.bump
            &&& after.stake_account == u.stake_account
            &&& after.config == u.config
            &&& after.user == u.user
        }),
{
}

} // verus!

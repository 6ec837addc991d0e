use vstd::prelude::*;

use crate::error::ErrorCode;
use crate::instructions::initialize_user::fresh_user_account;
use crate::instructions::owner::owner_check;
use crate::instructions::stake_nft::StakeNFT;
use crate::instructions::unstake_nft::{UnstakeNFT, lock_check};
use crate::key::Pubkey;
use crate::state::{StakeAccount, UserAccount};
use crate::seeds::stake_seeds_spec;

verus! {

/// A successful stake writes a record that only the staking user may act on,
/// with a lock period no shorter than the config's minimum; the record's lock
/// has passed at time `now` exactly when `lock_period` seconds have passed
/// since the stake.
pub proof fn lemma_stake_then_unstake(
    s: StakeNFT,
    seed: u64,
    lock_period: i64,
    locked_stake: bool,
    stake_bump: u8,
    staked_at: i64,
    other: Pubkey,
    now: i64,
)
    requires
        s.stake_check(lock_period) is Ok,
    ensures
        ({
            let record = s.stake_record(seed, lock_period, locked_stake, stake_bump, staked_at);
            &&& record.lock_period >= s.config.min_freeze_period
            &&& owner_check(record, s.user) == Ok::<(), ErrorCode>(())
            &&& other@ != s.user@ ==> owner_check(record, other) == Err::<(), ErrorCode>(
                ErrorCode::Unauthorized,
            )
            &&& (lock_check(record, now) is Ok <==> now - staked_at >= lock_period)
        }),
{
}

/// Once a stake may be unstaked, it may be unstaked at every later time.
pub proof fn lemma_unlock_is_permanent(u: UnstakeNFT, t1: i64, t2: i64)
    requires
        lock_check(u.stake_account, t1) is Ok,
        t1 <= t2,
    ensures
        lock_check(u.stake_account, t2) is Ok,
{
}

/// The user's totals after a stake, whatever its outcome.
pub open spec fn user_after_stake(
    s: StakeNFT,
    seed: u64,
    lock_period: i64,
    locked_stake: bool,
    stake_bump: u8,
    now: i64,
) -> UserAccount {
    if s.stake_check(lock_period) is Ok {
        s.after_stake(seed, lock_period, locked_stake, stake_bump, now).user_account
    } else {
        s.user_account
    }
}

/// The user's totals after an unstake, whatever its outcome.
pub open spec fn user_after_unstake(u: UnstakeNFT, now: i64) -> UserAccount {
    if lock_check(u.stake_account, now) is Ok {
        u.after_unstake().user_account
    } else {
        u.user_account
    }
}

/// A user's staked count starts at zero, rises by at most one with each stake
/// and never beyond `max_nft_stake`; each unstake lowers it by at most one and
/// never below zero. So a count within the cap stays within it.
pub proof fn lemma_staked_count_bounded(
    s: StakeNFT,
    seed: u64,
    lock_period: i64,
    locked_stake: bool,
    stake_bump: u8,
    now: i64,
    u: UnstakeNFT,
    unstake_time: i64,
    bump: u8,
)
    ensures
        fresh_user_account(bump).nft_staked_amount == 0,
        ({
            let after = user_after_stake(s, seed, lock_period, locked_stake, stake_bump, now);
            &&& after.nft_staked_amount <= s.user_account.nft_staked_amount + 1
            &&& s.user_account.nft_staked_amount <= s.config.max_nft_stake
                ==> after.nft_staked_amount <= s.config.max_nft_stake
            &&& s.stake_check(lock_period) is Ok ==> after.nft_staked_amount
                == s.user_account.nft_staked_amount + 1
        }),
        ({
            let after = user_after_unstake(u, unstake_time);
            &&& after.nft_staked_amount <= u.user_account.nft_staked_amount
            &&& u.user_account.nft_staked_amount <= u.config.max_nft_stake
                ==> after.nft_staked_amount <= u.config.max_nft_stake
            &&& lock_check(u.stake_account, unstake_time) is Ok
                && u.user_account.nft_staked_amount > 0 ==> after.nft_staked_amount + 1
                == u.user_account.nft_staked_amount
        }),
{
}

/// How many of `records` belong to `user`.
pub open spec fn owned_count(records: Seq<StakeAccount>, user: Seq<u8>) -> nat
    decreases records.len(),
{
    if records.len() == 0 {
        0
    } else {
        owned_count(records.drop_last(), user) + if records.last().owner@ == user {
            1nat
        } else {
            0nat
        }
    }
}

/// Removing one record from a list lowers the count of the user's records by
/// one if the record is theirs, and leaves it otherwise.
pub proof fn lemma_owned_count_remove(records: Seq<StakeAccount>, i: int, user: Seq<u8>)
    requires
        0 <= i < records.len(),
    ensures
        owned_count(records, user) == owned_count(records.remove(i), user) + if records[i].owner@
            == user {
            1nat
        } else {
            0nat
        },
    decreases records.len(),
{
    let n = records.len();
    if i == n - 1 {
        assert(records.remove(i) =~= records.drop_last());
    } else {
        lemma_owned_count_remove(records.drop_last(), i, user);
        assert(records.remove(i).drop_last() =~= records.drop_last().remove(i));
        assert(records.remove(i).last() == records.last());
    }
}

/// The staked count follows the user's open stake records: if it equals the
/// number of the user's records in `open` before a stake, it equals the number
/// of the user's records in `open` with the new record added after a
/// successful stake, and `open` unchanged after a refused one.
pub proof fn lemma_stake_keeps_count_of_open_stakes(
    s: StakeNFT,
    open: Seq<StakeAccount>,
    seed: u64,
    lock_period: i64,
    locked_stake: bool,
    stake_bump: u8,
    now: i64,
)
    requires
        s.user_account.nft_staked_amount == owned_count(open, s.user@),
    ensures
        s.stake_check(lock_period) is Ok ==> ({
            let after = s.after_stake(seed, lock_period, locked_stake, stake_bump, now);
            after.user_account.nft_staked_amount == owned_count(
                open.push(after.stake_account),
                s.user@,
            )
        }),
        s.stake_check(lock_period) is Err ==> user_after_stake(
            s,
            seed,
            lock_period,
            locked_stake,
            stake_bump,
            now,
        ).nft_staked_amount == owned_count(open, s.user@),
{
    let after = s.after_stake(seed, lock_period, locked_stake, stake_bump, now);
    assert(open.push(after.stake_account).drop_last() =~= open);
}

/// The staked count follows the user's open stake records: if it equals the
/// number of the user's records in `open`, and the unstaked record is one of
/// them, it equals the number of the user's records left in `open` after a
/// successful unstake, and is unchanged after a refused one.
pub proof fn lemma_unstake_keeps_count_of_open_stakes(
    u: UnstakeNFT,
    open: Seq<StakeAccount>,
    i: int,
    now: i64,
)
    requires
        0 <= i < open.len(),
        open[i] == u.stake_account,
        owner_check(u.stake_account, u.user) is Ok,
        u.user_account.nft_staked_amount == owned_count(open, u.user@),
    ensures
        lock_check(u.stake_account, now) is Ok ==> user_after_unstake(u, now).nft_staked_amount
            == owned_count(open.remove(i), u.user@),
        lock_check(u.stake_account, now) is Err ==> user_after_unstake(u, now).nft_staked_amount
            == owned_count(open, u.user@),
{
    lemma_owned_count_remove(open, i, u.user@);
}

/// A stake followed by the unstake of the record it wrote, by the same user
/// with the same config, gives the user back their staked count and adds the
/// config's points per staked NFT to their points (up to `u32::MAX`); the
/// unstake succeeds exactly when the lock period has passed.
pub proof fn lemma_stake_unstake_round_trip(
    s: StakeNFT,
    seed: u64,
    lock_period: i64,
    locked_stake: bool,
    stake_bump: u8,
    staked_at: i64,
    u: UnstakeNFT,
    now: i64,
)
    requires
        s.stake_check(lock_period) is Ok,
        ({
            let after = s.after_stake(seed, lock_period, locked_stake, stake_bump, staked_at);
            &&& u.stake_account == after.stake_account
            &&& u.user_account == after.user_account
            &&& u.user == s.user
            &&& u.config == s.config
        }),
    ensures
        lock_check(u.stake_account, now) is Ok <==> now - staked_at >= lock_period,
        u.after_unstake().user_account == (UserAccount {
            points: if s.user_account.points + s.config.points_per_nft_stake > u32::MAX {
                u32::MAX
            } else {
                (s.user_account.points + s.config.points_per_nft_stake) as u32
            },
            ..s.user_account
        }),
{
}

/// Unstaking a record signs, for the same config and NFT, with the same seeds
/// as the stake that wrote it, so both speak for the same stake address.
pub proof fn lemma_signer_seeds_agree(
    s: StakeNFT,
    seed: u64,
    lock_period: i64,
    locked_stake: bool,
    stake_bump: u8,
    now: i64,
    u: UnstakeNFT,
)
    requires
        u.stake_account == s.stake_record(seed, lock_period, locked_stake, stake_bump, now),
        u.config_key == s.config_key,
        u.nft_mint_key == s.nft_mint.key,
    ensures
        stake_seeds_spec(
            u.config_key@,
            u.nft_mint_key@,
            u.stake_account.seed,
            u.stake_account.bump,
        ) == stake_seeds_spec(s.config_key@, s.nft_mint.key@, seed, stake_bump),
{
}

} // verus!

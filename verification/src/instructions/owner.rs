use vstd::prelude::*;

use crate::error::ErrorCode;
use crate::key::Pubkey;
use crate::state::StakeAccount;

verus! {

/// Only the user who made a stake may act on it.
pub open spec fn owner_check(stake: StakeAccount, user: Pubkey) -> Result<(), ErrorCode> {
    if stake.owner@ == user@ {
        Ok(())
    } else {
        Err(ErrorCode::Unauthorized)
    }
}

/// Checks that `user` made the stake.
pub fn check_owner(stake: &StakeAccount, user: &Pubkey) -> (r: Result<(), ErrorCode>)
    ensures
        r == owner_check(*stake, *user),
{
    if stake.owner == *user {
        Ok(())
    } else {
        Err(ErrorCode::Unauthorized)
    }
}

} // verus!

use vstd::prelude::*;

verus! {

/// The first code given to a program's own errors; the errors below follow it
/// in declaration order. This is the numbering Anchor's `#[error_code]`
/// attribute gives the program's copy of this enum (its offset is Anchor's
/// `ERROR_CODE_OFFSET`); the library restates it, with the messages, so that
/// the codes and messages a client receives can be read off the library's
/// errors. Nothing ties this restatement to what the attribute generates.
pub const ERROR_CODE_OFFSET: u32 = 6000;

/// Errors the staking program reports.
#[derive(Clone, Copy, Debug, PartialEq, Eq, Structural)]
pub enum ErrorCode {
    FreezePeriodNotPassed,
    InvalidAdmin,
    Overflow,
    Underflow,
    TooLowStakePeriod,
    Unauthorized,
    ExceedsMaxNftStake,
    MetadataMintMismatch,
    MissingCollection,
    WrongCollection,
    CollectionNotVerified,
    InvalidMintDecimals,
    InvalidNftSupply,
    InvalidTokenOwner,
    InvalidTokenAmount,
}

/// Position of an error in the declaration of `ErrorCode`.
pub open spec fn error_index(e: ErrorCode) -> nat {
    match e {
        ErrorCode::FreezePeriodNotPassed => 0,
        ErrorCode::InvalidAdmin => 1,
        ErrorCode::Overflow => 2,
        ErrorCode::Underflow => 3,
        ErrorCode::TooLowStakePeriod => 4,
        ErrorCode::Unauthorized => 5,
        ErrorCode::ExceedsMaxNftStake => 6,
        ErrorCode::MetadataMintMismatch => 7,
        ErrorCode::MissingCollection => 8,
        ErrorCode::WrongCollection => 9,
        ErrorCode::CollectionNotVerified => 10,
        ErrorCode::InvalidMintDecimals => 11,
        ErrorCode::InvalidNftSupply => 12,
        ErrorCode::InvalidTokenOwner => 13,
        ErrorCode::InvalidTokenAmount => 14,
    }
}

/// The message attached to each error.
pub open spec fn error_message(e: ErrorCode) -> Seq<char> {
    match e {
        ErrorCode::FreezePeriodNotPassed => "Freeze period not passed"@,
        ErrorCode::InvalidAdmin => "Invalid Admin"@,
        ErrorCode::Overflow => "overflow"@,
        ErrorCode::Underflow => "underflow"@,
        ErrorCode::TooLowStakePeriod => "Stake Period too low"@,
        ErrorCode::Unauthorized => "Unauthorized access"@,
        ErrorCode::ExceedsMaxNftStake => "max NFTs staked already"@,
        ErrorCode::MetadataMintMismatch => "metadata mint does not match the nft mint"@,
        ErrorCode::MissingCollection => "there is no specified collection"@,
        ErrorCode::WrongCollection => "the nft does not belong to specified collection"@,
        ErrorCode::CollectionNotVerified => "collection is not verified"@,
        ErrorCode::InvalidMintDecimals => "invalid mint supply"@,
        ErrorCode::InvalidNftSupply => "invalid NFT supple"@,
        ErrorCode::InvalidTokenOwner => "Invalid token owner"@,
        ErrorCode::InvalidTokenAmount => "Invalid Token amount"@,
    }
}

impl ErrorCode {
    /// The numeric code the program returns for this error.
    pub fn code(&self) -> (c: u32)
        ensures
            c == ERROR_CODE_OFFSET + error_index(*self),
    {
        let idx: u32 = match self {
            ErrorCode::FreezePeriodNotPassed => 0,
            ErrorCode::InvalidAdmin => 1,
            ErrorCode::Overflow => 2,
            ErrorCode::Underflow => 3,
            ErrorCode::TooLowStakePeriod => 4,
            ErrorCode::Unauthorized => 5,
            ErrorCode::ExceedsMaxNftStake => 6,
            ErrorCode::MetadataMintMismatch => 7,
            ErrorCode::MissingCollection => 8,
            ErrorCode::WrongCollection => 9,
            ErrorCode::CollectionNotVerified => 10,
            ErrorCode::InvalidMintDecimals => 11,
            ErrorCode::InvalidNftSupply => 12,
            ErrorCode::InvalidTokenOwner => 13,
            ErrorCode::InvalidTokenAmount => 14,
        };
        ERROR_CODE_OFFSET + idx
    }

    /// The message attached to this error.
    pub fn msg(&self) -> (m: &'static str)
        ensures
            m@ == error_message(*self),
    {
        match self {
            ErrorCode::FreezePeriodNotPassed => "Freeze period not passed",
            ErrorCode::InvalidAdmin => "Invalid Admin",
            ErrorCode::Overflow => "overflow",
            ErrorCode::Underflow => "underflow",
            ErrorCode::TooLowStakePeriod => "Stake Period too low",
            ErrorCode::Unauthorized => "Unauthorized access",
            ErrorCode::ExceedsMaxNftStake => "max NFTs staked already",
            ErrorCode::MetadataMintMismatch => "metadata mint does not match the nft mint",
            ErrorCode::MissingCollection => "there is no specified collection",
            ErrorCode::WrongCollection => "the nft does not belong to specified collection",
            ErrorCode::CollectionNotVerified => "collection is not verified",
            ErrorCode::InvalidMintDecimals => "invalid mint supply",
            ErrorCode::InvalidNftSupply => "invalid NFT supple",
            ErrorCode::InvalidTokenOwner => "Invalid token owner",
            ErrorCode::InvalidTokenAmount => "Invalid Token amount",
        }
    }
}

/// Distinct errors have distinct codes, all in the program's own range.
pub proof fn lemma_error_codes_distinct(a: ErrorCode, b: ErrorCode)
    ensures
        (ERROR_CODE_OFFSET + error_index(a) == ERROR_CODE_OFFSET + error_index(b)) <==> a == b,
        ERROR_CODE_OFFSET <= ERROR_CODE_OFFSET + error_index(a) < ERROR_CODE_OFFSET + 15,
{
}

} // verus!

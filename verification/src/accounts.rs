use vstd::prelude::*;

use crate::key::Pubkey;

verus! {

/// What the program reads of a token mint.
#[derive(Clone, Copy, Debug)]
pub struct MintInfo {
    /// address of the mint
    pub key: Pubkey,
    /// number of decimals of the token
    pub decimals: u8,
    /// total number of tokens in circulation
    pub supply: u64,
}

/// What the program reads of a token account.
#[derive(Clone, Copy, Debug)]
pub struct TokenAccountInfo {
    /// address of the token account
    pub key: Pubkey,
    /// mint of the tokens it holds
    pub mint: Pubkey,
    /// owner of the tokens it holds
    pub owner: Pubkey,
    /// number of tokens it holds
    pub amount: u64,
}

/// The collection an NFT's metadata names.
#[derive(Clone, Copy, Debug)]
pub struct CollectionInfo {
    /// whether the collection's authority has verified the NFT
    pub verified: bool,
    /// mint of the collection
    pub key: Pubkey,
}

/// What the program reads of an NFT's metadata account.
#[derive(Clone, Copy, Debug)]
pub struct MetadataInfo {
    /// address of the metadata account
    pub key: Pubkey,
    /// mint the metadata describes
    pub mint: Pubkey,
    /// collection the NFT belongs to, if any
    pub collection: Option<CollectionInfo>,
}

} // verus!

use vstd::prelude::*;
use vstd::bytes::{spec_u64_to_le_bytes, u64_to_le_bytes};

use crate::key::Pubkey;

verus! {

/// The prefix of every stake record's address seeds: the bytes of "stake".
pub open spec fn stake_prefix() -> Seq<u8> {
    seq![115u8, 116u8, 97u8, 107u8, 101u8]
}

/// The seeds the stake record's address is derived from, and with which the
/// program signs for it: "stake", the config's address, the NFT mint, the
/// seed in little-endian bytes and the bump.
pub open spec fn stake_seeds_spec(config: Seq<u8>, mint: Seq<u8>, seed: u64, bump: u8) -> Seq<
    Seq<u8>,
> {
    seq![stake_prefix(), config, mint, spec_u64_to_le_bytes(seed), seq![bump]]
}

/// The views of a list of byte strings.
pub open spec fn seeds_view(s: Seq<Vec<u8>>) -> Seq<Seq<u8>> {
    s.map_values(|v: Vec<u8>| v@)
}

fn key_bytes(k: &Pubkey) -> (v: Vec<u8>)
    ensures
        v@ == k@,
{
    let mut v: Vec<u8> = Vec::new();
    let mut i: usize = 0;
    while i < 32
        invariant
            i <= 32,
            v@ == k@.take(i as int),
            k@.len() == 32,
        decreases 32 - i,
    {
        v.push(k.bytes[i]);
        i = i + 1;
        assert(v@ =~= k@.take(i as int));
    }
    assert(k@.take(32) =~= k@);
    v
}

/// Builds the seeds of a stake record's address.
pub fn stake_signer_seeds(config: &Pubkey, mint: &Pubkey, seed: u64, bump: u8) -> (s: Vec<Vec<u8>>)
    ensures
        seeds_view(s@) == stake_seeds_spec(config@, mint@, seed, bump),
{
    let prefix: Vec<u8> = vec![115u8, 116u8, 97u8, 107u8, 101u8];
    assert(prefix@ =~= stake_prefix());
    let last: Vec<u8> = vec![bump];
    assert(last@ =~= seq![bump]);
    let mut s: Vec<Vec<u8>> = Vec::new();
    s.push(prefix);
    s.push(key_bytes(config));
    s.push(key_bytes(mint));
    s.push(u64_to_le_bytes(seed));
    s.push(last);
    assert(seeds_view(s@).len() == 5);
    assert(seeds_view(s@) =~= stake_seeds_spec(config@, mint@, seed, bump));
    s
}

/// Distinct stakes sign with distinct seeds: the seeds give back the config,
/// the mint, the seed and the bump they were made from.
pub proof fn lemma_stake_seeds_injective(
    config1: Seq<u8>,
    mint1: Seq<u8>,
    seed1: u64,
    bump1: u8,
    config2: Seq<u8>,
    mint2: Seq<u8>,
    seed2: u64,
    bump2: u8,
)
    requires
        stake_seeds_spec(config1, mint1, seed1, bump1) == stake_seeds_spec(
            config2,
            mint2,
            seed2,
            bump2,
        ),
    ensures
        config1 == config2,
        mint1 == mint2,
        seed1 == seed2,
        bump1 == bump2,
{
    let s1 = stake_seeds_spec(config1, mint1, seed1, bump1);
    let s2 = stake_seeds_spec(config2, mint2, seed2, bump2);
    assert(s1[1] == s2[1]);
    assert(s1[2] == s2[2]);
    assert(s1[3] == s2[3]);
    assert(s1[4][0] == s2[4][0]);
    vstd::bytes::lemma_auto_spec_u64_to_from_le_bytes();
    assert(vstd::bytes::spec_u64_from_le_bytes(s1[3]) == seed1);
}

} // verus!

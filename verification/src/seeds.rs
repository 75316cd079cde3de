use vstd::prelude::*;
use vstd::slice::slice_to_vec;

use crate::constants::{CONFIG_SEED, LP_SEED};
use crate::state::{Config, Key};

verus! {

/// The `n` lowest bytes of `v`, least significant first.
pub open spec fn le_bytes(v: nat, n: nat) -> Seq<u8>
    decreases n,
{
    if n == 0 {
        Seq::empty()
    } else {
        seq![(v % 256) as u8] + le_bytes(v / 256, (n - 1) as nat)
    }
}

/// The little-endian encoding of a pool's seed, as used in its address.
pub fn seed_le_bytes(seed: u64) -> (bytes: Vec<u8>)
    ensures
        bytes@ == le_bytes(seed as nat, 8),
        bytes@.len() == 8,
{
    let mut bytes: Vec<u8> = Vec::new();
    let mut v: u64 = seed;
    let mut i: usize = 0;
    while i < 8
        invariant
            0 <= i <= 8,
            bytes@.len() == i,
            bytes@ + le_bytes(v as nat, (8 - i) as nat) == le_bytes(seed as nat, 8),
        decreases 8 - i,
    {
        let ghost before = bytes@;
        let b = (v % 256) as u8;
        assert(le_bytes(v as nat, (8 - i) as nat) == seq![b] + le_bytes((v / 256) as nat, (8 - i - 1) as nat));
        bytes.push(b);
        assert(bytes@ + le_bytes((v / 256) as nat, (8 - i - 1) as nat) =~= before + (seq![b] + le_bytes((v / 256) as nat, (8 - i - 1) as nat)));
        v = v / 256;
        i = i + 1;
    }
    assert(le_bytes(v as nat, 0) =~= Seq::<u8>::empty());
    assert(bytes@ + Seq::<u8>::empty() =~= bytes@);
    bytes
}

/// The seeds with which the pool's configuration signs for its vaults and
/// its LP mint: the configuration prefix, the pool's seed and its bump.
pub fn config_signer_seeds(config: &Config) -> (seeds: Vec<Vec<u8>>)
    ensures
        seeds@.len() == 3,
        seeds@[0]@ == CONFIG_SEED@,
        seeds@[1]@ == le_bytes(config.seed as nat, 8),
        seeds@[2]@ == seq![config.config_bump],
{
    let mut seeds: Vec<Vec<u8>> = Vec::new();
    seeds.push(slice_to_vec(&CONFIG_SEED));
    seeds.push(seed_le_bytes(config.seed));
    let mut bump: Vec<u8> = Vec::new();
    bump.push(config.config_bump);
    seeds.push(bump);
    seeds
}

/// The seeds of a pool's LP mint address: the LP prefix and the address of
/// the pool's configuration.
pub fn lp_mint_seeds(config_key: &Key) -> (seeds: Vec<Vec<u8>>)
    ensures
        seeds@.len() == 2,
        seeds@[0]@ == LP_SEED@,
        seeds@[1]@ == config_key@,
{
    let mut seeds: Vec<Vec<u8>> = Vec::new();
    seeds.push(slice_to_vec(&LP_SEED));
    seeds.push(slice_to_vec(&config_key.bytes));
    seeds
}

} // verus!

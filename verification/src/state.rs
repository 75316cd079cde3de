use vstd::prelude::*;

verus! {

/// A 32-byte account address (a public key), held as its bytes.
#[derive(Debug, Clone, Copy, PartialEq, Eq)]
pub struct Key {
    pub bytes: [u8; 32],
}

impl View for Key {
    type V = Seq<u8>;

    open spec fn view(&self) -> Seq<u8> {
        self.bytes@
    }
}

impl Key {
    /// Whether two addresses are the same, byte for byte.
    pub fn same_as(&self, other: &Key) -> (same: bool)
        ensures
            same == (self@ == other@),
    {
        let mut i: usize = 0;
        while i < 32
            invariant
                0 <= i <= 32,
                self@.len() == 32,
                other@.len() == 32,
                forall|j: int| 0 <= j < i ==> self@[j] == other@[j],
            decreases 32 - i,
        {
            if self.bytes[i] != other.bytes[i] {
                assert(self@[i as int] != other@[i as int]);
                return false;
            }
            i = i + 1;
        }
        assert(self@ =~= other@);
        true
    }
}

/// The configuration of one x/y pool.
#[derive(Debug, Clone, Copy, PartialEq, Eq)]
pub struct Config {
    /// Lets one wallet open many pools.
    pub seed: u64,
    /// Who may lock the pool; `None` means the pool is immutable.
    pub authority: Option<Key>,
    pub mint_x: Key,
    pub mint_y: Key,
    /// The swap fee, in basis points.
    pub fee: u16,
    pub locked: bool,
    pub config_bump: u8,
    pub lp_bump: u8,
}

impl Config {
    /// What every pool configuration that `initialize` creates satisfies:
    /// the fee is at most 100% and the two mints differ.
    pub open spec fn wf(&self) -> bool {
        &&& self.fee <= 10_000
        &&& self.mint_x@ != self.mint_y@
    }
}

} // verus!

verus! {

/// One of the pool's two tokens.
#[derive(Debug, Clone, Copy, PartialEq, Eq, Structural)]
pub enum Side {
    X,
    Y,
}

impl Side {
    /// The side that pays in a swap: `X` when paying x, `Y` otherwise.
    pub open spec fn spec_from_is_x(is_x: bool) -> Side {
        if is_x {
            Side::X
        } else {
            Side::Y
        }
    }

    pub open spec fn spec_opposite(self) -> Side {
        match self {
            Side::X => Side::Y,
            Side::Y => Side::X,
        }
    }

    pub fn from_is_x(is_x: bool) -> (side: Side)
        ensures
            side == Side::spec_from_is_x(is_x),
    {
        if is_x {
            Side::X
        } else {
            Side::Y
        }
    }

    /// The other token.
    pub fn opposite(&self) -> (other: Side)
        ensures
            other == self.spec_opposite(),
    {
        match *self {
            Side::X => Side::Y,
            Side::Y => Side::X,
        }
    }
}

} // verus!

//! Account identifiers.

use vstd::prelude::*;

verus! {

/// A 32-byte account address, held as four little-endian 64-bit words.
#[derive(Clone, Copy, Debug, PartialEq, Eq, Structural)]
pub struct AccountId {
    pub w0: u64,
    pub w1: u64,
    pub w2: u64,
    pub w3: u64,
}

/// The little-endian number formed by the eight bytes of `b` from `s` on.
pub open spec fn word_of(b: Seq<u8>, s: int) -> nat {
    b[s] as nat + b[s + 1] as nat * 0x100 + b[s + 2] as nat * 0x1_0000 + b[s + 3] as nat
        * 0x100_0000 + b[s + 4] as nat * 0x1_0000_0000 + b[s + 5] as nat * 0x100_0000_0000
        + b[s + 6] as nat * 0x1_0000_0000_0000 + b[s + 7] as nat * 0x100_0000_0000_0000
}

fn pack_word(b: &[u8; 32], s: usize) -> (r: u64)
    requires
        s + 8 <= 32,
    ensures
        r as nat == word_of(b@, s as int),
{
    b[s] as u64 + b[s + 1] as u64 * 0x100 + b[s + 2] as u64 * 0x1_0000 + b[s + 3] as u64
        * 0x100_0000 + b[s + 4] as u64 * 0x1_0000_0000 + b[s + 5] as u64 * 0x100_0000_0000
        + b[s + 6] as u64 * 0x1_0000_0000_0000 + b[s + 7] as u64 * 0x100_0000_0000_0000
}

impl AccountId {
    /// The account with the given address bytes.
    pub fn new(bytes: [u8; 32]) -> (r: AccountId)
        ensures
            r.w0 as nat == word_of(bytes@, 0),
            r.w1 as nat == word_of(bytes@, 8),
            r.w2 as nat == word_of(bytes@, 16),
            r.w3 as nat == word_of(bytes@, 24),
    {
        AccountId {
            w0: pack_word(&bytes, 0),
            w1: pack_word(&bytes, 8),
            w2: pack_word(&bytes, 16),
            w3: pack_word(&bytes, 24),
        }
    }

    /// The all-zero address.
    pub fn zero() -> (r: AccountId)
        ensures
            r.is_zero_spec(),
    {
        AccountId { w0: 0, w1: 0, w2: 0, w3: 0 }
    }

    pub open spec fn is_zero_spec(&self) -> bool {
        self.w0 == 0 && self.w1 == 0 && self.w2 == 0 && self.w3 == 0
    }

    /// Whether this is the all-zero address.
    pub fn is_zero(&self) -> (r: bool)
        ensures
            r == self.is_zero_spec(),
    {
        self.w0 == 0 && self.w1 == 0 && self.w2 == 0 && self.w3 == 0
    }
}

} // verus!

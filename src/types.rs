//! Plain Ethereum values handled by the façade.
use vstd::prelude::*;

verus! {

/// A 20-byte account or contract address.
#[derive(Clone, Copy, Debug, PartialEq, Eq, Hash)]
pub struct Address {
    pub bytes: [u8; 20],
}

impl View for Address {
    type V = Seq<u8>;

    open spec fn view(&self) -> Seq<u8> {
        self.bytes@
    }
}

impl Address {
    /// Byte-wise equality of two addresses.
    pub fn same_as(&self, other: &Address) -> (r: bool)
        ensures
            r == (self@ == other@),
    {
        let mut i: usize = 0;
        while i < 20
            invariant
                i <= 20,
                self@.len() == 20,
                other@.len() == 20,
                forall|k: int| 0 <= k < i ==> self@[k] == other@[k],
            decreases 20 - i,
        {
            if self.bytes[i] != other.bytes[i] {
                assert(self@[i as int] != other@[i as int]);
                return false;
            }
            i = i + 1;
        }
        assert(self@ =~= other@);
        true
    }
}

/// A 32-byte block or transaction hash.
#[derive(Clone, Copy, Debug, PartialEq, Eq, Hash)]
pub struct H256 {
    pub bytes: [u8; 32],
}

impl View for H256 {
    type V = Seq<u8>;

    open spec fn view(&self) -> Seq<u8> {
        self.bytes@
    }
}

/// An 8-byte proof-of-work nonce.
#[derive(Clone, Copy, Debug, PartialEq, Eq, Hash)]
pub struct H64 {
    pub bytes: [u8; 8],
}

/// A 256-bit unsigned integer held as four 64-bit limbs, least significant first.
#[derive(Clone, Copy, Debug, PartialEq, Eq, Hash)]
pub struct U256 {
    pub limbs: [u64; 4],
}

/// The number that four little-endian 64-bit limbs stand for.
pub open spec fn limbs_value(l: Seq<u64>) -> nat {
    l[0] as nat + 0x1_0000_0000_0000_0000 * (l[1] as nat + 0x1_0000_0000_0000_0000 * (l[2] as nat
        + 0x1_0000_0000_0000_0000 * l[3] as nat))
}

impl U256 {
    pub open spec fn value(&self) -> nat {
        limbs_value(self.limbs@)
    }

    /// The number zero.
    pub fn zero() -> (r: U256)
        ensures
            r.value() == 0,
            r.limbs@ == seq![0u64, 0u64, 0u64, 0u64],
    {
        let r = U256 { limbs: [0u64, 0u64, 0u64, 0u64] };
        assert(r.limbs@ =~= seq![0u64, 0u64, 0u64, 0u64]);
        r
    }

    /// A 256-bit number with the value of a 64-bit one.
    pub fn from_u64(n: u64) -> (r: U256)
        ensures
            r.value() == n as nat,
            r.limbs@ == seq![n, 0u64, 0u64, 0u64],
    {
        let r = U256 { limbs: [n, 0u64, 0u64, 0u64] };
        assert(r.limbs@ =~= seq![n, 0u64, 0u64, 0u64]);
        r
    }
}

/// A block height or one of the symbolic positions in chain history.
#[derive(Clone, Copy, Debug, PartialEq, Eq, Hash)]
pub enum BlockNumberOrTag {
    Latest,
    Finalized,
    Safe,
    Earliest,
    Pending,
    Number(u64),
}

/// A reference to a block, by position or by hash.
#[derive(Clone, Copy, Debug, PartialEq, Eq, Hash)]
pub enum BlockId {
    Hash(H256),
    Number(BlockNumberOrTag),
}

} // verus!

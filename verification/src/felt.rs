//! Field elements and the identifiers built from them.

use vstd::prelude::*;
use crate::assoc::{TableKey, TableValue};

verus! {

/// An element of the Starknet field, held as two 128-bit limbs, the high one first.
#[derive(Clone, Copy, Debug, PartialEq, Eq, Structural, Hash)]
pub struct Felt {
    pub hi: u128,
    pub lo: u128,
}

/// The address of a deployed contract.
pub type ContractAddress = Felt;

/// The hash that identifies a declared class.
pub type ClassHash = Felt;

/// A slot in a contract's storage.
pub type StorageKey = Felt;

/// The selector of an entry point.
pub type Selector = Felt;

/// The number of transactions that a contract has sent.
pub type Nonce = Felt;

impl Felt {
    /// Builds an element from its two limbs.
    pub fn new(hi: u128, lo: u128) -> (r: Felt)
        ensures
            r == (Felt { hi, lo }),
    {
        Felt { hi, lo }
    }

    /// The element whose value is `value`.
    pub fn from_u128(value: u128) -> (r: Felt)
        ensures
            r == (Felt { hi: 0, lo: value }),
    {
        Felt { hi: 0, lo: value }
    }

    /// The zero element.
    pub fn zero() -> (r: Felt)
        ensures
            r == (Felt { hi: 0, lo: 0 }),
    {
        Felt { hi: 0, lo: 0 }
    }

    /// Whether the two limbs stand for a number below the modulus of the field,
    /// which is 2^251 + 17 * 2^192 + 1.
    pub open spec fn in_field(self) -> bool {
        self.hi < 0x0800_0000_0000_0011_0000_0000_0000_0000 || (self.hi
            == 0x0800_0000_0000_0011_0000_0000_0000_0000 && self.lo == 0)
    }

    /// Whether the two limbs stand for a number below the modulus of the field.
    pub fn is_in_field(&self) -> (r: bool)
        ensures
            r == self.in_field(),
    {
        self.hi < 0x0800_0000_0000_0011_0000_0000_0000_0000 || (self.hi
            == 0x0800_0000_0000_0011_0000_0000_0000_0000 && self.lo == 0)
    }

    /// The element that follows this one when counting up: the low limb carries into
    /// the high one, and the count starts again at zero after the last element that
    /// the two limbs can hold.
    pub open spec fn next(self) -> Felt {
        if self.lo < u128::MAX {
            Felt { hi: self.hi, lo: (self.lo + 1) as u128 }
        } else if self.hi < u128::MAX {
            Felt { hi: (self.hi + 1) as u128, lo: 0 }
        } else {
            Felt { hi: 0, lo: 0 }
        }
    }

    /// The element that follows this one when counting up.
    pub fn successor(self) -> (r: Felt)
        ensures
            r == self.next(),
    {
        if self.lo < u128::MAX {
            Felt { hi: self.hi, lo: self.lo + 1 }
        } else if self.hi < u128::MAX {
            Felt { hi: self.hi + 1, lo: 0 }
        } else {
            Felt { hi: 0, lo: 0 }
        }
    }
}

/// A copy of a list of field elements.
pub fn copy_felts(list: &Vec<Felt>) -> (r: Vec<Felt>)
    ensures
        r@ == list@,
{
    let mut copy: Vec<Felt> = Vec::new();
    let mut i: usize = 0;
    while i < list.len()
        invariant
            i <= list.len(),
            copy@ == list@.take(i as int),
        decreases list.len() - i,
    {
        copy.push(list[i]);
        i += 1;
    }
    copy
}

impl View for Felt {
    type V = Felt;

    open spec fn view(&self) -> Felt {
        *self
    }
}

impl TableKey for Felt {
    fn same(&self, other: &Self) -> (r: bool) {
        self.hi == other.hi && self.lo == other.lo
    }

    fn duplicate(&self) -> (r: Self) {
        *self
    }
}

impl TableValue for Felt {
    fn duplicate(&self) -> (r: Self) {
        *self
    }
}

} // verus!

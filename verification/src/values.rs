//! The values that an authorization carries but never looks into.

use vstd::prelude::*;

verus! {

/// The digest that identifies one record: 256 bits, as four 64-bit limbs
/// with the least significant limb first.
pub type Commitment = (u64, u64, u64, u64);

/// One authorized invocation, held as its owner's byte encoding.
#[derive(Debug, PartialEq, Eq)]
pub struct Request {
    pub bytes: Vec<u8>,
}

/// The proof that a commitment is part of the ledger's state, held as its
/// owner's byte encoding.
#[derive(Debug, PartialEq, Eq)]
pub struct StatePath {
    pub bytes: Vec<u8>,
}

impl View for Request {
    type V = Seq<u8>;

    open spec fn view(&self) -> Seq<u8> {
        self.bytes@
    }
}

impl View for StatePath {
    type V = Seq<u8>;

    open spec fn view(&self) -> Seq<u8> {
        self.bytes@
    }
}

impl Clone for Request {
    fn clone(&self) -> (copy: Self)
        ensures
            copy@ == self@,
    {
        Request { bytes: self.bytes.clone() }
    }
}

impl Clone for StatePath {
    fn clone(&self) -> (copy: Self)
        ensures
            copy@ == self@,
    {
        StatePath { bytes: self.bytes.clone() }
    }
}

} // verus!

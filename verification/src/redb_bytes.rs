//! The bytes that a redb read hands out.

use core::ops::Deref;
use vstd::prelude::*;

verus! {

/// Owned byte container returned by redb reads.
///
/// The bytes stay readable after the transaction and the table they came from are gone.
#[derive(Debug)]
pub struct RedbBytes(Vec<u8>);

impl View for RedbBytes {
    type V = Seq<u8>;

    closed spec fn view(&self) -> Seq<u8> {
        self.0@
    }
}

impl RedbBytes {
    /// Takes over the bytes that a read returned.
    pub fn new(bytes: Vec<u8>) -> (r: Self)
        ensures
            r@ == bytes@,
    {
        RedbBytes(bytes)
    }
}

impl Deref for RedbBytes {
    type Target = [u8];

    fn deref(&self) -> (r: &[u8])
        ensures
            r@ == self@,
    {
        self.0.as_slice()
    }
}

impl AsRef<[u8]> for RedbBytes {
    fn as_ref(&self) -> (r: &[u8])
        ensures
            r@ == self@,
    {
        self.deref()
    }
}

} // verus!

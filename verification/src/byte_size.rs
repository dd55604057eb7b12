//! A size counted in bytes.

use vstd::prelude::*;

verus! {

/// A number of bytes, such as the length of an encoded value.
#[derive(Clone, Copy, Debug, PartialEq, Eq, Structural)]
pub struct IggyByteSize(u64);

impl View for IggyByteSize {
    type V = nat;

    closed spec fn view(&self) -> nat {
        self.0 as nat
    }
}

impl IggyByteSize {
    /// The size of `bytes` bytes.
    pub fn new(bytes: u64) -> (size: IggyByteSize)
        ensures
            size@ == bytes,
    {
        IggyByteSize(bytes)
    }

    /// The size as a `u64`.
    pub fn as_bytes_u64(&self) -> (bytes: u64)
        ensures
            bytes == self@,
    {
        self.0
    }

    /// The size as a `usize`: exact wherever it fits the machine word, and
    /// cut down to the word's low bits where it does not.
    pub fn as_bytes_usize(&self) -> (bytes: usize)
        ensures
            bytes == self@ as usize,
            self@ <= usize::MAX ==> bytes == self@,
    {
        #[verifier::truncate]
        (self.0 as usize)
    }
}

} // verus!

use vstd::prelude::*;

verus! {

/// Everything that was read from standard input.
#[derive(Debug, Clone)]
pub struct StdinBytes {
    bytes: Vec<u8>,
}

impl View for StdinBytes {
    type V = Seq<u8>;

    closed spec fn view(&self) -> Seq<u8> {
        self.bytes@
    }
}

impl StdinBytes {
    /// The input as read, byte for byte.
    pub fn from_bytes(bytes: Vec<u8>) -> (r: Self)
        ensures
            r@ == bytes@,
    {
        Self { bytes }
    }

    pub fn into_bytes(self) -> (r: Vec<u8>)
        ensures
            r@ == self@,
    {
        self.bytes
    }

    /// Nothing was read: a usage error, told apart before any decoding.
    pub fn is_empty(&self) -> (r: bool)
        ensures
            r == (self@.len() == 0),
    {
        self.bytes.len() == 0
    }
}

} // verus!

//! The key/value codec contract: a type takes part as a key or a stored
//! value when it can be viewed as a borrowed byte sequence, and values
//! handed back by reads can additionally be built from one. Byte vectors
//! and UTF-8 strings are the baseline; user types opt in by implementing
//! the capability.

use vstd::prelude::*;
use vstd::slice::slice_to_vec;
use vstd::utf8::encode_utf8;

verus! {

/// A value that can be viewed as a borrowed byte sequence.
pub trait ToBytes {
    /// The bytes the value stands for.
    spec fn byte_view(&self) -> Seq<u8>;

    /// A borrow of exactly those bytes.
    fn to_byte_slice(&self) -> (r: &[u8])
        ensures
            r@ == self.byte_view(),
    ;
}

/// A value that reads can construct from a borrowed byte sequence.
pub trait FromBytes: ToBytes + Sized {
    /// Builds the value standing for exactly these bytes.
    fn from_byte_slice(b: &[u8]) -> (r: Self)
        ensures
            r.byte_view() == b@,
    ;
}

impl ToBytes for Vec<u8> {
    open spec fn byte_view(&self) -> Seq<u8> {
        self@
    }

    fn to_byte_slice(&self) -> (r: &[u8]) {
        self.as_slice()
    }
}

impl FromBytes for Vec<u8> {
    fn from_byte_slice(b: &[u8]) -> (r: Vec<u8>) {
        slice_to_vec(b)
    }
}

impl ToBytes for String {
    open spec fn byte_view(&self) -> Seq<u8> {
        encode_utf8(self@)
    }

    fn to_byte_slice(&self) -> (r: &[u8]) {
        self.as_str().as_bytes()
    }
}

} // verus!

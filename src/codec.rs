use vstd::prelude::*;

verus! {

/// The datagram codec of the discovery channel: each datagram holds one
/// length-delimited beacon, and a datagram that does not decode is skipped.
pub struct Codec;

impl Codec {
    pub fn new() -> (r: Codec) {
        Codec
    }
}

} // verus!

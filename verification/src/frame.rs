//! The reusable frame buffer: featureless filler of a fixed length.

use vstd::prelude::*;

verus! {

/// What a frame of `len` bytes, each of them `fill`, holds.
pub open spec fn uniform(len: nat, fill: u8) -> Seq<u8> {
    Seq::new(len, |i: int| fill)
}

/// Allocates a frame of `len` bytes, each of them `fill`. A producer makes
/// one before its loop and writes it over and over; a drain makes one to
/// read into.
pub fn frame_buffer(len: usize, fill: u8) -> (frame: Vec<u8>)
    ensures
        frame@ == uniform(len as nat, fill),
{
    let frame = vec![fill; len];
    assert(frame@ =~= uniform(len as nat, fill));
    frame
}

} // verus!

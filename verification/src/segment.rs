//! A piece of a firmware image.

use vstd::prelude::*;

verus! {

/// A run of bytes of a firmware image and the flash address at which it
/// belongs.
#[derive(Debug, PartialEq, Eq)]
pub struct RomSegment {
    pub addr: u32,
    pub data: Vec<u8>,
}

} // verus!

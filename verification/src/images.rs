use vstd::prelude::*;
use crate::errors::FormatTag;

verus! {

/// A decoded input image: dimensions, raw RGBA pixel bytes in row-major
/// order, and the codec the file was encoded with. Decoding itself happens
/// outside the library; values of this type hand its result in.
pub struct DecodedImage {
    pub width: u32,
    pub height: u32,
    pub data: Vec<u8>,
    pub format: FormatTag,
}

impl DecodedImage {
    /// A well-formed image has a positive area and exactly 4 bytes (RGBA)
    /// per pixel.
    pub open spec fn wf(self) -> bool {
        &&& self.width > 0
        &&& self.height > 0
        &&& self.data@.len() == 4 * (self.width as nat) * (self.height as nat)
    }

    pub open spec fn dim(self) -> (u32, u32) {
        (self.width, self.height)
    }

    pub open spec fn pixel_count(self) -> nat {
        (self.width as nat) * (self.height as nat)
    }
}

} // verus!

use vstd::prelude::*;
use crate::errors::ImageDataErrors;

verus! {

/// The fixed ceiling, in bytes, on the pixel data the output buffer will
/// accept: room for a 956 x 956 image at 4 bytes per pixel.
pub const BUFFER_CAPACITY: usize = 3655744;

/// The result image: dimensions, a destination name, and a byte buffer
/// bounded by a fixed capacity ceiling.
pub struct FloatingImage {
    pub width: u32,
    pub height: u32,
    pub data: Vec<u8>,
    pub name: String,
    pub capacity: usize,
}

impl FloatingImage {
    /// Every populated buffer stays within the declared capacity.
    pub open spec fn wf(self) -> bool {
        self.data@.len() <= self.capacity
    }

    /// Creates an output image with an empty data buffer and the fixed
    /// capacity ceiling.
    pub fn new(width: u32, height: u32, name: String) -> (r: FloatingImage)
        ensures
            r.width == width,
            r.height == height,
            r.name@ == name@,
            r.data@.len() == 0,
            r.capacity == BUFFER_CAPACITY,
            r.wf(),
    {
        let buffer: Vec<u8> = Vec::with_capacity(BUFFER_CAPACITY);
        FloatingImage { width, height, data: buffer, name, capacity: BUFFER_CAPACITY }
    }

    /// Replaces the buffer contents with `data`, or rejects it whole with a
    /// capacity-exceeded error when it is larger than the declared capacity;
    /// there are no partial writes.
    pub fn set_data(&mut self, data: Vec<u8>) -> (r: Result<(), ImageDataErrors>)
        requires
            old(self).wf(),
        ensures
            final(self).wf(),
            data@.len() > old(self).capacity ==> r == Err::<(), ImageDataErrors>(
                ImageDataErrors::CapacityExceeded,
            ) && *final(self) == *old(self),
            data@.len() <= old(self).capacity ==> {
                &&& r == Ok::<(), ImageDataErrors>(())
                &&& final(self).data@ == data@
                &&& final(self).width == old(self).width
                &&& final(self).height == old(self).height
                &&& final(self).name == old(self).name
                &&& final(self).capacity == old(self).capacity
            },
    {
        if data.len() > self.capacity {
            return Err(ImageDataErrors::CapacityExceeded);
        }
        self.data = data;
        Ok(())
    }
}

} // verus!

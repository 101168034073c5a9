//! The mutable, capacity-bounded output image buffer.

use vstd::prelude::*;

use crate::errors::ImageDataErrors;

verus! {

/// An owned output image. `capacity` is fixed at construction to
/// `width * height * 4` bytes; the bytes actually stored in `data` never
/// exceed it. `name` is the file name the finished image will be saved
/// under.
pub struct FloatingImage {
    pub width: u32,
    pub height: u32,
    pub capacity: usize,
    pub data: Vec<u8>,
    pub name: String,
}

impl FloatingImage {
    /// The buffer invariant: the declared capacity matches the dimensions
    /// and the stored bytes stay within it.
    pub open spec fn wf(self) -> bool {
        &&& self.capacity == self.width * self.height * 4
        &&& self.data@.len() <= self.capacity
    }

    /// Allocates an empty buffer for a `width` by `height` RGBA image.
    ///
    /// The capacity is computed in `u32`, so the byte count must fit in
    /// one; callers get that from the reconciled grids, which carry the
    /// same bound.
    pub fn new(width: u32, height: u32, name: String) -> (r: FloatingImage)
        requires
            width * height * 4 <= u32::MAX,
        ensures
            r.width == width,
            r.height == height,
            r.capacity == width * height * 4,
            r.data@.len() == 0,
            r.name == name,
            r.wf(),
    {
        proof {
            assert((height as int) * (width as int) * 4 == (width as int) * (height as int) * 4)
                by (nonlinear_arith);
        }
        let buffer_capacity: u32 = height * width * 4;
        let buffer: Vec<u8> = Vec::with_capacity(buffer_capacity as usize);
        FloatingImage { width, height, capacity: buffer_capacity as usize, data: buffer, name }
    }

    /// Installs the final byte sequence.
    ///
    /// Fails with `BufferToSmall` exactly when `data` holds more bytes
    /// than the declared capacity; anything shorter or equal is accepted
    /// as it is, under-filled buffers included — the guard exists to stop
    /// an overfull write, not a short one.
    pub fn set_data(&mut self, data: Vec<u8>) -> (r: Result<(), ImageDataErrors>)
        ensures
            r is Ok <==> data@.len() <= old(self).capacity,
            r is Ok ==> final(self).data == data && final(self).width == old(self).width
                && final(self).height == old(self).height
                && final(self).capacity == old(self).capacity
                && final(self).name == old(self).name,
            r is Err ==> *final(self) == *old(self) && (r matches Err(e) && e is BufferToSmall),
    {
        if data.len() > self.capacity {
            return Err(ImageDataErrors::BufferToSmall);
        }
        self.data = data;
        Ok(())
    }
}

} // verus!

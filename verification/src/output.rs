//! The output image: a named buffer with a capacity fixed at construction.

use vstd::prelude::*;
use crate::errors::ImageDataErrors;

verus! {

/// Capacity, in bytes, that every output buffer is created with. It does not
/// depend on the size of the image that will be stored.
pub const BUFFER_CAPACITY: usize = 9_000_000;

/// An output image under construction.
pub struct FloatingImage {
    width: u32,
    height: u32,
    data: Vec<u8>,
    name: String,
    capacity: usize,
}

/// What a `FloatingImage` holds, as mathematical values.
pub struct FloatingImageView {
    pub width: u32,
    pub height: u32,
    pub data: Seq<u8>,
    pub name: Seq<char>,
    pub capacity: nat,
}

impl FloatingImageView {
    /// The stored bytes never outgrow the declared capacity.
    pub open spec fn within_capacity(self) -> bool {
        self.data.len() <= self.capacity
    }
}

impl View for FloatingImage {
    type V = FloatingImageView;

    closed spec fn view(&self) -> FloatingImageView {
        FloatingImageView {
            width: self.width,
            height: self.height,
            data: self.data@,
            name: self.name@,
            capacity: self.capacity as nat,
        }
    }
}

impl FloatingImage {
    #[verifier::type_invariant]
    spec fn fits(self) -> bool {
        self.data.len() <= self.capacity
    }

    /// An empty output image of the given size and name, with the fixed
    /// capacity of `BUFFER_CAPACITY` bytes.
    pub fn new(width: u32, height: u32, name: String) -> (image: FloatingImage)
        ensures
            image@ == (FloatingImageView {
                width,
                height,
                data: Seq::empty(),
                name: name@,
                capacity: BUFFER_CAPACITY as nat,
            }),
    {
        let buffer_capacity: usize = BUFFER_CAPACITY;
        let buffer: Vec<u8> = Vec::with_capacity(buffer_capacity);
        FloatingImage { width, height, data: buffer, name, capacity: buffer_capacity }
    }

    /// The image's width in pixels.
    pub fn width(&self) -> (width: u32)
        ensures
            width == self@.width,
    {
        self.width
    }

    /// The image's height in pixels.
    pub fn height(&self) -> (height: u32)
        ensures
            height == self@.height,
    {
        self.height
    }

    /// The name that the image is to be written under.
    pub fn name(&self) -> (name: &String)
        ensures
            name@ == self@.name,
    {
        &self.name
    }

    /// The bytes stored so far; never more than the capacity.
    pub fn data(&self) -> (data: &Vec<u8>)
        ensures
            data@ == self@.data,
            self@.within_capacity(),
    {
        proof {
            use_type_invariant(self);
        }
        &self.data
    }

    /// The most bytes that the image accepts.
    pub fn capacity(&self) -> (capacity: usize)
        ensures
            capacity == self@.capacity,
    {
        self.capacity
    }

    /// Stores `data` as the image's bytes, whole or not at all.
    ///
    /// Data longer than the capacity is refused with `BufferTooSmall` and the
    /// image stays exactly as it was; the buffer is never grown. Any other data
    /// replaces the stored bytes, and nothing else changes.
    pub fn set_data(&mut self, data: Vec<u8>) -> (result: Result<(), ImageDataErrors>)
        ensures
            data.len() > old(self)@.capacity ==> result == Err::<(), ImageDataErrors>(
                ImageDataErrors::BufferTooSmall,
            ) && *final(self) == *old(self),
            data.len() <= old(self)@.capacity ==> result == Ok::<(), ImageDataErrors>(())
                && final(self)@ == (FloatingImageView { data: data@, ..old(self)@ }),
            final(self)@.within_capacity(),
    {
        if data.len() > self.capacity {
            proof {
                use_type_invariant(&*self);
            }
            return Err(ImageDataErrors::BufferTooSmall);
        }
        self.data = data;
        Ok(())
    }
}

} // verus!

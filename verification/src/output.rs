//! The image that is handed to the writer: its size, its name and the
//! combined pixel buffer.

use vstd::prelude::*;

verus! {

/// What can go wrong while two images are combined.
#[derive(Debug, Clone, Copy, PartialEq, Eq, Structural)]
pub enum ImageDataErrors {
    /// The two sources were decoded from different container formats.
    DifferentImageFormats,
    /// The buffer offered is longer than the capacity the output declared.
    BufferTooSmall,
}

/// The mathematical content of a [`FloatingImage`].
pub struct FloatingImageView {
    pub width: nat,
    pub height: nat,
    pub data: Seq<u8>,
    pub name: Seq<char>,
    /// `false` while only the capacity is reserved, `true` once a buffer
    /// has been assigned.
    pub committed: bool,
}

impl FloatingImageView {
    /// Declared capacity in bytes: four per pixel.
    pub open spec fn capacity(self) -> nat {
        self.width * self.height * 4
    }
}

/// An output image in one of two states. It starts out reserved: size and
/// name are fixed, the capacity is declared, and the buffer is empty.
/// `set_data` commits a buffer that fits the capacity.
pub struct FloatingImage {
    width: u32,
    height: u32,
    data: Vec<u8>,
    name: String,
    committed: bool,
}

impl View for FloatingImage {
    type V = FloatingImageView;

    closed spec fn view(&self) -> FloatingImageView {
        FloatingImageView {
            width: self.width as nat,
            height: self.height as nat,
            data: self.data@,
            name: self.name@,
            committed: self.committed,
        }
    }
}

impl FloatingImage {
    /// The buffer never outgrows the declared capacity, and stays empty
    /// until one is committed.
    #[verifier::type_invariant]
    spec fn well_formed(self) -> bool {
        &&& self.data@.len() <= (self.width as nat) * (self.height as nat) * 4
        &&& !self.committed ==> self.data@.len() == 0
    }

    /// Reserves an output of the given size under the given name. No
    /// buffer is assigned yet.
    pub fn new(width: u32, height: u32, name: String) -> (image: FloatingImage)
        ensures
            image@ == (FloatingImageView {
                width: width as nat,
                height: height as nat,
                data: Seq::<u8>::empty(),
                name: name@,
                committed: false,
            }),
    {
        FloatingImage { width, height, data: Vec::new(), name, committed: false }
    }

    /// The declared capacity in bytes, `width * height * 4`. It is held in
    /// 128 bits, which no two 32-bit sides can overflow.
    pub fn capacity(&self) -> (bytes: u128)
        ensures
            bytes == self@.capacity(),
    {
        assert((self.width as nat) * (self.height as nat) <= 0xFFFF_FFFF * 0xFFFF_FFFF)
            by (nonlinear_arith)
            requires
                self.width <= 0xFFFF_FFFF,
                self.height <= 0xFFFF_FFFF,
        ;
        (self.width as u128) * (self.height as u128) * 4
    }

    /// Replaces the buffer with `data` if it fits the declared capacity,
    /// and otherwise leaves the image as it was.
    pub fn set_data(&mut self, data: Vec<u8>) -> (result: Result<(), ImageDataErrors>)
        ensures
            data@.len() <= old(self)@.capacity() ==> result == Ok::<(), ImageDataErrors>(())
                && final(self)@ == (FloatingImageView {
                data: data@,
                committed: true,
                ..old(self)@
            }),
            data@.len() > old(self)@.capacity() ==> result == Err::<(), ImageDataErrors>(
                ImageDataErrors::BufferTooSmall,
            ) && final(self)@ == old(self)@,
    {
        if (data.len() as u128) > self.capacity() {
            return Err(ImageDataErrors::BufferTooSmall);
        }
        proof {
            use_type_invariant(&*self);
        }
        self.committed = true;
        self.data = data;
        Ok(())
    }

    /// Width in pixels.
    pub fn width(&self) -> (width: u32)
        ensures
            width == self@.width,
    {
        self.width
    }

    /// Height in pixels.
    pub fn height(&self) -> (height: u32)
        ensures
            height == self@.height,
    {
        self.height
    }

    /// The buffer: empty while reserved, the committed bytes afterwards.
    /// It never exceeds the declared capacity.
    pub fn data(&self) -> (data: &Vec<u8>)
        ensures
            data@ == self@.data,
            data@.len() <= self@.capacity(),
    {
        proof {
            use_type_invariant(self);
        }
        &self.data
    }

    /// The name under which the image is to be stored.
    pub fn name(&self) -> (name: &String)
        ensures
            name@ == self@.name,
    {
        &self.name
    }

    /// Whether a buffer has been committed. Until then the buffer is empty.
    pub fn is_committed(&self) -> (committed: bool)
        ensures
            committed == self@.committed,
            !committed ==> self@.data.len() == 0,
    {
        proof {
            use_type_invariant(self);
        }
        self.committed
    }
}

} // verus!

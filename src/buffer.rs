use vstd::prelude::*;

use crate::error::OverlayError;

verus! {

/// The mathematical value of an image: its size and its bytes, row by row,
/// four channels (R, G, B, A) per pixel.
pub ghost struct ImageView {
    pub width: nat,
    pub height: nat,
    pub data: Seq<u8>,
}

/// The byte length of a `width` by `height` RGBA image.
pub open spec fn rgba_len(width: nat, height: nat) -> nat {
    width * height * 4
}

/// An RGBA image with 8 bits per channel, stored row-major.
///
/// Its length is always `width * height * 4`.
#[derive(Debug)]
pub struct ImageBuffer {
    width: u32,
    height: u32,
    data: Vec<u8>,
}

impl View for ImageBuffer {
    type V = ImageView;

    closed spec fn view(&self) -> ImageView {
        ImageView { width: self.width as nat, height: self.height as nat, data: self.data@ }
    }
}

impl ImageBuffer {
    #[verifier::type_invariant]
    spec fn inv(&self) -> bool {
        self.data.len() == rgba_len(self.width as nat, self.height as nat)
    }

    /// An image from its size and raw RGBA bytes; rejected when the length
    /// is not `width * height * 4`.
    pub fn from_raw(width: u32, height: u32, data: Vec<u8>) -> (r: Result<ImageBuffer, OverlayError>)
        ensures
            (data@.len() == rgba_len(width as nat, height as nat)) <==> r is Ok,
            r is Ok ==> r->Ok_0@ == (ImageView { width: width as nat, height: height as nat, data: data@ }),
            r is Err ==> r->Err_0 == OverlayError::BufferLength,
    {
        let w = width as u128;
        let h = height as u128;
        proof {
            assert(w * h <= 0xffff_ffff * 0xffff_ffffu128) by (nonlinear_arith)
                requires
                    w <= 0xffff_ffff,
                    h <= 0xffff_ffff,
            ;
        }
        let expected: u128 = w * h * 4;
        if data.len() as u128 == expected {
            Ok(ImageBuffer { width, height, data })
        } else {
            Err(OverlayError::BufferLength)
        }
    }

    /// The width in pixels.
    pub fn width(&self) -> (r: u32)
        ensures
            r as nat == self@.width,
    {
        self.width
    }

    /// The height in pixels.
    pub fn height(&self) -> (r: u32)
        ensures
            r as nat == self@.height,
    {
        self.height
    }

    /// The raw RGBA bytes.
    pub fn as_bytes(&self) -> (r: &Vec<u8>)
        ensures
            r@ == self@.data,
            r@.len() == rgba_len(self@.width, self@.height),
    {
        proof {
            use_type_invariant(self);
        }
        &self.data
    }

    /// Gives up the raw RGBA bytes.
    pub fn into_bytes(self) -> (r: Vec<u8>)
        ensures
            r@ == self@.data,
    {
        self.data
    }
}

impl Clone for ImageBuffer {
    fn clone(&self) -> (r: ImageBuffer)
        ensures
            r@ == self@,
    {
        proof {
            use_type_invariant(self);
        }
        ImageBuffer { width: self.width, height: self.height, data: self.data.clone() }
    }
}

} // verus!

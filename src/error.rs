use vstd::prelude::*;

verus! {

/// Every failure the library reports, as a plain value.
#[derive(Clone, Copy, Debug, PartialEq, Eq, Structural)]
pub enum OverlayError {
    /// The image and the flag pattern differ in width or height.
    DimensionMismatch,
    /// A blend factor outside `[0, 1]`, or with a zero denominator.
    InvalidBlendFactor,
    /// A pixel buffer whose length is not `width * height * 4`.
    BufferLength,
    /// A computation is already in flight.
    Busy,
    /// The background unit of work could not be started.
    SpawnFailed,
    /// The background unit of work ended without a result.
    ComputationFailed,
    /// The bytes are not an image that the codec can read.
    DecodeFailed,
    /// The codec could not write the image as PNG.
    EncodeFailed,
}

impl OverlayError {
    /// A short human-readable description.
    pub fn message(&self) -> (r: String) {
        match self {
            OverlayError::DimensionMismatch => String::from_str("image and flag differ in size"),
            OverlayError::InvalidBlendFactor => String::from_str("blend factor outside [0, 1]"),
            OverlayError::BufferLength => String::from_str("pixel buffer has the wrong length"),
            OverlayError::Busy => String::from_str("a computation is already running"),
            OverlayError::SpawnFailed => String::from_str("could not start the computation"),
            OverlayError::ComputationFailed => String::from_str("the computation failed"),
            OverlayError::DecodeFailed => String::from_str("could not decode the image"),
            OverlayError::EncodeFailed => String::from_str("could not encode the image"),
        }
    }
}

} // verus!

//! Overlaying a striped flag pattern on an RGBA image.
//!
//! The library holds the pixel compositing (a per-channel linear blend with an
//! exact rational factor, computed in parallel chunks), the flag pattern
//! source, the PNG boundary, and the two-state coordinator that runs one
//! computation at a time off the interactive thread.

mod blend;
mod buffer;
mod codec;
mod coordinator;
mod error;
mod factor;
mod flags;

pub use blend::{
    blend, blend_bytes, blend_channel, blend_chunked, blend_in_chunks, lemma_factor_one_gives_flag,
    lemma_factor_zero_keeps_image, lemma_rechunking_agrees, PIXELS_PER_CHUNK,
};
pub use buffer::{rgba_len, ImageBuffer, ImageView};
pub use codec::{decode, decoded_rgba, encode_png, png_file};
pub use coordinator::{
    accepts_submission, after_poll, after_submit, lemma_busy_then_idle, outcome_view, request_outcome, run_request,
    BlendRequest, CoordView, Coordinator, RequestView,
};
pub use error::OverlayError;
pub use flags::{
    channel, flag_colors, flag_overlay, opaque, stripe_of_row, stripe_overlay, stripe_pattern,
    PrideFlag, Rgba,
};
pub use factor::{BlendFactor, Ratio};

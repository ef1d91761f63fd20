//! Combines two same-format images into one output image by interleaving
//! their pixel data in 4-byte (RGBA pixel unit) chunks, after reconciling
//! their dimensions down to the smaller pixel count.
//!
//! The library holds the verified pipeline core: dimension reconciliation,
//! pixel interleaving, and the capacity-bounded output buffer. Decoding and
//! encoding of image files happen outside it; resampling is delegated to
//! the image crate behind a trusted wrapper.

pub mod errors;
pub mod images;
pub mod interleave;
pub mod output;
pub mod pipeline;
pub mod reconcile;

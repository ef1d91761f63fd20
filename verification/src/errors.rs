use vstd::prelude::*;

verus! {

/// The failures the pipeline can report. Every failure is fatal and
/// deterministic for a given pair of inputs.
#[derive(Clone, Copy, Debug, PartialEq, Eq, Structural)]
pub enum ImageDataErrors {
    /// The two input images carry different codec format tags.
    DifferentImageFormats,
    /// The combined pixel data is larger than the output buffer's fixed ceiling.
    CapacityExceeded,
    /// Interleaving was attempted on buffers whose lengths are not 4-byte
    /// aligned or not equal; this indicates a reconciliation bug upstream.
    OutOfBounds,
}

/// The codec that an input file was encoded with. Both inputs must carry the
/// same tag, and the output is written back with that same codec.
#[derive(Clone, Copy, Debug, PartialEq, Eq, Structural)]
pub enum FormatTag {
    Png,
    Jpeg,
    Gif,
    WebP,
    Bmp,
    Ico,
    Tiff,
}

} // verus!

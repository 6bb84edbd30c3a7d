use vstd::prelude::*;

verus! {

/// Why a packaged executable could not be unpacked.
#[derive(Debug, Clone, Copy, PartialEq, Eq, Structural)]
pub enum UnpackError {
    /// The input is shorter than the trailer, or the trailer bytes are missing.
    TruncatedTrailer,
    /// The trailer does not start with the magic marker.
    InvalidMagic,
    /// The payload's end offset lies before its start offset.
    InvalidRange,
    /// The input ends before the payload does.
    TruncatedPayload,
    /// A big-endian field was not exactly eight bytes long.
    FieldLength,
}

} // verus!

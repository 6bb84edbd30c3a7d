use vstd::prelude::*;
use vstd::slice::slice_subrange;

use crate::bytes::{be_value, u64_from_bytes};
use crate::error::UnpackError;

verus! {

/// Length in bytes of the trailer at the end of a packaged executable.
pub const TRAILER_LEN: u64 = 24;

/// The marker that opens the trailer: the ASCII text `d3n0l4nd`.
pub open spec fn magic_marker() -> Seq<u8> {
    seq![0x64u8, 0x33u8, 0x6eu8, 0x30u8, 0x6cu8, 0x34u8, 0x6eu8, 0x64u8]
}

/// The two offsets that a trailer carries.
#[derive(Debug, Clone, Copy, PartialEq, Eq, Structural)]
pub struct Trailer {
    /// Where the payload starts, counted from the start of the file.
    pub bundle_offset: u64,
    /// Where the payload ends (the metadata section starts).
    pub metadata_offset: u64,
}

/// What reading the 24 bytes `t` as a trailer gives.
pub open spec fn trailer_of(t: Seq<u8>) -> Result<Trailer, UnpackError> {
    if t.len() != TRAILER_LEN {
        Err(UnpackError::TruncatedTrailer)
    } else if t.subrange(0, 8) != magic_marker() {
        Err(UnpackError::InvalidMagic)
    } else {
        Ok(
            Trailer {
                bundle_offset: be_value(t.subrange(8, 16)) as u64,
                metadata_offset: be_value(t.subrange(16, 24)) as u64,
            },
        )
    }
}

/// What reading the trailer at the end of the whole file `f` gives.
pub open spec fn file_trailer(f: Seq<u8>) -> Result<Trailer, UnpackError> {
    if f.len() < TRAILER_LEN {
        Err(UnpackError::TruncatedTrailer)
    } else {
        trailer_of(f.subrange(f.len() - TRAILER_LEN, f.len() as int))
    }
}

/// Whether the first eight bytes of `t` are the magic marker.
fn has_magic(t: &[u8]) -> (r: bool)
    requires
        t@.len() >= 8,
    ensures
        r == (t@.subrange(0, 8) == magic_marker()),
{
    let r = t[0] == 0x64 && t[1] == 0x33 && t[2] == 0x6e && t[3] == 0x30 && t[4] == 0x6c
        && t[5] == 0x34 && t[6] == 0x6e && t[7] == 0x64;
    proof {
        if r {
            assert(t@.subrange(0, 8) =~= magic_marker());
        } else if t@.subrange(0, 8) == magic_marker() {
            let m = t@.subrange(0, 8);
            assert(m[0] == 0x64 && m[1] == 0x33 && m[2] == 0x6e && m[3] == 0x30);
            assert(m[4] == 0x6c && m[5] == 0x34 && m[6] == 0x6e && m[7] == 0x64);
        }
    }
    r
}

/// Decodes the 24 trailer bytes: the magic marker, then the bundle offset
/// and the metadata offset as big-endian 64-bit numbers.
pub fn parse_trailer(trailer: &[u8]) -> (r: Result<Trailer, UnpackError>)
    ensures
        r == trailer_of(trailer@),
{
    if trailer.len() != 24 {
        return Err(UnpackError::TruncatedTrailer);
    }
    if !has_magic(trailer) {
        return Err(UnpackError::InvalidMagic);
    }
    let bundle = u64_from_bytes(slice_subrange(trailer, 8, 16));
    let metadata = u64_from_bytes(slice_subrange(trailer, 16, 24));
    match (bundle, metadata) {
        (Ok(bundle_offset), Ok(metadata_offset)) => Ok(Trailer { bundle_offset, metadata_offset }),
        _ => Err(UnpackError::FieldLength),
    }
}

/// Where the trailer starts in a file of `file_len` bytes.
pub fn trailer_offset(file_len: u64) -> (r: Result<u64, UnpackError>)
    ensures
        file_len < TRAILER_LEN ==> r == Err::<u64, UnpackError>(UnpackError::TruncatedTrailer),
        file_len >= TRAILER_LEN ==> r == Ok::<u64, UnpackError>((file_len - TRAILER_LEN) as u64),
{
    if file_len < TRAILER_LEN {
        Err(UnpackError::TruncatedTrailer)
    } else {
        Ok(file_len - TRAILER_LEN)
    }
}

/// Reads the trailer at the end of the whole file `file`.
pub fn read_trailer(file: &[u8]) -> (r: Result<Trailer, UnpackError>)
    ensures
        r == file_trailer(file@),
{
    let len = file.len();
    if len < 24 {
        return Err(UnpackError::TruncatedTrailer);
    }
    parse_trailer(slice_subrange(file, len - 24, len))
}

} // verus!

use vstd::prelude::*;
use vstd::slice::{slice_subrange, slice_to_vec};

use crate::error::UnpackError;
use crate::trailer::{file_trailer, read_trailer, Trailer};

verus! {

/// The payload `[bundle_offset, metadata_offset)` of the file `f`, or why it
/// cannot be had.
pub open spec fn payload_of(f: Seq<u8>, bundle_offset: u64, metadata_offset: u64) -> Result<
    Seq<u8>,
    UnpackError,
> {
    if metadata_offset < bundle_offset {
        Err(UnpackError::InvalidRange)
    } else if metadata_offset > f.len() {
        Err(UnpackError::TruncatedPayload)
    } else {
        Ok(f.subrange(bundle_offset as int, metadata_offset as int))
    }
}

/// What unpacking the whole file `f` gives: its trailer, then the payload
/// that the trailer points at.
pub open spec fn unpack_of(f: Seq<u8>) -> Result<Seq<u8>, UnpackError> {
    match file_trailer(f) {
        Err(e) => Err(e),
        Ok(t) => payload_of(f, t.bundle_offset, t.metadata_offset),
    }
}

/// The bytes that an unpacking result holds, or its error.
pub open spec fn result_bytes(r: Result<Vec<u8>, UnpackError>) -> Result<Seq<u8>, UnpackError> {
    match r {
        Ok(v) => Ok(v@),
        Err(e) => Err(e),
    }
}

/// The start and the length of the payload that `trailer` points at in a
/// file of `file_len` bytes.
pub fn payload_span(trailer: &Trailer, file_len: u64) -> (r: Result<(u64, u64), UnpackError>)
    ensures
        trailer.metadata_offset < trailer.bundle_offset ==> r == Err::<(u64, u64), UnpackError>(
            UnpackError::InvalidRange,
        ),
        trailer.bundle_offset <= trailer.metadata_offset && trailer.metadata_offset > file_len
            ==> r == Err::<(u64, u64), UnpackError>(UnpackError::TruncatedPayload),
        trailer.bundle_offset <= trailer.metadata_offset <= file_len ==> r == Ok::<
            (u64, u64),
            UnpackError,
        >((trailer.bundle_offset, (trailer.metadata_offset - trailer.bundle_offset) as u64)),
{
    if trailer.metadata_offset < trailer.bundle_offset {
        Err(UnpackError::InvalidRange)
    } else if trailer.metadata_offset > file_len {
        Err(UnpackError::TruncatedPayload)
    } else {
        Ok((trailer.bundle_offset, trailer.metadata_offset - trailer.bundle_offset))
    }
}

/// Copies the bytes `[bundle_offset, metadata_offset)` out of the whole file
/// `file`.
pub fn extract_payload(file: &[u8], bundle_offset: u64, metadata_offset: u64) -> (r: Result<
    Vec<u8>,
    UnpackError,
>)
    ensures
        result_bytes(r) == payload_of(file@, bundle_offset, metadata_offset),
{
    if metadata_offset < bundle_offset {
        return Err(UnpackError::InvalidRange);
    }
    if metadata_offset > file.len() as u64 {
        return Err(UnpackError::TruncatedPayload);
    }
    let payload = slice_subrange(file, bundle_offset as usize, metadata_offset as usize);
    Ok(slice_to_vec(payload))
}

/// Unpacks the whole file `file`: reads its trailer and copies out the
/// payload that the trailer points at.
pub fn unpack_bytes(file: &[u8]) -> (r: Result<Vec<u8>, UnpackError>)
    ensures
        result_bytes(r) == unpack_of(file@),
{
    let trailer = read_trailer(file)?;
    extract_payload(file, trailer.bundle_offset, trailer.metadata_offset)
}

} // verus!

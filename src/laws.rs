use vstd::prelude::*;

use crate::bytes::{be_bytes, lemma_be_round_trip, pow256};
use crate::error::UnpackError;
use crate::payload::{result_bytes, unpack_of};
use crate::trailer::{file_trailer, magic_marker, trailer_of, Trailer, TRAILER_LEN};

verus! {

/// The trailer bytes that point at `[bundle_offset, metadata_offset)`.
pub open spec fn trailer_bytes(bundle_offset: nat, metadata_offset: nat) -> Seq<u8> {
    magic_marker() + be_bytes(bundle_offset, 8) + be_bytes(metadata_offset, 8)
}

/// Any bytes `payload` placed after any bytes `prefix`, and followed by a
/// trailer that points at exactly them, unpack to `payload`.
pub proof fn lemma_round_trip(prefix: Seq<u8>, payload: Seq<u8>)
    requires
        prefix.len() + payload.len() <= u64::MAX,
    ensures
        unpack_of(prefix + payload + trailer_bytes(prefix.len(), prefix.len() + payload.len()))
            == Ok::<Seq<u8>, UnpackError>(payload),
{
    let start = prefix.len();
    let end = prefix.len() + payload.len();
    reveal_with_fuel(pow256, 9);
    assert(pow256(8) == 0x1_0000_0000_0000_0000);
    lemma_be_round_trip(start, 8);
    lemma_be_round_trip(end, 8);
    let t = trailer_bytes(start, end);
    let f = prefix + payload + t;
    assert(f.subrange(f.len() - TRAILER_LEN, f.len() as int) =~= t);
    assert(t.subrange(0, 8) =~= magic_marker());
    assert(t.subrange(8, 16) =~= be_bytes(start, 8));
    assert(t.subrange(16, 24) =~= be_bytes(end, 8));
    assert(f.subrange(start as int, end as int) =~= payload);
}

/// A trailer whose first eight bytes are not the magic marker is refused as
/// such, whatever its other sixteen bytes hold.
pub proof fn lemma_magic_rejection(t: Seq<u8>)
    requires
        t.len() == TRAILER_LEN,
        t.subrange(0, 8) != magic_marker(),
    ensures
        trailer_of(t) == Err::<Trailer, UnpackError>(UnpackError::InvalidMagic),
{
}

/// A file whose last 24 bytes do not start with the magic marker is refused
/// as no packaged executable.
pub proof fn lemma_file_magic_rejection(f: Seq<u8>)
    requires
        f.len() >= TRAILER_LEN,
        f.subrange(f.len() - TRAILER_LEN, f.len() - TRAILER_LEN + 8) != magic_marker(),
    ensures
        unpack_of(f) == Err::<Seq<u8>, UnpackError>(UnpackError::InvalidMagic),
{
    let t = f.subrange(f.len() - TRAILER_LEN, f.len() as int);
    assert(t.subrange(0, 8) =~= f.subrange(f.len() - TRAILER_LEN, f.len() - TRAILER_LEN + 8));
}

/// A file shorter than the trailer is refused as truncated.
pub proof fn lemma_short_file(f: Seq<u8>)
    requires
        f.len() < TRAILER_LEN,
    ensures
        unpack_of(f) == Err::<Seq<u8>, UnpackError>(UnpackError::TruncatedTrailer),
{
}

/// A well-ordered trailer that claims more payload bytes than the file holds
/// from the bundle offset on is refused as a truncated payload.
pub proof fn lemma_truncated_payload(f: Seq<u8>, t: Trailer)
    requires
        file_trailer(f) == Ok::<Trailer, UnpackError>(t),
        t.bundle_offset <= t.metadata_offset,
        t.metadata_offset - t.bundle_offset > f.len() - t.bundle_offset,
    ensures
        unpack_of(f) == Err::<Seq<u8>, UnpackError>(UnpackError::TruncatedPayload),
{
}

/// A trailer whose end offset lies before its start offset is refused as an
/// invalid range; no payload comes out of it.
pub proof fn lemma_invalid_range(f: Seq<u8>, t: Trailer)
    requires
        file_trailer(f) == Ok::<Trailer, UnpackError>(t),
        t.metadata_offset < t.bundle_offset,
    ensures
        unpack_of(f) == Err::<Seq<u8>, UnpackError>(UnpackError::InvalidRange),
{
}

/// Unpacking depends on the file's bytes alone: any two results that meet
/// the contract of `unpack_bytes` on the same bytes hold the same payload or
/// the same error.
pub proof fn lemma_unpack_deterministic(
    f: Seq<u8>,
    first: Result<Vec<u8>, UnpackError>,
    second: Result<Vec<u8>, UnpackError>,
)
    requires
        result_bytes(first) == unpack_of(f),
        result_bytes(second) == unpack_of(f),
    ensures
        result_bytes(first) == result_bytes(second),
{
}

} // verus!

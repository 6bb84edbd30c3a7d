use deno_unpacker::bytes::u64_from_bytes;
use deno_unpacker::error::UnpackError;
use deno_unpacker::output::source_file_name;
use deno_unpacker::payload::{extract_payload, payload_span, unpack_bytes};
use deno_unpacker::trailer::{parse_trailer, read_trailer, trailer_offset, Trailer, TRAILER_LEN};

const MAGIC: &[u8; 8] = b"d3n0l4nd";

fn trailer(magic: &[u8; 8], bundle: u64, metadata: u64) -> Vec<u8> {
    let mut t = magic.to_vec();
    t.extend_from_slice(&bundle.to_be_bytes());
    t.extend_from_slice(&metadata.to_be_bytes());
    t
}

fn packaged(prefix: &[u8], payload: &[u8]) -> Vec<u8> {
    let start = prefix.len() as u64;
    let end = start + payload.len() as u64;
    let mut f = prefix.to_vec();
    f.extend_from_slice(payload);
    f.extend_from_slice(&trailer(MAGIC, start, end));
    f
}

fn sample_prefix() -> Vec<u8> {
    (0..100u32).map(|i| (i * 7 + 3) as u8).collect()
}

fn sample_payload() -> Vec<u8> {
    (0..50u32).map(|i| (i * 13 + 1) as u8).collect()
}

#[test]
fn decodes_big_endian_numbers() {
    assert_eq!(u64_from_bytes(&[0, 0, 0, 0, 0, 0, 0, 1]), Ok(1));
    assert_eq!(u64_from_bytes(&[0, 0, 0, 0, 0, 0, 1, 0]), Ok(256));
    assert_eq!(
        u64_from_bytes(&[0x01, 0x02, 0x03, 0x04, 0x05, 0x06, 0x07, 0x08]),
        Ok(0x0102_0304_0506_0708)
    );
    assert_eq!(u64_from_bytes(&[0xff; 8]), Ok(u64::MAX));
    assert_eq!(u64_from_bytes(&[0; 8]), Ok(0));
}

#[test]
fn refuses_fields_of_other_lengths() {
    assert_eq!(u64_from_bytes(&[1, 2, 3]), Err(UnpackError::FieldLength));
    assert_eq!(u64_from_bytes(&[0; 9]), Err(UnpackError::FieldLength));
    assert_eq!(u64_from_bytes(&[]), Err(UnpackError::FieldLength));
}

#[test]
fn parses_a_trailer() {
    let t = trailer(MAGIC, 100, 150);
    assert_eq!(
        parse_trailer(&t),
        Ok(Trailer { bundle_offset: 100, metadata_offset: 150 })
    );
}

#[test]
fn parse_refuses_short_trailer() {
    let t = trailer(MAGIC, 100, 150);
    assert_eq!(parse_trailer(&t[..23]), Err(UnpackError::TruncatedTrailer));
}

#[test]
fn magic_rejection_ignores_offsets() {
    for offsets in [(0u64, 0u64), (100, 150), (u64::MAX, 1)] {
        let t = trailer(b"XXXXXXXX", offsets.0, offsets.1);
        assert_eq!(parse_trailer(&t), Err(UnpackError::InvalidMagic));
    }
}

#[test]
fn magic_rejection_on_one_flipped_bit() {
    for byte in 0..8 {
        for bit in 0..8 {
            let mut t = trailer(MAGIC, 100, 150);
            t[byte] ^= 1 << bit;
            assert_eq!(parse_trailer(&t), Err(UnpackError::InvalidMagic));
        }
    }
}

#[test]
fn trailer_offset_of_file_length() {
    assert_eq!(TRAILER_LEN, 24);
    assert_eq!(trailer_offset(24), Ok(0));
    assert_eq!(trailer_offset(174), Ok(150));
    assert_eq!(trailer_offset(23), Err(UnpackError::TruncatedTrailer));
    assert_eq!(trailer_offset(0), Err(UnpackError::TruncatedTrailer));
}

#[test]
fn reads_trailer_at_end_of_file() {
    let f = packaged(&sample_prefix(), &sample_payload());
    assert_eq!(
        read_trailer(&f),
        Ok(Trailer { bundle_offset: 100, metadata_offset: 150 })
    );
}

#[test]
fn payload_span_cases() {
    let t = Trailer { bundle_offset: 100, metadata_offset: 150 };
    assert_eq!(payload_span(&t, 174), Ok((100, 50)));
    assert_eq!(payload_span(&t, 150), Ok((100, 50)));
    assert_eq!(payload_span(&t, 149), Err(UnpackError::TruncatedPayload));
    let backwards = Trailer { bundle_offset: 150, metadata_offset: 100 };
    assert_eq!(payload_span(&backwards, 174), Err(UnpackError::InvalidRange));
}

#[test]
fn extracts_a_range() {
    let f: Vec<u8> = (0..10u8).collect();
    assert_eq!(extract_payload(&f, 2, 5), Ok(vec![2, 3, 4]));
    assert_eq!(extract_payload(&f, 4, 4), Ok(vec![]));
    assert_eq!(extract_payload(&f, 0, 10), Ok(f.clone()));
    assert_eq!(extract_payload(&f, 5, 11), Err(UnpackError::TruncatedPayload));
    assert_eq!(extract_payload(&f, 12, 20), Err(UnpackError::TruncatedPayload));
    assert_eq!(extract_payload(&f, 5, 2), Err(UnpackError::InvalidRange));
}

#[test]
fn concrete_scenario_extracts_payload() {
    let payload = sample_payload();
    let f = packaged(&sample_prefix(), &payload);
    assert_eq!(f.len(), 174);
    let out = unpack_bytes(&f).unwrap();
    assert_eq!(out.len(), 50);
    assert_eq!(out, payload);
}

#[test]
fn concrete_scenario_wrong_magic() {
    let mut f = sample_prefix();
    f.extend_from_slice(&sample_payload());
    f.extend_from_slice(&trailer(b"XXXXXXXX", 100, 150));
    assert_eq!(unpack_bytes(&f), Err(UnpackError::InvalidMagic));
}

#[test]
fn round_trip_various_payloads() {
    let payloads: Vec<Vec<u8>> = vec![
        vec![],
        vec![0],
        b"console.log('hello');".to_vec(),
        (0..=255u8).collect(),
    ];
    for prefix in [vec![], vec![0x7f, b'E', b'L', b'F'], sample_prefix()] {
        for p in &payloads {
            let f = packaged(&prefix, p);
            assert_eq!(unpack_bytes(&f), Ok(p.clone()));
        }
    }
}

#[test]
fn round_trip_payload_holding_magic() {
    let mut payload = MAGIC.to_vec();
    payload.extend_from_slice(&[9; 16]);
    let f = packaged(b"runtime", &payload);
    assert_eq!(unpack_bytes(&f), Ok(payload));
}

#[test]
fn short_files_are_truncated_trailers() {
    for len in 0..24usize {
        let f = vec![b'd'; len];
        assert_eq!(unpack_bytes(&f), Err(UnpackError::TruncatedTrailer));
        assert_eq!(read_trailer(&f), Err(UnpackError::TruncatedTrailer));
    }
}

#[test]
fn payload_past_end_is_truncated() {
    let mut f = sample_prefix();
    f.extend_from_slice(&trailer(MAGIC, 100, 125));
    assert_eq!(f.len(), 124);
    assert_eq!(unpack_bytes(&f), Err(UnpackError::TruncatedPayload));
    let mut g = sample_prefix();
    g.extend_from_slice(&trailer(MAGIC, 200, 210));
    assert_eq!(unpack_bytes(&g), Err(UnpackError::TruncatedPayload));
}

#[test]
fn payload_may_reach_into_trailer() {
    let mut f = sample_prefix();
    f.extend_from_slice(&trailer(MAGIC, 100, 124));
    let out = unpack_bytes(&f).unwrap();
    assert_eq!(out.len(), 24);
    assert_eq!(&out[..8], MAGIC);
}

#[test]
fn backwards_offsets_are_an_invalid_range() {
    let mut f = sample_prefix();
    f.extend_from_slice(&trailer(MAGIC, 150, 100));
    assert_eq!(unpack_bytes(&f), Err(UnpackError::InvalidRange));
    let mut g = sample_prefix();
    g.extend_from_slice(&trailer(MAGIC, u64::MAX, 0));
    assert_eq!(unpack_bytes(&g), Err(UnpackError::InvalidRange));
}

#[test]
fn unpacking_twice_gives_the_same_bytes() {
    let f = packaged(&sample_prefix(), &sample_payload());
    assert_eq!(unpack_bytes(&f), unpack_bytes(&f));
    let mut bad = f.clone();
    bad[150] = b'X';
    assert_eq!(unpack_bytes(&bad), unpack_bytes(&bad));
}

#[test]
fn output_file_name_gets_ts_suffix() {
    assert_eq!(source_file_name("source"), "source.ts");
    assert_eq!(source_file_name("out/dir/app"), "out/dir/app.ts");
    assert_eq!(source_file_name(""), ".ts");
}

use libfuzzer_simple_concolic::observer::ConcolicObserver;
use libfuzzer_simple_concolic::trace::{
    decode_length_prefixed, summarize_map, u64_from_le_slice, ConcolicMetadata, LENGTH_PREFIX_SIZE,
};

fn region(declared: u64, body: &[u8]) -> Vec<u8> {
    let mut map = declared.to_le_bytes().to_vec();
    map.extend_from_slice(body);
    map
}

#[test]
fn le_decoding_reads_little_endian() {
    let bytes = [0x01u8, 0x02, 0, 0, 0, 0, 0, 0];
    assert_eq!(u64_from_le_slice(&bytes, 0), 0x0201);
    let shifted = [0xffu8, 0x78, 0x56, 0x34, 0x12, 0, 0, 0, 0x80];
    assert_eq!(u64_from_le_slice(&shifted, 1), 0x8000_0000_1234_5678);
    assert_eq!(u64_from_le_slice(&[0xff; 8], 0), u64::MAX);
}

#[test]
fn decode_returns_declared_bytes() {
    let map = region(3, b"abcXYZ");
    assert_eq!(decode_length_prefixed(&map), Some(b"abc".to_vec()));
}

#[test]
fn decode_zero_length_is_empty() {
    let map = region(0, &[7, 7, 7]);
    assert_eq!(decode_length_prefixed(&map), Some(Vec::new()));
}

#[test]
fn decode_rejects_short_header() {
    assert_eq!(decode_length_prefixed(&[1, 0, 0, 0, 0]), None);
    assert_eq!(decode_length_prefixed(&[]), None);
}

#[test]
fn decode_rejects_overlong_length() {
    let map = region(4, b"abc");
    assert_eq!(decode_length_prefixed(&map), None);
    let exact = region(3, b"abc");
    assert_eq!(decode_length_prefixed(&exact), Some(b"abc".to_vec()));
}

#[test]
fn roundtrip_of_written_trace() {
    let trace: Vec<u8> = (0..200u32).map(|i| (i * 7 % 251) as u8).collect();
    let mut map = region(trace.len() as u64, &trace);
    map.extend_from_slice(&[0xAA; 100]);
    assert_eq!(decode_length_prefixed(&map), Some(trace));
    assert_eq!(LENGTH_PREFIX_SIZE, 8);
}

#[test]
fn observer_keeps_name_and_map() {
    let map = region(2, &[9, 8, 7]);
    let observer = ConcolicObserver::new("concolic", &map);
    assert_eq!(observer.name(), "concolic");
    assert_eq!(observer.map(), &map[..]);
}

#[test]
fn observer_creates_metadata_from_trace() {
    let map = region(2, &[9, 8, 7]);
    let observer = ConcolicObserver::new("concolic", &map);
    let metadata = observer.create_metadata_from_current_map();
    assert_eq!(metadata.buffer(), &[9, 8]);
    assert!(!metadata.is_empty());
}

#[test]
fn observer_empty_trace_gives_default_metadata() {
    let map = vec![0u8; 64];
    let observer = ConcolicObserver::new("concolic", &map);
    let metadata = observer.create_metadata_from_current_map();
    assert!(metadata.is_empty());
    assert_eq!(metadata.buffer(), ConcolicMetadata::default().buffer());
}

#[test]
fn metadata_from_buffer_keeps_bytes() {
    let metadata = ConcolicMetadata::from_buffer(vec![1, 2, 3]);
    assert_eq!(metadata.buffer(), &[1, 2, 3]);
}

#[test]
fn summary_counts_nonzero_and_takes_prefix() {
    let mut map = vec![0u8; 100];
    map[0] = 5;
    map[70] = 1;
    map[99] = 2;
    let summary = summarize_map(&map);
    assert_eq!(summary.total_size, 100);
    assert_eq!(summary.non_zero_bytes, 3);
    assert_eq!(summary.first_bytes, map[..64].to_vec());

    let small = [0u8, 3, 0];
    let summary = summarize_map(&small);
    assert_eq!(summary.total_size, 3);
    assert_eq!(summary.non_zero_bytes, 1);
    assert_eq!(summary.first_bytes, small.to_vec());
}

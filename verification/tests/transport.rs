use jade_client::transport::{chunk_bytes, chunked};
use jade_client::MAX_CHUNK_BYTES;

#[test]
fn chunk_size_is_clamped() {
    assert_eq!(MAX_CHUNK_BYTES, 509);
    assert_eq!(chunk_bytes(0), 1);
    assert_eq!(chunk_bytes(1), 1);
    assert_eq!(chunk_bytes(244), 244);
    assert_eq!(chunk_bytes(509), 509);
    assert_eq!(chunk_bytes(510), 509);
    assert_eq!(chunk_bytes(usize::MAX), 509);
}

#[test]
fn chunking_is_invisible_to_the_device() {
    let data: Vec<u8> = (0..1000u32).map(|n| (n % 251) as u8).collect();
    for size in [1, 2, 244, 509, 999, 1000, 1001] {
        let chunks = chunked(&data, size);
        assert_eq!(chunks.concat(), data);
        assert_eq!(chunks.len(), data.len().div_ceil(size));
        assert!(chunks.iter().all(|chunk| !chunk.is_empty() && chunk.len() <= size));
    }
    assert!(chunked(&[], 7).is_empty());
}

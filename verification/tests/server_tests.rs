use rust_printer::server::{listen_address, StreamTail};

#[test]
fn address() {
    assert_eq!(listen_address(6981), "127.0.0.1:6981");
    assert_eq!(listen_address(0), "127.0.0.1:0");
}

#[test]
fn end_marker_in_one_chunk() {
    let mut t = StreamTail::new();
    assert!(!t.push_chunk(b"\x1bE page data"));
    assert!(t.push_chunk(b"\x1b%-12345X"));
    assert_eq!(t.bytes_received, 12 + 9);
    assert_eq!(t.data, b"a\x1b%-12345X".to_vec());
}

#[test]
fn end_marker_split_over_chunks() {
    let mut t = StreamTail::new();
    assert!(!t.push_chunk(b"0123456789abcdef%-12"));
    assert_eq!(t.data, b"abcdef%-12".to_vec());
    assert!(!t.push_chunk(b"34"));
    assert!(!t.push_chunk(b""));
    assert!(t.push_chunk(b"5X"));
    assert_eq!(t.data, b"ef%-12345X".to_vec());
    assert_eq!(t.bytes_received, 24);
}

#[test]
fn marker_not_at_end() {
    let mut t = StreamTail::new();
    assert!(!t.push_chunk(b"%-12345X more"));
    assert!(!t.push_chunk(b"%-12345"));
    assert_eq!(t.data.len(), 10);
}

#[test]
fn tail_matches_whole_stream() {
    // The kept bytes are the last ten of everything received, whatever the chunking.
    let stream: Vec<u8> = (0u8..50).collect();
    for size in 1..12 {
        let mut t = StreamTail::new();
        for chunk in stream.chunks(size) {
            t.push_chunk(chunk);
        }
        assert_eq!(t.data, stream[40..].to_vec());
        assert_eq!(t.bytes_received, 50);
    }
}

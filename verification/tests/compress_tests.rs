use rust_printer::compress::{gzip_compress, gzip_decompress};
use std::io::Read;

#[test]
fn gzip_header_and_trailer() {
    let data = b"\x1b%-12345X@PJL\r\n\x1bE hello hello hello";
    let gz = gzip_compress(data).unwrap();
    assert_eq!(&gz[..10], &[0x1f, 0x8b, 8, 0, 0, 0, 0, 0, 0, 255]);
    let n = gz.len();
    assert_eq!(&gz[n - 4..], &(data.len() as u32).to_le_bytes());
    assert_ne!(gz, data.to_vec());
}

#[test]
fn gzip_round_trip() {
    let data: Vec<u8> = (0..5000u32).map(|i| (i % 251) as u8).collect();
    let gz = gzip_compress(&data).unwrap();
    let mut out = Vec::new();
    flate2::read::GzDecoder::new(&gz[..]).read_to_end(&mut out).unwrap();
    assert_eq!(out, data);
}

#[test]
fn gzip_empty() {
    let gz = gzip_compress(b"").unwrap();
    assert!(gz.len() >= 18);
    assert_eq!(&gz[gz.len() - 4..], &[0, 0, 0, 0]);
}

#[test]
fn library_round_trip() {
    let data = b"\x1b%-12345X@PJL ENTER LANGUAGE=PCL\r\n\x1bE\x1b&l26A";
    let gz = gzip_compress(data).unwrap();
    assert_eq!(gzip_decompress(&gz).unwrap(), data.to_vec());
    assert_eq!(gzip_decompress(&gzip_compress(b"").unwrap()).unwrap(), Vec::<u8>::new());
}

#[test]
fn decompress_refuses_garbage() {
    assert!(gzip_decompress(b"not gzip at all").is_err());
    let gz = gzip_compress(b"hello hello hello").unwrap();
    assert!(gzip_decompress(&gz[..gz.len() - 3]).is_err());
}

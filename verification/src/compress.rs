//! Compressing a print stream with gzip before it is uploaded.
use vstd::prelude::*;
use std::io::{Read, Write};

verus! {

#[verifier::external_type_specification]
#[verifier::external_body]
pub struct ExIoError(std::io::Error);

/// What `flate2`'s `GzEncoder` at the default compression level makes of
/// `data`: the gzip stream it writes, or `None` where its compressor
/// reports an error.
pub uninterp spec fn gzip_default(data: Seq<u8>) -> Option<Seq<u8>>;

/// What `flate2`'s `read::GzDecoder` reads out of `data`: the decompressed
/// bytes of its gzip stream, or `None` where reading fails (the stream is
/// not gzip, is cut short, or its checksum or length does not match).
pub uninterp spec fn gunzip(data: Seq<u8>) -> Option<Seq<u8>>;

/// The gzip header `GzEncoder` writes with no extra fields: magic bytes,
/// deflate method, no flags, no time stamp, default level, unknown system.
pub open spec fn gzip_header() -> Seq<u8> {
    seq![0x1fu8, 0x8bu8, 8u8, 0u8, 0u8, 0u8, 0u8, 0u8, 0u8, 255u8]
}

/// `GzEncoder::new(Vec::new(), Compression::default())`, `write_all(data)`,
/// `finish()`: the gzip stream of `data`, or the compressor's error. The
/// outcome is named `gzip_default(data)`; of the stream's content this
/// states only what the encoder's
/// source writes directly: the 10-byte header before the compressed data,
/// and the 8-byte trailer after it, whose last four bytes give the length
/// of `data` modulo 2^32, least significant byte first; and that the
/// decoder of the same crate reads `data` back out of the stream.
#[verifier::external_body]
fn gzip_encode(data: &[u8]) -> (r: Result<Vec<u8>, std::io::Error>)
    ensures
        match gzip_default(data@) {
            Some(g) => r matches Ok(v) && v@ == g,
            None => r is Err,
        },
        r matches Ok(v) ==> {
            &&& v@.len() >= 18
            &&& v@.take(10) == gzip_header()
            &&& v@[v@.len() - 4] as nat == data@.len() % 256
            &&& v@[v@.len() - 3] as nat == (data@.len() / 256) % 256
            &&& v@[v@.len() - 2] as nat == (data@.len() / 65536) % 256
            &&& v@[v@.len() - 1] as nat == (data@.len() / 16777216) % 256
            &&& gunzip(v@) == Some(data@)
        },
{
    let mut encoder = flate2::write::GzEncoder::new(Vec::new(), flate2::Compression::default());
    encoder.write_all(data)?;
    encoder.finish()
}

/// Compressing failed; the message of the underlying error.
#[derive(Debug, Clone, PartialEq)]
pub struct CompressError {
    pub message: String,
}

#[verifier::external_body]
fn io_error_message(e: &std::io::Error) -> String {
    e.to_string()
}

/// Compresses `data` in gzip format, at the default level: a stream that
/// starts with the gzip header, ends with the length of `data` modulo 2^32,
/// and from which `gzip_decompress` reads `data` back.
pub fn gzip_compress(data: &[u8]) -> (r: Result<Vec<u8>, CompressError>)
    ensures
        match gzip_default(data@) {
            Some(g) => r matches Ok(v) && v@ == g,
            None => r is Err,
        },
        r matches Ok(v) ==> {
            &&& v@.len() >= 18
            &&& v@.take(10) == gzip_header()
            &&& v@[v@.len() - 4] as nat == data@.len() % 256
            &&& v@[v@.len() - 3] as nat == (data@.len() / 256) % 256
            &&& v@[v@.len() - 2] as nat == (data@.len() / 65536) % 256
            &&& v@[v@.len() - 1] as nat == (data@.len() / 16777216) % 256
            &&& gunzip(v@) == Some(data@)
        },
{
    match gzip_encode(data) {
        Ok(v) => Ok(v),
        Err(e) => Err(CompressError { message: io_error_message(&e) }),
    }
}

/// `read::GzDecoder::new(data).read_to_end(..)`: the bytes decompressed
/// from the gzip stream `data`, or the decoder's error. The outcome is
/// named `gunzip(data)`.
#[verifier::external_body]
fn gzip_decode(data: &[u8]) -> (r: Result<Vec<u8>, std::io::Error>)
    ensures
        match gunzip(data@) {
            Some(d) => r matches Ok(v) && v@ == d,
            None => r is Err,
        },
{
    let mut out = Vec::new();
    flate2::read::GzDecoder::new(data).read_to_end(&mut out)?;
    Ok(out)
}

/// Decompresses the gzip stream `data`: succeeds exactly where the decoder
/// does, with what it reads. A stream made by `gzip_compress` gives back
/// the bytes it was made of.
pub fn gzip_decompress(data: &[u8]) -> (r: Result<Vec<u8>, CompressError>)
    ensures
        r is Ok <==> gunzip(data@) is Some,
        r matches Ok(v) ==> gunzip(data@) == Some(v@),
{
    match gzip_decode(data) {
        Ok(v) => Ok(v),
        Err(e) => Err(CompressError { message: io_error_message(&e) }),
    }
}

} // verus!

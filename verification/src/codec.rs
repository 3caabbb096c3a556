use vstd::prelude::*;

use std::io::Read;
use std::io::Write;

use crate::format::CompressionType;

verus! {

/// The buffer size the brotli reader and writer are built with.
pub const BROTLI_BUFFER_SIZE: usize = 4096;

/// The brotli quality parameter the encoder is built with.
pub const BROTLI_Q: u32 = 42;

/// The brotli window parameter the encoder is built with.
pub const BROTLI_LGWIN: u32 = 69;

/// The xz compression level the encoder is built with.
pub const XZ_LEVEL: u32 = 6;

/// The zstd compression level the encoder is built with.
pub const ZSTD_LEVEL: i32 = 6;

/// Why a transcode failed: the named format's decoder rejected the input
/// stream, or its encoder could not produce the output stream.
#[derive(Debug, Clone, Copy, PartialEq, Eq, Structural)]
pub enum TranscodeError {
    Decode(CompressionType),
    Encode(CompressionType),
}

/// The payload a brotli stream holds, if it is well formed.
pub uninterp spec fn brotli_decoded(s: Seq<u8>) -> Option<Seq<u8>>;

/// The payload a raw-deflate stream holds, if it is well formed.
pub uninterp spec fn deflate_decoded(s: Seq<u8>) -> Option<Seq<u8>>;

/// The payload a gzip stream holds, if it is well formed.
pub uninterp spec fn gzip_decoded(s: Seq<u8>) -> Option<Seq<u8>>;

/// The payload a legacy lzma stream holds, if it is well formed.
pub uninterp spec fn lzma_decoded(s: Seq<u8>) -> Option<Seq<u8>>;

/// The payload an xz stream holds, if it is well formed.
pub uninterp spec fn xz_decoded(s: Seq<u8>) -> Option<Seq<u8>>;

/// The payload a zlib stream holds, if it is well formed.
pub uninterp spec fn zlib_decoded(s: Seq<u8>) -> Option<Seq<u8>>;

/// The payload a zstd stream holds, if it is well formed.
pub uninterp spec fn zstd_decoded(s: Seq<u8>) -> Option<Seq<u8>>;

/// The payload a stream holds under each format; a `Plain` stream is its own
/// payload, and every other format can reject a malformed stream.
pub open spec fn decoded(t: CompressionType, s: Seq<u8>) -> Option<Seq<u8>> {
    match t {
        CompressionType::Plain => Some(s),
        CompressionType::Brotli => brotli_decoded(s),
        CompressionType::Deflate => deflate_decoded(s),
        CompressionType::Gzip => gzip_decoded(s),
        CompressionType::Lzma => lzma_decoded(s),
        CompressionType::Xz => xz_decoded(s),
        CompressionType::Zlib => zlib_decoded(s),
        CompressionType::Zstd => zstd_decoded(s),
    }
}

/// Relies on brotli::Decompressor: reading it to the end yields the payload
/// of a well-formed brotli stream and fails on a malformed one, a function of
/// the compressed bytes alone.
#[verifier::external_body]
pub(crate) fn brotli_decode(data: &[u8]) -> (r: Result<Vec<u8>, TranscodeError>)
    ensures
        r is Ok <==> brotli_decoded(data@) is Some,
        r is Ok ==> r->Ok_0@ == brotli_decoded(data@).unwrap(),
        r is Err ==> r->Err_0 == TranscodeError::Decode(CompressionType::Brotli),
{
    let mut decoder = brotli::Decompressor::new(data, BROTLI_BUFFER_SIZE);
    let mut out = Vec::new();
    match decoder.read_to_end(&mut out) {
        Ok(_) => Ok(out),
        Err(_) => Err(TranscodeError::Decode(CompressionType::Brotli)),
    }
}

/// Relies on brotli::CompressorWriter: dropping it after a full write ends
/// the stream, and brotli compression is lossless, so its own decoder
/// restores exactly the bytes written. Out-of-range quality and window
/// parameters are clamped, and the sink is a vector the call creates, so the
/// encoder has no failure path left and success is promised.
#[verifier::external_body]
pub(crate) fn brotli_encode(data: &[u8]) -> (r: Result<Vec<u8>, TranscodeError>)
    ensures
        r is Ok,
        brotli_decoded(r->Ok_0@) == Some(data@),
{
    let mut out = Vec::new();
    {
        let mut encoder =
            brotli::CompressorWriter::new(&mut out, BROTLI_BUFFER_SIZE, BROTLI_Q, BROTLI_LGWIN);
        if encoder.write_all(data).is_err() {
            return Err(TranscodeError::Encode(CompressionType::Brotli));
        }
    }
    Ok(out)
}

/// Relies on flate2::read::DeflateDecoder: reading it to the end yields the
/// payload of a well-formed raw-deflate stream and fails on a malformed one,
/// a function of the compressed bytes alone.
#[verifier::external_body]
pub(crate) fn deflate_decode(data: &[u8]) -> (r: Result<Vec<u8>, TranscodeError>)
    ensures
        r is Ok <==> deflate_decoded(data@) is Some,
        r is Ok ==> r->Ok_0@ == deflate_decoded(data@).unwrap(),
        r is Err ==> r->Err_0 == TranscodeError::Decode(CompressionType::Deflate),
{
    let mut decoder = flate2::read::DeflateDecoder::new(data);
    let mut out = Vec::new();
    match decoder.read_to_end(&mut out) {
        Ok(_) => Ok(out),
        Err(_) => Err(TranscodeError::Decode(CompressionType::Deflate)),
    }
}

/// Relies on flate2::write::DeflateEncoder at the default level: deflate is
/// lossless, so its own decoder restores exactly the bytes written. The
/// encoder's write and finish paths fail only on sink errors, and the sink is
/// a vector the call creates, so success is promised.
#[verifier::external_body]
pub(crate) fn deflate_encode(data: &[u8]) -> (r: Result<Vec<u8>, TranscodeError>)
    ensures
        r is Ok,
        deflate_decoded(r->Ok_0@) == Some(data@),
{
    let mut encoder =
        flate2::write::DeflateEncoder::new(Vec::new(), flate2::Compression::default());
    if encoder.write_all(data).is_err() {
        return Err(TranscodeError::Encode(CompressionType::Deflate));
    }
    encoder.finish().map_err(|_| TranscodeError::Encode(CompressionType::Deflate))
}

/// Relies on flate2::read::GzDecoder: reading it to the end yields the
/// payload of a well-formed gzip stream (bytes after the first complete
/// member are ignored) and fails on a malformed one, a function of the
/// compressed bytes alone.
#[verifier::external_body]
pub(crate) fn gzip_decode(data: &[u8]) -> (r: Result<Vec<u8>, TranscodeError>)
    ensures
        r is Ok <==> gzip_decoded(data@) is Some,
        r is Ok ==> r->Ok_0@ == gzip_decoded(data@).unwrap(),
        r is Err ==> r->Err_0 == TranscodeError::Decode(CompressionType::Gzip),
{
    let mut decoder = flate2::read::GzDecoder::new(data);
    let mut out = Vec::new();
    match decoder.read_to_end(&mut out) {
        Ok(_) => Ok(out),
        Err(_) => Err(TranscodeError::Decode(CompressionType::Gzip)),
    }
}

/// Relies on flate2::write::GzEncoder at the default level: gzip is lossless,
/// so its own decoder restores exactly the bytes written. The encoder's write
/// and finish paths fail only on sink errors, and the sink is a vector the
/// call creates, so success is promised.
#[verifier::external_body]
pub(crate) fn gzip_encode(data: &[u8]) -> (r: Result<Vec<u8>, TranscodeError>)
    ensures
        r is Ok,
        gzip_decoded(r->Ok_0@) == Some(data@),
{
    let mut encoder = flate2::write::GzEncoder::new(Vec::new(), flate2::Compression::default());
    if encoder.write_all(data).is_err() {
        return Err(TranscodeError::Encode(CompressionType::Gzip));
    }
    encoder.finish().map_err(|_| TranscodeError::Encode(CompressionType::Gzip))
}

/// Relies on lzma_rs::lzma_decompress: it writes the payload of a well-formed
/// legacy lzma stream and fails on a malformed one, a function of the
/// compressed bytes alone.
#[verifier::external_body]
pub(crate) fn lzma_decode(data: &[u8]) -> (r: Result<Vec<u8>, TranscodeError>)
    ensures
        r is Ok <==> lzma_decoded(data@) is Some,
        r is Ok ==> r->Ok_0@ == lzma_decoded(data@).unwrap(),
        r is Err ==> r->Err_0 == TranscodeError::Decode(CompressionType::Lzma),
{
    let mut input = data;
    let mut out = Vec::new();
    match lzma_rs::lzma_decompress(&mut input, &mut out) {
        Ok(()) => Ok(out),
        Err(_) => Err(TranscodeError::Decode(CompressionType::Lzma)),
    }
}

/// Relies on lzma_rs::lzma_compress: lzma is lossless, so its own decoder
/// restores exactly the bytes written. The compressor fails only on I/O
/// errors of its endpoints, and here both are in memory, so success is
/// promised.
#[verifier::external_body]
pub(crate) fn lzma_encode(data: &[u8]) -> (r: Result<Vec<u8>, TranscodeError>)
    ensures
        r is Ok,
        lzma_decoded(r->Ok_0@) == Some(data@),
{
    let mut input = data;
    let mut out = Vec::new();
    match lzma_rs::lzma_compress(&mut input, &mut out) {
        Ok(()) => Ok(out),
        Err(_) => Err(TranscodeError::Encode(CompressionType::Lzma)),
    }
}

/// Relies on xz2::read::XzDecoder: reading it to the end yields the payload
/// of a well-formed xz stream and fails on a malformed one, a function of the
/// compressed bytes alone.
#[verifier::external_body]
pub(crate) fn xz_decode(data: &[u8]) -> (r: Result<Vec<u8>, TranscodeError>)
    ensures
        r is Ok <==> xz_decoded(data@) is Some,
        r is Ok ==> r->Ok_0@ == xz_decoded(data@).unwrap(),
        r is Err ==> r->Err_0 == TranscodeError::Decode(CompressionType::Xz),
{
    let mut decoder = xz2::read::XzDecoder::new(data);
    let mut out = Vec::new();
    match decoder.read_to_end(&mut out) {
        Ok(_) => Ok(out),
        Err(_) => Err(TranscodeError::Decode(CompressionType::Xz)),
    }
}

/// Relies on xz2::write::XzEncoder: finishing it emits a complete xz stream,
/// and xz is lossless, so its own decoder restores exactly the bytes written.
/// With a valid preset and a vector sink the encoder's write and finish paths
/// have no failure left, so success is promised.
#[verifier::external_body]
pub(crate) fn xz_encode(data: &[u8]) -> (r: Result<Vec<u8>, TranscodeError>)
    ensures
        r is Ok,
        xz_decoded(r->Ok_0@) == Some(data@),
{
    let mut encoder = xz2::write::XzEncoder::new(Vec::new(), XZ_LEVEL);
    if encoder.write_all(data).is_err() {
        return Err(TranscodeError::Encode(CompressionType::Xz));
    }
    encoder.finish().map_err(|_| TranscodeError::Encode(CompressionType::Xz))
}

/// Relies on flate2::read::ZlibDecoder: reading it to the end yields the
/// payload of a well-formed zlib stream and fails on a malformed one, a
/// function of the compressed bytes alone.
#[verifier::external_body]
pub(crate) fn zlib_decode(data: &[u8]) -> (r: Result<Vec<u8>, TranscodeError>)
    ensures
        r is Ok <==> zlib_decoded(data@) is Some,
        r is Ok ==> r->Ok_0@ == zlib_decoded(data@).unwrap(),
        r is Err ==> r->Err_0 == TranscodeError::Decode(CompressionType::Zlib),
{
    let mut decoder = flate2::read::ZlibDecoder::new(data);
    let mut out = Vec::new();
    match decoder.read_to_end(&mut out) {
        Ok(_) => Ok(out),
        Err(_) => Err(TranscodeError::Decode(CompressionType::Zlib)),
    }
}

/// Relies on flate2::write::ZlibEncoder at the default level: zlib is
/// lossless, so its own decoder restores exactly the bytes written. The
/// encoder's write and finish paths fail only on sink errors, and the sink is
/// a vector the call creates, so success is promised.
#[verifier::external_body]
pub(crate) fn zlib_encode(data: &[u8]) -> (r: Result<Vec<u8>, TranscodeError>)
    ensures
        r is Ok,
        zlib_decoded(r->Ok_0@) == Some(data@),
{
    let mut encoder = flate2::write::ZlibEncoder::new(Vec::new(), flate2::Compression::default());
    if encoder.write_all(data).is_err() {
        return Err(TranscodeError::Encode(CompressionType::Zlib));
    }
    encoder.finish().map_err(|_| TranscodeError::Encode(CompressionType::Zlib))
}

/// Relies on zstd::stream::decode_all: it yields the payload of a well-formed
/// zstd frame and fails on a malformed one, a function of the compressed
/// bytes alone.
#[verifier::external_body]
pub(crate) fn zstd_decode(data: &[u8]) -> (r: Result<Vec<u8>, TranscodeError>)
    ensures
        r is Ok <==> zstd_decoded(data@) is Some,
        r is Ok ==> r->Ok_0@ == zstd_decoded(data@).unwrap(),
        r is Err ==> r->Err_0 == TranscodeError::Decode(CompressionType::Zstd),
{
    match zstd::stream::decode_all(data) {
        Ok(out) => Ok(out),
        Err(_) => Err(TranscodeError::Decode(CompressionType::Zstd)),
    }
}

/// Relies on zstd::stream::encode_all: its output is one complete zstd frame,
/// and zstd is lossless, so its own decoder restores exactly the bytes
/// written. With a valid level and an in-memory source and sink the call has
/// no failure path left, so success is promised.
#[verifier::external_body]
pub(crate) fn zstd_encode(data: &[u8]) -> (r: Result<Vec<u8>, TranscodeError>)
    ensures
        r is Ok,
        zstd_decoded(r->Ok_0@) == Some(data@),
{
    match zstd::stream::encode_all(data, ZSTD_LEVEL) {
        Ok(out) => Ok(out),
        Err(_) => Err(TranscodeError::Encode(CompressionType::Zstd)),
    }
}

/// Decode one whole stream under the given format. Exactly the well-formed
/// streams of that format decode; a malformed one reports which decoder
/// rejected it.
pub fn decompress(data: &Vec<u8>, format: CompressionType) -> (r: Result<
    Vec<u8>,
    TranscodeError,
>)
    ensures
        r is Ok <==> decoded(format, data@) is Some,
        r is Ok ==> r->Ok_0@ == decoded(format, data@).unwrap(),
        r is Err ==> r->Err_0 == TranscodeError::Decode(format),
{
    match format {
        CompressionType::Plain => {
            let copy = data.clone();
            proof {
                assert(copy@ =~= data@);
            }
            Ok(copy)
        },
        CompressionType::Brotli => brotli_decode(data.as_slice()),
        CompressionType::Deflate => deflate_decode(data.as_slice()),
        CompressionType::Gzip => gzip_decode(data.as_slice()),
        CompressionType::Lzma => lzma_decode(data.as_slice()),
        CompressionType::Xz => xz_decode(data.as_slice()),
        CompressionType::Zlib => zlib_decode(data.as_slice()),
        CompressionType::Zstd => zstd_decode(data.as_slice()),
    }
}

/// Encode one whole payload under the given format. Encoding into memory
/// always succeeds, and the format's own decoder restores the payload
/// exactly; encoding to `Plain` is the identity. The `Result` shape keeps
/// the design's encoding-error arm, which only a failing sink could reach.
pub fn compress(data: &Vec<u8>, format: CompressionType) -> (r: Result<Vec<u8>, TranscodeError>)
    ensures
        r is Ok,
        decoded(format, r->Ok_0@) == Some(data@),
{
    match format {
        CompressionType::Plain => {
            let copy = data.clone();
            proof {
                assert(copy@ =~= data@);
            }
            Ok(copy)
        },
        CompressionType::Brotli => brotli_encode(data.as_slice()),
        CompressionType::Deflate => deflate_encode(data.as_slice()),
        CompressionType::Gzip => gzip_encode(data.as_slice()),
        CompressionType::Lzma => lzma_encode(data.as_slice()),
        CompressionType::Xz => xz_encode(data.as_slice()),
        CompressionType::Zlib => zlib_encode(data.as_slice()),
        CompressionType::Zstd => zstd_encode(data.as_slice()),
    }
}

} // verus!

use std::io::Read;
use std::io::Write;

use recompress::CompressionType;
use recompress::Context;
use recompress::Flags;
use recompress::TranscodeError;

const FORMATS: [CompressionType; 7] = [
    CompressionType::Brotli,
    CompressionType::Deflate,
    CompressionType::Gzip,
    CompressionType::Lzma,
    CompressionType::Xz,
    CompressionType::Zlib,
    CompressionType::Zstd,
];

fn flags_with_output(output_type: Option<CompressionType>) -> Flags {
    Flags { quiet: true, hint: "unknown".to_string(), output_type }
}

/// Transcode `input`, read as `from`, into `to`.
fn translate(input: &Vec<u8>, from: CompressionType, to: CompressionType) -> Result<Vec<u8>, TranscodeError> {
    let ctx = Context::new_from_stream(from, &flags_with_output(Some(to)));
    ctx.translate_stream(input)
}

/// Compress `payload` with the outside crate itself, bypassing the library.
fn compress_directly(payload: &[u8], format: CompressionType) -> Vec<u8> {
    match format {
        CompressionType::Plain => payload.to_vec(),
        CompressionType::Brotli => {
            let mut out = Vec::new();
            let mut encoder = brotli::CompressorWriter::new(&mut out, 4096, 42, 69);
            encoder.write_all(payload).unwrap();
            drop(encoder);
            out
        }
        CompressionType::Deflate => {
            let mut encoder =
                flate2::write::DeflateEncoder::new(Vec::new(), flate2::Compression::default());
            encoder.write_all(payload).unwrap();
            encoder.finish().unwrap()
        }
        CompressionType::Gzip => {
            let mut encoder =
                flate2::write::GzEncoder::new(Vec::new(), flate2::Compression::default());
            encoder.write_all(payload).unwrap();
            encoder.finish().unwrap()
        }
        CompressionType::Lzma => {
            let mut input = payload;
            let mut out = Vec::new();
            lzma_rs::lzma_compress(&mut input, &mut out).unwrap();
            out
        }
        CompressionType::Xz => {
            let mut encoder = xz2::write::XzEncoder::new(Vec::new(), 6);
            encoder.write_all(payload).unwrap();
            encoder.finish().unwrap()
        }
        CompressionType::Zlib => {
            let mut encoder =
                flate2::write::ZlibEncoder::new(Vec::new(), flate2::Compression::default());
            encoder.write_all(payload).unwrap();
            encoder.finish().unwrap()
        }
        CompressionType::Zstd => zstd::stream::encode_all(payload, 6).unwrap(),
    }
}

/// Decompress `data` with the outside crate itself, bypassing the library.
fn decompress_directly(data: &[u8], format: CompressionType) -> Vec<u8> {
    let mut out = Vec::new();
    match format {
        CompressionType::Plain => out.extend_from_slice(data),
        CompressionType::Brotli => {
            brotli::Decompressor::new(data, 4096).read_to_end(&mut out).map(|_| ()).unwrap()
        }
        CompressionType::Deflate => {
            flate2::read::DeflateDecoder::new(data).read_to_end(&mut out).map(|_| ()).unwrap()
        }
        CompressionType::Gzip => {
            flate2::read::GzDecoder::new(data).read_to_end(&mut out).map(|_| ()).unwrap()
        }
        CompressionType::Lzma => {
            let mut input = data;
            lzma_rs::lzma_decompress(&mut input, &mut out).unwrap()
        }
        CompressionType::Xz => {
            xz2::read::XzDecoder::new(data).read_to_end(&mut out).map(|_| ()).unwrap()
        }
        CompressionType::Zlib => {
            flate2::read::ZlibDecoder::new(data).read_to_end(&mut out).map(|_| ()).unwrap()
        }
        CompressionType::Zstd => out = zstd::stream::decode_all(data).unwrap(),
    }
    out
}

fn sample_payload() -> Vec<u8> {
    let mut payload = Vec::new();
    for i in 0..2000u32 {
        payload.push((i % 251) as u8);
        payload.push((i / 7) as u8);
    }
    payload.extend_from_slice(b"a compressed stream carries its payload unchanged");
    payload
}

#[test]
fn decode_only_round_trip_restores_payload() {
    let payload = sample_payload();
    for format in FORMATS {
        let compressed = compress_directly(&payload, format);
        let output = translate(&compressed, format, CompressionType::Plain).unwrap();
        assert_eq!(payload, output);
    }
}

#[test]
fn encode_only_round_trip_restores_payload() {
    let payload = sample_payload();
    for format in FORMATS {
        let output = translate(&payload, CompressionType::Plain, format).unwrap();
        assert_ne!(payload, output);
        assert_eq!(payload, decompress_directly(&output, format));
    }
}

#[test]
fn full_pipeline_preserves_payload_across_format_pairs() {
    let payload = sample_payload();
    for f1 in FORMATS {
        for f2 in FORMATS {
            let input = compress_directly(&payload, f1);
            let mid = translate(&input, f1, f2).unwrap();
            let output = translate(&mid, f2, CompressionType::Plain).unwrap();
            assert_eq!(payload, output);
        }
    }
}

#[test]
fn empty_payload_transcodes_to_well_formed_streams() {
    let empty: Vec<u8> = Vec::new();
    for format in FORMATS {
        let output = translate(&empty, CompressionType::Plain, format).unwrap();
        assert!(!output.is_empty());
        assert_eq!(decompress_directly(&output, format), empty);
        let back = translate(&output, format, CompressionType::Plain).unwrap();
        assert_eq!(back, empty);
    }
    let output = translate(&empty, CompressionType::Plain, CompressionType::Plain).unwrap();
    assert_eq!(output, empty);
}

#[test]
fn malformed_gzip_input_fails_instead_of_truncating() {
    let payload = sample_payload();
    let mut corrupted = compress_directly(&payload, CompressionType::Gzip);
    // Flip a bit inside the gzip trailer so the checksum no longer matches.
    let last = corrupted.len() - 4;
    corrupted[last] ^= 0xff;
    let result = translate(&corrupted, CompressionType::Gzip, CompressionType::Plain);
    assert_eq!(result, Err(TranscodeError::Decode(CompressionType::Gzip)));
}

#[test]
fn truncated_zstd_input_fails() {
    let payload = sample_payload();
    let mut truncated = compress_directly(&payload, CompressionType::Zstd);
    truncated.truncate(truncated.len() / 2);
    let result = translate(&truncated, CompressionType::Zstd, CompressionType::Plain);
    assert_eq!(result, Err(TranscodeError::Decode(CompressionType::Zstd)));
}

#[test]
fn garbage_input_reports_the_rejecting_decoder() {
    let garbage: Vec<u8> = vec![0x00, 0x01, 0x02, 0x03, 0x04, 0x05, 0x06, 0x07];
    for format in [
        CompressionType::Gzip,
        CompressionType::Xz,
        CompressionType::Zstd,
    ] {
        let result = translate(&garbage, format, CompressionType::Gzip);
        assert_eq!(result, Err(TranscodeError::Decode(format)));
    }
}

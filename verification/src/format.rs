use vstd::prelude::*;

verus! {

/// How many leading bytes the sniffer may consume from a stream: the longest
/// supported signature is six bytes, and detection never looks further.
pub const SNIFF_LEN: usize = 6;

/// The closed set of stream representations the pipeline understands.
/// `Plain` means the bytes pass through unchanged. `Lzma` is the one format
/// the sniffer never detects: it is decoded and encoded whole-buffer, and
/// only when a caller names it explicitly.
#[derive(Debug, Clone, Copy, PartialEq, Eq, Structural)]
pub enum CompressionType {
    Plain,
    Brotli,
    Deflate,
    Gzip,
    Lzma,
    Xz,
    Zlib,
    Zstd,
}

/// The lower-case name of each format, as the hint strings spell it.
pub open spec fn name_of(t: CompressionType) -> Seq<char> {
    match t {
        CompressionType::Plain => "none"@,
        CompressionType::Brotli => "brotli"@,
        CompressionType::Deflate => "deflate"@,
        CompressionType::Gzip => "gzip"@,
        CompressionType::Lzma => "lzma"@,
        CompressionType::Xz => "xz"@,
        CompressionType::Zlib => "zlib"@,
        CompressionType::Zstd => "zstd"@,
    }
}

impl CompressionType {
    /// The format's lower-case name, for diagnostics.
    pub fn name(&self) -> (r: &'static str)
        ensures
            r@ == name_of(*self),
    {
        match self {
            CompressionType::Plain => "none",
            CompressionType::Brotli => "brotli",
            CompressionType::Deflate => "deflate",
            CompressionType::Gzip => "gzip",
            CompressionType::Lzma => "lzma",
            CompressionType::Xz => "xz",
            CompressionType::Zlib => "zlib",
            CompressionType::Zstd => "zstd",
        }
    }
}

/// The configuration a run is given at the entry boundary, immutable
/// thereafter. The hint is consulted only when no signature matches, and it
/// is compared case-sensitively: a caller that wants case-insensitive hints
/// lowercases the string before constructing the flags.
pub struct Flags {
    pub quiet: bool,
    pub hint: String,
    pub output_type: Option<CompressionType>,
}

/// The output format a configuration asks for: the explicit choice, or
/// pass-through when none was given.
pub open spec fn requested_output(flags: Flags) -> CompressionType {
    match flags.output_type {
        Some(t) => t,
        None => CompressionType::Plain,
    }
}

} // verus!

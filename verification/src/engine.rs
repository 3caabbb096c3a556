use vstd::prelude::*;

use crate::codec::compress;
use crate::codec::decompress;
use crate::codec::decoded;
use crate::codec::TranscodeError;
use crate::format::requested_output;
use crate::format::CompressionType;
use crate::format::Flags;

verus! {

/// A successful transcode from `from` to `to`: the input stream is well
/// formed under `from`, and the output stream carries the very same payload
/// under `to`. The compressed bytes themselves may differ from run to run;
/// the meaning may not.
pub open spec fn transcoded(
    from: CompressionType,
    to: CompressionType,
    input: Seq<u8>,
    output: Seq<u8>,
) -> bool {
    &&& decoded(from, input) is Some
    &&& decoded(to, output) == decoded(from, input)
}

/// One transcode operation: the detected format of the input stream and the
/// format the output is to be written in.
pub struct Context {
    pub input_compression_type: CompressionType,
    pub output_compression_type: CompressionType,
}

impl Context {
    /// Build the operation from the detected input format and the
    /// configuration: the output format is the one the flags request, or
    /// pass-through when they request none.
    pub fn new_from_stream(input_compression_type: CompressionType, flags: &Flags) -> (r: Self)
        ensures
            r.input_compression_type == input_compression_type,
            r.output_compression_type == requested_output(*flags),
    {
        let output_compression_type = match flags.output_type {
            Some(t) => t,
            None => CompressionType::Plain,
        };
        Context { input_compression_type, output_compression_type }
    }

    /// Decode the whole input stream under the input format and re-encode the
    /// payload under the output format. The transcode succeeds on exactly the
    /// inputs that are well formed under the input format, and then the
    /// output stream decodes, under the output format, to exactly the payload
    /// the input carried; a malformed input is rejected with a decode error,
    /// never passed through in part.
    pub fn translate_stream(&self, input: &Vec<u8>) -> (r: Result<Vec<u8>, TranscodeError>)
        ensures
            r is Ok <==> decoded(self.input_compression_type, input@) is Some,
            r is Ok ==> transcoded(
                self.input_compression_type,
                self.output_compression_type,
                input@,
                r->Ok_0@,
            ),
            r is Err ==> r->Err_0 == TranscodeError::Decode(self.input_compression_type),
    {
        let payload = match decompress(input, self.input_compression_type) {
            Ok(p) => p,
            Err(e) => {
                return Err(e);
            },
        };
        compress(&payload, self.output_compression_type)
    }
}

/// Decoding alone restores the payload: when a stream that encodes `payload`
/// under `from` is transcoded with target `Plain`, the output is exactly
/// `payload`.
pub proof fn lemma_decode_round_trip(
    from: CompressionType,
    payload: Seq<u8>,
    input: Seq<u8>,
    output: Seq<u8>,
)
    requires
        decoded(from, input) == Some(payload),
        transcoded(from, CompressionType::Plain, input, output),
    ensures
        output == payload,
{
}

/// Encoding alone is lossless: when a raw payload is transcoded from `Plain`
/// into `to`, the target format's own decoder restores exactly the payload.
pub proof fn lemma_encode_round_trip(to: CompressionType, payload: Seq<u8>, output: Seq<u8>)
    requires
        transcoded(CompressionType::Plain, to, payload, output),
    ensures
        decoded(to, output) == Some(payload),
{
}

/// The full pipeline preserves meaning across any pair of formats, the two
/// equal or not: transcoding from `f1` to `f2` and then decoding the result
/// restores exactly the payload the first stream encoded, even though the
/// compressed bytes in between need not match any particular encoder's
/// output.
pub proof fn lemma_transcode_preserves_payload(
    f1: CompressionType,
    f2: CompressionType,
    payload: Seq<u8>,
    input: Seq<u8>,
    mid: Seq<u8>,
    output: Seq<u8>,
)
    requires
        decoded(f1, input) == Some(payload),
        transcoded(f1, f2, input, mid),
        transcoded(f2, CompressionType::Plain, mid, output),
    ensures
        decoded(f2, mid) == Some(payload),
        output == payload,
{
}

} // verus!

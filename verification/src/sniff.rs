use vstd::prelude::*;

use crate::format::CompressionType;
use crate::format::Flags;
use crate::format::SNIFF_LEN;

verus! {

/// The signature of a zstd frame.
pub open spec fn magic_zstd() -> Seq<u8> {
    seq![0x28u8, 0xb5u8, 0x2fu8, 0xfdu8]
}

/// The signature of a gzip stream.
pub open spec fn magic_gzip() -> Seq<u8> {
    seq![0x1fu8, 0x8bu8]
}

/// The zlib header that this pipeline reads as raw deflate.
pub open spec fn magic_deflate() -> Seq<u8> {
    seq![0x78u8, 0x01u8]
}

/// The zlib header at the default compression level.
pub open spec fn magic_zlib() -> Seq<u8> {
    seq![0x78u8, 0x9cu8]
}

/// The signature of an xz stream.
pub open spec fn magic_xz() -> Seq<u8> {
    seq![0xfdu8, 0x37u8, 0x7au8, 0x58u8, 0x5au8, 0x00u8]
}

/// `p` is a prefix of `s`.
pub open spec fn seq_starts_with(s: Seq<u8>, p: Seq<u8>) -> bool {
    p.len() <= s.len() && s.take(p.len() as int) == p
}

/// No supported signature opens the buffer.
pub open spec fn no_known_signature(buf: Seq<u8>) -> bool {
    &&& !seq_starts_with(buf, magic_zstd())
    &&& !seq_starts_with(buf, magic_gzip())
    &&& !seq_starts_with(buf, magic_deflate())
    &&& !seq_starts_with(buf, magic_zlib())
    &&& !seq_starts_with(buf, magic_xz())
}

/// What classification assigns to a sniffed prefix: the signatures are tried
/// in a fixed priority order, and when none matches the hint alone may still
/// select brotli, which has no signature of its own. Lzma has no entry in
/// the table on purpose: its two header bytes are too weak a signature, so
/// the format is used only when a caller selects it explicitly, and any
/// stream opening with them passes through like other unsigned input.
pub open spec fn detected_format(buf: Seq<u8>, hint: Seq<char>) -> CompressionType {
    if seq_starts_with(buf, magic_zstd()) {
        CompressionType::Zstd
    } else if seq_starts_with(buf, magic_gzip()) {
        CompressionType::Gzip
    } else if seq_starts_with(buf, magic_deflate()) {
        CompressionType::Deflate
    } else if seq_starts_with(buf, magic_zlib()) {
        CompressionType::Zlib
    } else if seq_starts_with(buf, magic_xz()) {
        CompressionType::Xz
    } else if hint == "brotli"@ {
        CompressionType::Brotli
    } else {
        CompressionType::Plain
    }
}

fn starts_with2(buf: &[u8], b0: u8, b1: u8) -> (r: bool)
    ensures
        r == seq_starts_with(buf@, seq![b0, b1]),
{
    let ghost p: Seq<u8> = seq![b0, b1];
    if buf.len() < 2 {
        return false;
    }
    proof {
        assert(buf@.take(2)[0] == buf@[0]);
        assert(buf@.take(2)[1] == buf@[1]);
    }
    let r = buf[0] == b0 && buf[1] == b1;
    proof {
        if r {
            assert(buf@.take(2) =~= p);
        } else {
            assert(buf@.take(2) != p) by {
                if buf@.take(2) == p {
                    assert(buf@.take(2)[0] == p[0]);
                    assert(buf@.take(2)[1] == p[1]);
                }
            }
        }
    }
    r
}

fn starts_with4(buf: &[u8], b0: u8, b1: u8, b2: u8, b3: u8) -> (r: bool)
    ensures
        r == seq_starts_with(buf@, seq![b0, b1, b2, b3]),
{
    let ghost p: Seq<u8> = seq![b0, b1, b2, b3];
    if buf.len() < 4 {
        return false;
    }
    proof {
        assert forall|i: int| 0 <= i < 4 implies buf@.take(4)[i] == buf@[i] by {}
    }
    let r = buf[0] == b0 && buf[1] == b1 && buf[2] == b2 && buf[3] == b3;
    proof {
        if r {
            assert(buf@.take(4) =~= p);
        } else {
            assert(buf@.take(4) != p) by {
                if buf@.take(4) == p {
                    assert forall|i: int| 0 <= i < 4 implies buf@.take(4)[i] == p[i] by {}
                }
            }
        }
    }
    r
}

fn starts_with6(buf: &[u8], b0: u8, b1: u8, b2: u8, b3: u8, b4: u8, b5: u8) -> (r: bool)
    ensures
        r == seq_starts_with(buf@, seq![b0, b1, b2, b3, b4, b5]),
{
    let ghost p: Seq<u8> = seq![b0, b1, b2, b3, b4, b5];
    if buf.len() < 6 {
        return false;
    }
    proof {
        assert forall|i: int| 0 <= i < 6 implies buf@.take(6)[i] == buf@[i] by {}
    }
    let r = buf[0] == b0 && buf[1] == b1 && buf[2] == b2 && buf[3] == b3 && buf[4] == b4
        && buf[5] == b5;
    proof {
        if r {
            assert(buf@.take(6) =~= p);
        } else {
            assert(buf@.take(6) != p) by {
                if buf@.take(6) == p {
                    assert forall|i: int| 0 <= i < 6 implies buf@.take(6)[i] == p[i] by {}
                }
            }
        }
    }
    r
}

fn hint_requests_brotli(hint: &String) -> (r: bool)
    ensures
        r == (hint@ == "brotli"@),
{
    let brotli_name: String = "brotli".to_owned();
    *hint == brotli_name
}

/// Classify a sniffed prefix: signatures first, in priority order, then the
/// brotli hint, then pass-through.
pub fn detect_compression_type(buffer: &[u8], flags: &Flags) -> (r: CompressionType)
    ensures
        r == detected_format(buffer@, flags.hint@),
{
    if starts_with4(buffer, 0x28, 0xb5, 0x2f, 0xfd) {
        CompressionType::Zstd
    } else if starts_with2(buffer, 0x1f, 0x8b) {
        CompressionType::Gzip
    } else if starts_with2(buffer, 0x78, 0x01) {
        CompressionType::Deflate
    } else if starts_with2(buffer, 0x78, 0x9c) {
        CompressionType::Zlib
    } else if starts_with6(buffer, 0xfd, 0x37, 0x7a, 0x58, 0x5a, 0x00) {
        CompressionType::Xz
    } else if hint_requests_brotli(&flags.hint) {
        CompressionType::Brotli
    } else {
        CompressionType::Plain
    }
}

/// Classify the prefix one bounded read obtained, and hand the consumed bytes
/// back so the caller can replay them ahead of the rest of the stream.
pub fn detect_stream_characteristics(prefix: &[u8], flags: &Flags) -> (r: (
    CompressionType,
    Vec<u8>,
))
    requires
        prefix@.len() <= SNIFF_LEN,
    ensures
        r.0 == detected_format(prefix@, flags.hint@),
        r.1@ == prefix@,
{
    let kind = detect_compression_type(prefix, flags);
    let mut consumed: Vec<u8> = Vec::new();
    consumed.extend_from_slice(prefix);
    proof {
        assert(consumed@ =~= prefix@);
    }
    (kind, consumed)
}

proof fn lemma_starts_with_index(s: Seq<u8>, p: Seq<u8>, i: int)
    requires
        seq_starts_with(s, p),
        0 <= i < p.len(),
    ensures
        s[i] == p[i],
{
    assert(s.take(p.len() as int)[i] == s[i]);
}

/// Sniffing is correct: every supported signature is classified as its own
/// format whatever the hint says, a stream opening with no signature is
/// classified brotli exactly when the hint asks for it, and `Plain` otherwise.
pub proof fn lemma_sniff_classification(buf: Seq<u8>, hint: Seq<char>)
    ensures
        seq_starts_with(buf, magic_zstd()) ==> detected_format(buf, hint)
            == CompressionType::Zstd,
        seq_starts_with(buf, magic_gzip()) ==> detected_format(buf, hint)
            == CompressionType::Gzip,
        seq_starts_with(buf, magic_deflate()) ==> detected_format(buf, hint)
            == CompressionType::Deflate,
        seq_starts_with(buf, magic_zlib()) ==> detected_format(buf, hint)
            == CompressionType::Zlib,
        seq_starts_with(buf, magic_xz()) ==> detected_format(buf, hint) == CompressionType::Xz,
        no_known_signature(buf) && hint == "brotli"@ ==> detected_format(buf, hint)
            == CompressionType::Brotli,
        no_known_signature(buf) && hint != "brotli"@ ==> detected_format(buf, hint)
            == CompressionType::Plain,
{
    if seq_starts_with(buf, magic_gzip()) {
        lemma_starts_with_index(buf, magic_gzip(), 0);
        if seq_starts_with(buf, magic_zstd()) {
            lemma_starts_with_index(buf, magic_zstd(), 0);
        }
    }
    if seq_starts_with(buf, magic_deflate()) {
        lemma_starts_with_index(buf, magic_deflate(), 0);
        lemma_starts_with_index(buf, magic_deflate(), 1);
        if seq_starts_with(buf, magic_zstd()) {
            lemma_starts_with_index(buf, magic_zstd(), 0);
        }
        if seq_starts_with(buf, magic_gzip()) {
            lemma_starts_with_index(buf, magic_gzip(), 0);
        }
    }
    if seq_starts_with(buf, magic_zlib()) {
        lemma_starts_with_index(buf, magic_zlib(), 0);
        lemma_starts_with_index(buf, magic_zlib(), 1);
        if seq_starts_with(buf, magic_zstd()) {
            lemma_starts_with_index(buf, magic_zstd(), 0);
        }
        if seq_starts_with(buf, magic_gzip()) {
            lemma_starts_with_index(buf, magic_gzip(), 0);
        }
        if seq_starts_with(buf, magic_deflate()) {
            lemma_starts_with_index(buf, magic_deflate(), 1);
        }
    }
    if seq_starts_with(buf, magic_xz()) {
        lemma_starts_with_index(buf, magic_xz(), 0);
        if seq_starts_with(buf, magic_zstd()) {
            lemma_starts_with_index(buf, magic_zstd(), 0);
        }
        if seq_starts_with(buf, magic_gzip()) {
            lemma_starts_with_index(buf, magic_gzip(), 0);
        }
        if seq_starts_with(buf, magic_deflate()) {
            lemma_starts_with_index(buf, magic_deflate(), 0);
        }
        if seq_starts_with(buf, magic_zlib()) {
            lemma_starts_with_index(buf, magic_zlib(), 0);
        }
    }
}

/// An empty stream carries no signature, so it is classified by the hint
/// alone, and classifying it is not an error.
pub proof fn lemma_sniff_empty(hint: Seq<char>)
    ensures
        hint == "brotli"@ ==> detected_format(Seq::<u8>::empty(), hint)
            == CompressionType::Brotli,
        hint != "brotli"@ ==> detected_format(Seq::<u8>::empty(), hint) == CompressionType::Plain,
{
}

} // verus!

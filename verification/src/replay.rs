use vstd::prelude::*;

verus! {

/// Put the bytes the sniffer consumed back in front of the bytes it did not:
/// the result is the logical stream a consumer would have seen had sniffing
/// never touched the source.
pub fn reconstruct_stream(consumed: &Vec<u8>, rest: &Vec<u8>) -> (r: Vec<u8>)
    ensures
        r@ == consumed@ + rest@,
{
    let mut out: Vec<u8> = Vec::new();
    out.extend_from_slice(consumed.as_slice());
    out.extend_from_slice(rest.as_slice());
    proof {
        assert(out@ =~= consumed@ + rest@);
    }
    out
}

/// Sniffing is side-effect-transparent: whenever the sniffer consumed the
/// first `k` bytes of a stream, replaying those bytes ahead of the remainder
/// yields, byte for byte, the original stream.
pub proof fn lemma_sniff_transparent(original: Seq<u8>, k: int)
    requires
        0 <= k <= original.len(),
    ensures
        original.take(k) + original.skip(k) == original,
{
    assert(original.take(k) + original.skip(k) =~= original);
}

} // verus!

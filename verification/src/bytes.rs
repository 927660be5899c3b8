//! Little-endian byte images of the fixed-width integers used by the TGA
//! layout, and the notion of a partially delivered byte sequence that the
//! writers use to describe a failed write.

use vstd::prelude::*;

verus! {

/// The two little-endian bytes of a 16-bit integer, low byte first.
pub open spec fn spec_u16_le(x: u16) -> Seq<u8> {
    seq![(x % 256) as u8, (x / 256) as u8]
}

/// The four little-endian bytes of a 32-bit integer, low byte first.
pub open spec fn spec_u32_le(x: u32) -> Seq<u8> {
    seq![
        (x % 256) as u8,
        ((x / 256) % 256) as u8,
        ((x / 65536) % 256) as u8,
        (x / 16777216) as u8,
    ]
}

/// The little-endian encoding of a 16-bit integer as plain bytes.
pub fn le_bytes_of_u16(x: u16) -> (r: Vec<u8>)
    ensures
        r@ == spec_u16_le(x),
{
    let mut r: Vec<u8> = Vec::new();
    r.push((x % 256) as u8);
    r.push((x / 256) as u8);
    proof {
        assert(r@ =~= spec_u16_le(x));
    }
    r
}

/// The little-endian encoding of a 32-bit integer as plain bytes.
pub fn le_bytes_of_u32(x: u32) -> (r: Vec<u8>)
    ensures
        r@ == spec_u32_le(x),
{
    let mut r: Vec<u8> = Vec::new();
    r.push((x % 256) as u8);
    r.push(((x / 256) % 256) as u8);
    r.push(((x / 65536) % 256) as u8);
    r.push((x / 16777216) as u8);
    proof {
        assert(r@ =~= spec_u32_le(x));
    }
    r
}

/// Appends all of `src` to `out`.
pub fn push_bytes(out: &mut Vec<u8>, src: &[u8])
    ensures
        final(out)@ == old(out)@ + src@,
{
    let mut i: usize = 0;
    while i < src.len()
        invariant
            0 <= i <= src@.len(),
            out@ == old(out)@ + src@.subrange(0, i as int),
        decreases src@.len() - i,
    {
        out.push(src[i]);
        proof {
            assert(old(out)@ + src@.subrange(0, i as int) + seq![src@[i as int]]
                =~= old(out)@ + src@.subrange(0, i as int + 1));
        }
        i = i + 1;
    }
    proof {
        assert(src@.subrange(0, src@.len() as int) =~= src@);
    }
}

/// Holds when a sink that held `old_bytes` now holds `old_bytes` followed by
/// some leading portion of `data`: nothing outside `data` was delivered, and
/// `data` was delivered in order and without gaps.
pub open spec fn wrote_prefix(old_bytes: Seq<u8>, new_bytes: Seq<u8>, data: Seq<u8>) -> bool {
    exists|n: int|
        0 <= n <= data.len() && new_bytes == old_bytes + #[trigger] data.subrange(0, n)
}

/// A leading portion of `a` is also a leading portion of `a + b`.
pub proof fn lemma_wrote_prefix_widen(
    base: Seq<u8>,
    fin: Seq<u8>,
    a: Seq<u8>,
    b: Seq<u8>,
)
    requires
        wrote_prefix(base, fin, a),
    ensures
        wrote_prefix(base, fin, a + b),
{
    let n = choose|n: int| 0 <= n <= a.len() && fin == base + #[trigger] a.subrange(0, n);
    assert((a + b).subrange(0, n) =~= a.subrange(0, n));
    assert(fin == base + (a + b).subrange(0, n));
}

/// After `a` was delivered whole, delivering a leading portion of `b` amounts
/// to delivering a leading portion of `a + b`.
pub proof fn lemma_wrote_prefix_chain(
    base: Seq<u8>,
    a: Seq<u8>,
    fin: Seq<u8>,
    b: Seq<u8>,
)
    requires
        wrote_prefix(base + a, fin, b),
    ensures
        wrote_prefix(base, fin, a + b),
{
    let n = choose|n: int| 0 <= n <= b.len() && fin == (base + a) + #[trigger] b.subrange(0, n);
    assert((a + b).subrange(0, a.len() + n) =~= a + b.subrange(0, n));
    assert((base + a) + b.subrange(0, n) =~= base + (a + b.subrange(0, n)));
    assert(fin == base + (a + b).subrange(0, a.len() + n));
}

} // verus!

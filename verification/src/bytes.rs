//! Little-endian field encodings and helpers that append them to a byte buffer.

use vstd::prelude::*;

verus! {

/// The two bytes of `x`, least significant first.
pub open spec fn le16(x: u16) -> Seq<u8> {
    seq![(x % 256) as u8, (x / 256) as u8]
}

/// The four bytes of `x`, least significant first.
pub open spec fn le32(x: u32) -> Seq<u8> {
    seq![(x % 256) as u8, ((x / 256) % 256) as u8, ((x / 65536) % 256) as u8, (x / 16777216) as u8]
}

/// `n` zero bytes.
pub open spec fn zeros(n: nat) -> Seq<u8> {
    Seq::new(n, |i: int| 0u8)
}

/// The value of a little-endian byte sequence (the empty sequence is 0).
pub open spec fn le_value(b: Seq<u8>) -> nat
    decreases b.len(),
{
    if b.len() == 0 {
        0
    } else {
        b[0] as nat + 256 * le_value(b.subrange(1, b.len() as int))
    }
}

/// Reading back a two-byte little-endian encoding gives the value that was encoded.
pub proof fn lemma_le16_value(x: u16)
    ensures
        le16(x).len() == 2,
        le_value(le16(x)) == x,
{
    let b = le16(x);
    let b1 = b.subrange(1, 2);
    let e = b1.subrange(1, 1);
    assert(e.len() == 0);
    assert(le_value(e) == 0);
    assert(le_value(b1) == b1[0] as nat + 256 * le_value(e));
}

/// Reading back a four-byte little-endian encoding gives the value that was encoded.
pub proof fn lemma_le32_value(x: u32)
    ensures
        le32(x).len() == 4,
        le_value(le32(x)) == x,
{
    let b = le32(x);
    let b1 = b.subrange(1, 4);
    let b2 = b1.subrange(1, 3);
    let b3 = b2.subrange(1, 2);
    let e = b3.subrange(1, 1);
    assert(e.len() == 0);
    assert(le_value(e) == 0);
    assert(b1[0] == b[1] && b2[0] == b[2] && b3[0] == b[3]);
    assert(le_value(b3) == b3[0] as nat + 256 * le_value(e));
    assert(le_value(b2) == b[2] as nat + 256 * (b[3] as nat));
    assert(le_value(b1) == b[1] as nat + 256 * (b[2] as nat + 256 * (b[3] as nat)));
    assert(le_value(b) == b[0] as nat + 256 * (b[1] as nat + 256 * (b[2] as nat + 256 * (b[3] as nat))));
}

/// Appends the two little-endian bytes of `x`.
pub fn push_u16(out: &mut Vec<u8>, x: u16)
    ensures
        final(out)@ == old(out)@ + le16(x),
{
    out.push((x % 256) as u8);
    out.push((x / 256) as u8);
    assert(out@ =~= old(out)@ + le16(x));
}

/// Appends the four little-endian bytes of `x`.
pub fn push_u32(out: &mut Vec<u8>, x: u32)
    ensures
        final(out)@ == old(out)@ + le32(x),
{
    out.push((x % 256) as u8);
    out.push(((x / 256) % 256) as u8);
    out.push(((x / 65536) % 256) as u8);
    out.push((x / 16777216) as u8);
    assert(out@ =~= old(out)@ + le32(x));
}

/// Appends `bytes` unchanged.
pub fn push_bytes(out: &mut Vec<u8>, bytes: &[u8])
    ensures
        final(out)@ == old(out)@ + bytes@,
{
    let ghost start = out@;
    let mut i: usize = 0;
    while i < bytes.len()
        invariant
            i <= bytes@.len(),
            out@ == start + bytes@.subrange(0, i as int),
        decreases bytes@.len() - i,
    {
        out.push(bytes[i]);
        i = i + 1;
        assert(out@ =~= start + bytes@.subrange(0, i as int));
    }
    assert(bytes@.subrange(0, i as int) =~= bytes@);
}

/// Appends `n` zero bytes.
pub fn push_zeros(out: &mut Vec<u8>, n: usize)
    ensures
        final(out)@ == old(out)@ + zeros(n as nat),
{
    let ghost start = out@;
    let mut i: usize = 0;
    while i < n
        invariant
            i <= n,
            out@ == start + zeros(i as nat),
        decreases n - i,
    {
        out.push(0u8);
        i = i + 1;
        assert(out@ =~= start + zeros(i as nat));
    }
}

} // verus!

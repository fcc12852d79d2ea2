//! Cylinder/head/sector addressing as stored in an MBR partition entry.

use vstd::prelude::*;

verus! {

/// Cylinder of a packed three-byte CHS address: the two high bits of the
/// second byte followed by the eight bits of the third byte.
pub open spec fn spec_chs_cylinder(chs: Seq<u8>) -> int {
    (chs[1] / 64) * 256 + chs[2]
}

/// Head of a packed three-byte CHS address: the first byte.
pub open spec fn spec_chs_head(chs: Seq<u8>) -> int {
    chs[0] as int
}

/// Sector of a packed three-byte CHS address: the six low bits of the second byte.
pub open spec fn spec_chs_sector(chs: Seq<u8>) -> int {
    (chs[1] % 64) as int
}

/// Linear block address of cylinder `c`, head `h`, sector `s` on a disk with
/// `heads` heads per cylinder and `sectors` sectors per track; sectors count from 1.
pub open spec fn spec_chs_to_lba(c: int, h: int, s: int, heads: int, sectors: int) -> int {
    (c * heads + h) * sectors + (s - 1)
}

/// Splits a packed CHS address into (cylinder, head, sector).
pub fn chs_decode(chs: [u8; 3]) -> (r: (u16, u8, u16))
    ensures
        r.0 == spec_chs_cylinder(chs@),
        r.1 == spec_chs_head(chs@),
        r.2 == spec_chs_sector(chs@),
        r.0 < 1024,
        r.2 < 64,
        r.1 == chs[0],
        r.2 == (chs[1] & 0x3F) as u16,
        r.0 == (((chs[1] & 0xC0) as u16) << 2) | (chs[2] as u16),
{
    proof {
        lemma_chs_fields_by_mask(chs@);
    }
    let head = chs[0];
    let b1 = chs[1];
    let b2 = chs[2];
    let sector = b1 & 0b0011_1111;
    let upper_cylinder_bits = ((b1 & 0b1100_0000) as u16) >> 6;
    let lower_cylinder_bits = b2 as u16;
    let cylinder = (upper_cylinder_bits << 8) | lower_cylinder_bits;
    assert(sector == b1 % 64) by (bit_vector)
        requires sector == b1 & 0b0011_1111;
    assert(cylinder == (b1 / 64) * 256 + b2 && cylinder < 1024) by (bit_vector)
        requires
            upper_cylinder_bits == ((b1 & 0b1100_0000) as u16) >> 6,
            lower_cylinder_bits == b2 as u16,
            cylinder == (upper_cylinder_bits << 8) | lower_cylinder_bits,
    ;
    (cylinder, head, sector as u16)
}

/// Converts a CHS address to a linear block address for the given geometry,
/// `(c * heads_per_cylinder + h) * sectors_per_track + (s - 1)`.
pub fn chs_to_lba(c: u16, h: u8, s: u16, heads_per_cylinder: u16, sectors_per_track: u16) -> (lba: u32)
    requires
        s >= 1,
        spec_chs_to_lba(c as int, h as int, s as int, heads_per_cylinder as int, sectors_per_track as int) <= u32::MAX,
    ensures
        lba == spec_chs_to_lba(c as int, h as int, s as int, heads_per_cylinder as int, sectors_per_track as int),
        lba == (c * heads_per_cylinder + h) * sectors_per_track + s - 1,
{
    assert(c * heads_per_cylinder <= 65535 * 65535) by (nonlinear_arith)
        requires c <= 65535, heads_per_cylinder <= 65535;
    let ch: u32 = c as u32 * heads_per_cylinder as u32;
    assert(ch + h <= 65535 * 65535 + 255) by (nonlinear_arith)
        requires ch == c * heads_per_cylinder, c <= 65535, heads_per_cylinder <= 65535, h <= 255;
    let chh: u32 = ch + h as u32;
    assert(chh * sectors_per_track <= u32::MAX) by (nonlinear_arith)
        requires chh * sectors_per_track + (s - 1) <= u32::MAX, s >= 1;
    let t: u32 = chh * sectors_per_track as u32;
    t + (s as u32 - 1)
}

/// The fields of a packed CHS address by bit mask: the head is the first
/// byte, the sector the six low bits of the second byte, and the cylinder the
/// two high bits of the second byte above the eight bits of the third.
pub proof fn lemma_chs_fields_by_mask(chs: Seq<u8>)
    requires
        chs.len() == 3,
    ensures
        spec_chs_head(chs) == chs[0],
        spec_chs_sector(chs) == (chs[1] & 0x3F),
        spec_chs_cylinder(chs) == ((((chs[1] & 0xC0) as u16) << 2) | (chs[2] as u16)),
        0 <= spec_chs_sector(chs) < 64,
        0 <= spec_chs_cylinder(chs) < 1024,
{
    let b1 = chs[1];
    let b2 = chs[2];
    assert(b1 % 64 == b1 & 0x3F) by (bit_vector);
    assert((b1 / 64) * 256 + b2 == ((((b1 & 0xC0) as u16) << 2) | (b2 as u16))) by (bit_vector);
}

} // verus!

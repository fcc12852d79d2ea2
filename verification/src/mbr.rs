//! The first primary partition entry of a master boot record, its 16-byte
//! on-disk encoding, and the writes that put it into an image.

use vstd::prelude::*;
use crate::bytes::{le32, push_bytes, push_u32};
use crate::image::all_zero;

verus! {

/// Byte offset of the first partition entry in the master boot record.
pub const MBR_PARTITION_ENTRY_OFFSET: u64 = 0x1BE;

/// Byte offset of the two-byte boot signature in the master boot record.
pub const MBR_SIGNATURE_OFFSET: u64 = 0x1FE;

/// Length of one partition entry.
pub const PARTITION_ENTRY_LEN: usize = 16;

/// The first primary partition of an MBR partition table.
#[allow(non_camel_case_types)]
#[derive(Debug, Clone, Copy, PartialEq, Eq)]
pub struct F32_1stPartition {
    /// 0x80 = active/bootable, 0x00 = not active.
    pub boot_flag: u8,
    /// Packed CHS address of the first sector.
    pub start_chs: [u8; 3],
    /// Partition type (0x0C = FAT32 LBA).
    pub part_type: u8,
    /// Packed CHS address of the last sector.
    pub end_chs: [u8; 3],
    /// First sector, as a linear block address.
    pub start_lba: u32,
    /// Number of 512-byte sectors.
    pub sectors: u32,
}

/// The 16 bytes of a partition entry: flag, start CHS, type, end CHS, then the
/// start LBA and the sector count, both little-endian.
pub open spec fn spec_partition_entry_bytes(p: F32_1stPartition) -> Seq<u8> {
    seq![p.boot_flag] + p.start_chs@ + seq![p.part_type] + p.end_chs@ + le32(p.start_lba) + le32(p.sectors)
}

/// One write into a disk image: `bytes` placed at byte `offset`.
pub struct DiskWrite {
    pub offset: u64,
    pub bytes: Vec<u8>,
}

/// The image `img` after `bytes` are written at byte `offset`. A write that
/// reaches past the end extends the image, and any gap between the old end and
/// `offset` reads as zeros.
pub open spec fn apply_write(img: Seq<u8>, offset: int, bytes: Seq<u8>) -> Seq<u8>
    recommends
        offset >= 0,
{
    let len = if offset + bytes.len() > img.len() { offset + bytes.len() } else { img.len() as int };
    Seq::new(
        len as nat,
        |i: int|
            if offset <= i < offset + bytes.len() {
                bytes[i - offset]
            } else if i < img.len() {
                img[i]
            } else {
                0u8
            },
    )
}

/// Two byte ranges `[a, a + a_len)` and `[b, b + b_len)` do not overlap.
pub open spec fn ranges_disjoint(a: int, a_len: int, b: int, b_len: int) -> bool {
    a + a_len <= b || b + b_len <= a
}

impl F32_1stPartition {
    /// The on-disk encoding of this entry.
    pub fn to_bytes(&self) -> (r: Vec<u8>)
        ensures
            r@ == spec_partition_entry_bytes(*self),
            r@.len() == 16,
    {
        let mut out: Vec<u8> = Vec::new();
        out.push(self.boot_flag);
        assert(out@ =~= seq![self.boot_flag]);
        push_bytes(&mut out, &self.start_chs);
        out.push(self.part_type);
        assert(out@ =~= seq![self.boot_flag] + self.start_chs@ + seq![self.part_type]);
        push_bytes(&mut out, &self.end_chs);
        push_u32(&mut out, self.start_lba);
        push_u32(&mut out, self.sectors);
        out
    }
}

/// Where each field of an encoded partition entry lies: the flag at 0, the
/// start CHS at 1..4, the type at 4, the end CHS at 5..8, the start LBA at
/// 8..12 and the sector count at 12..16.
pub proof fn lemma_partition_entry_layout(p: F32_1stPartition)
    ensures
        ({
            let b = spec_partition_entry_bytes(p);
            &&& b.len() == 16
            &&& b[0] == p.boot_flag
            &&& b.subrange(1, 4) == p.start_chs@
            &&& b[4] == p.part_type
            &&& b.subrange(5, 8) == p.end_chs@
            &&& b.subrange(8, 12) == le32(p.start_lba)
            &&& b.subrange(12, 16) == le32(p.sectors)
        }),
{
    let b = spec_partition_entry_bytes(p);
    assert(b.subrange(1, 4) =~= p.start_chs@);
    assert(b.subrange(5, 8) =~= p.end_chs@);
    assert(b.subrange(8, 12) =~= le32(p.start_lba));
    assert(b.subrange(12, 16) =~= le32(p.sectors));
}

/// The writes that install `partition_entry` as the first entry of the MBR
/// partition table and mark the MBR bootable: the 16-byte entry at 0x1BE and
/// the signature 0x55 0xAA at 0x1FE.
#[allow(non_snake_case)]
pub fn inject_fat32_partition_table(partition_entry: F32_1stPartition) -> (w: Vec<DiskWrite>)
    ensures
        w@.len() == 2,
        w@[0].offset == MBR_PARTITION_ENTRY_OFFSET,
        w@[0].bytes@ == spec_partition_entry_bytes(partition_entry),
        w@[1].offset == MBR_SIGNATURE_OFFSET,
        w@[1].bytes@ == seq![0x55u8, 0xAAu8],
{
    let entry = partition_entry.to_bytes();
    let mut signature: Vec<u8> = Vec::new();
    signature.push(0x55);
    signature.push(0xAA);
    assert(signature@ =~= seq![0x55u8, 0xAAu8]);
    let mut w: Vec<DiskWrite> = Vec::new();
    w.push(DiskWrite { offset: MBR_PARTITION_ENTRY_OFFSET, bytes: entry });
    w.push(DiskWrite { offset: MBR_SIGNATURE_OFFSET, bytes: signature });
    w
}

/// The partition entry and the boot signature land inside the first 512-byte
/// sector and do not overlap each other.
pub proof fn lemma_mbr_writes_disjoint(p: F32_1stPartition)
    ensures
        ranges_disjoint(
            MBR_PARTITION_ENTRY_OFFSET as int,
            spec_partition_entry_bytes(p).len() as int,
            MBR_SIGNATURE_OFFSET as int,
            2,
        ),
        MBR_PARTITION_ENTRY_OFFSET + spec_partition_entry_bytes(p).len() <= 512,
        MBR_SIGNATURE_OFFSET + 2 == 512,
{
}

/// Once the partition table writes are applied to an image of any size, it is
/// at least 512 bytes long and no longer blank: byte 0x1FE holds 0x55, so the
/// blank check refuses the image, and refuses every piece of it read back that
/// covers that byte.
pub proof fn lemma_mbr_writes_not_blank(img: Seq<u8>, p: F32_1stPartition)
    ensures
        ({
            let out = apply_write(
                apply_write(img, MBR_PARTITION_ENTRY_OFFSET as int, spec_partition_entry_bytes(p)),
                MBR_SIGNATURE_OFFSET as int,
                seq![0x55u8, 0xAAu8],
            );
            &&& out.len() >= 512
            &&& out[0x1FE] == 0x55
            &&& !all_zero(out)
            &&& forall|i: int, j: int| 0 <= i <= 0x1FE < j <= out.len() ==> !all_zero(#[trigger] out.subrange(i, j))
        }),
{
    let out = apply_write(
        apply_write(img, MBR_PARTITION_ENTRY_OFFSET as int, spec_partition_entry_bytes(p)),
        MBR_SIGNATURE_OFFSET as int,
        seq![0x55u8, 0xAAu8],
    );
    assert(spec_partition_entry_bytes(p).len() == 16);
    assert(out.len() >= 512);
    assert(out[0x1FE] == 0x55);
    assert forall|i: int, j: int| 0 <= i <= 0x1FE < j <= out.len() implies !all_zero(#[trigger] out.subrange(i, j)) by {
        assert(out.subrange(i, j)[0x1FE - i] == out[0x1FE]);
    }
}

} // verus!

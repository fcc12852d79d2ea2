//! The FAT32 volume boot record: the BIOS parameter block with the FAT32
//! extensions, its 512-byte on-disk encoding, and the write that places it
//! at the start of the partition.

use vstd::prelude::*;
use crate::bytes::{le16, le32, zeros, push_bytes, push_u16, push_u32, push_zeros};
use crate::mbr::DiskWrite;

verus! {

/// Byte offset of the volume boot record in the image: 1 MiB, LBA 2048.
pub const VBR_OFFSET: u64 = 0x100000;

/// Length of the volume boot record sector.
pub const VBR_LEN: usize = 512;

/// A FAT32 volume boot record: BPB 2.0, BPB 3.31 and the FAT32 extended BPB.
#[allow(non_snake_case)]
#[derive(Debug, Clone, Copy, PartialEq, Eq)]
pub struct VBR {
    // BPB 2.0
    /// Jump instruction to the boot code.
    pub jump_to_boot: [u8; 3],
    /// OEM name.
    pub oem: [u8; 8],
    pub bytes_per_sector: u16,
    pub sectors_per_cluster: u8,
    pub reserved_sectors: u16,
    pub number_FATs: u8,
    /// Root directory entries (0 for FAT32).
    pub root_entry_count: u16,
    /// Total sectors when below 65536 (0 for FAT32).
    pub total_logical_sectors: u16,
    pub media_descriptor: u8,
    /// Sectors per FAT for FAT12/16 (0 for FAT32).
    pub sectors_per_FAT16: u16,
    // BPB 3.31
    pub sectors_per_track: u16,
    pub number_of_heads: u16,
    pub hidden_sectors: u32,
    pub total_count_sectors_FAT32: u32,
    // FAT32 extended BPB
    pub sectors_per_FAT32: u32,
    pub flags_FAT32: u16,
    pub version_FAT32: u16,
    /// First cluster of the root directory.
    pub root_cluster: u32,
    pub FSInfo_sector: u16,
    pub backup_boot_sector: u16,
    pub reserved0: [u8; 12],
    pub physical_drive_number: u8,
    pub reserved1: u8,
    /// 0x29 when the extended BPB is present.
    pub boot_signature: u8,
    pub volume_ID: u32,
    pub volume_label: [u8; 11],
    pub file_system_type: [u8; 8],
    pub reserved3_for_code: [u8; 8],
    /// 0x55 0xAA.
    pub boot_sector_signature: [u8; 2],
}

/// The 512 bytes of a volume boot record: the fields in order, little-endian,
/// from offset 0 to 0x62, zeros up to 0x1FE, then the boot sector signature.
pub open spec fn spec_vbr_bytes(v: VBR) -> Seq<u8> {
    v.jump_to_boot@ + v.oem@ + le16(v.bytes_per_sector) + seq![v.sectors_per_cluster]
        + le16(v.reserved_sectors) + seq![v.number_FATs] + le16(v.root_entry_count)
        + le16(v.total_logical_sectors) + seq![v.media_descriptor] + le16(v.sectors_per_FAT16)
        + le16(v.sectors_per_track) + le16(v.number_of_heads) + le32(v.hidden_sectors)
        + le32(v.total_count_sectors_FAT32) + le32(v.sectors_per_FAT32) + le16(v.flags_FAT32)
        + le16(v.version_FAT32) + le32(v.root_cluster) + le16(v.FSInfo_sector)
        + le16(v.backup_boot_sector) + v.reserved0@ + seq![v.physical_drive_number]
        + seq![v.reserved1] + seq![v.boot_signature] + le32(v.volume_ID) + v.volume_label@
        + v.file_system_type@ + v.reserved3_for_code@ + zeros(0x19C) + v.boot_sector_signature@
}

impl VBR {
    /// The on-disk encoding of this volume boot record.
    pub fn to_bytes(&self) -> (r: Vec<u8>)
        ensures
            r@ == spec_vbr_bytes(*self),
            r@.len() == 512,
    {
        let mut out: Vec<u8> = Vec::new();
        push_bytes(&mut out, &self.jump_to_boot);
        assert(out@ =~= self.jump_to_boot@);
        push_bytes(&mut out, &self.oem);
        push_u16(&mut out, self.bytes_per_sector);
        out.push(self.sectors_per_cluster);
        push_u16(&mut out, self.reserved_sectors);
        out.push(self.number_FATs);
        push_u16(&mut out, self.root_entry_count);
        push_u16(&mut out, self.total_logical_sectors);
        out.push(self.media_descriptor);
        push_u16(&mut out, self.sectors_per_FAT16);
        push_u16(&mut out, self.sectors_per_track);
        push_u16(&mut out, self.number_of_heads);
        push_u32(&mut out, self.hidden_sectors);
        push_u32(&mut out, self.total_count_sectors_FAT32);
        push_u32(&mut out, self.sectors_per_FAT32);
        push_u16(&mut out, self.flags_FAT32);
        push_u16(&mut out, self.version_FAT32);
        push_u32(&mut out, self.root_cluster);
        push_u16(&mut out, self.FSInfo_sector);
        push_u16(&mut out, self.backup_boot_sector);
        push_bytes(&mut out, &self.reserved0);
        out.push(self.physical_drive_number);
        out.push(self.reserved1);
        out.push(self.boot_signature);
        push_u32(&mut out, self.volume_ID);
        push_bytes(&mut out, &self.volume_label);
        push_bytes(&mut out, &self.file_system_type);
        push_bytes(&mut out, &self.reserved3_for_code);
        push_zeros(&mut out, 0x19C);
        push_bytes(&mut out, &self.boot_sector_signature);
        out
    }
}

/// The write that places `vbr` at 1 MiB into the image, the first sector of
/// a partition that starts at LBA 2048.
#[allow(non_snake_case)]
pub fn inject_VBR(vbr: VBR) -> (w: DiskWrite)
    ensures
        w.offset == VBR_OFFSET,
        w.bytes@ == spec_vbr_bytes(vbr),
        w.bytes@.len() == 512,
{
    DiskWrite { offset: VBR_OFFSET, bytes: vbr.to_bytes() }
}

/// Where each field of an encoded volume boot record lies, by the offsets of
/// the FAT32 specification: the BPB 2.0 fields from 0x00 to 0x18, the BPB 3.31
/// fields from 0x18 to 0x24, the FAT32 extension from 0x24 to 0x5A, the eight
/// reserved code bytes at 0x5A, zeros up to 0x1FE and the boot signature at
/// 0x1FE..0x200.
#[verifier::rlimit(60)]
pub proof fn lemma_vbr_layout(v: VBR)
    ensures
        ({
            let b = spec_vbr_bytes(v);
            &&& b.len() == 512
            &&& b.subrange(0x000, 0x003) == v.jump_to_boot@
            &&& b.subrange(0x003, 0x00B) == v.oem@
            &&& b.subrange(0x00B, 0x00D) == le16(v.bytes_per_sector)
            &&& b[0x00D] == v.sectors_per_cluster
            &&& b.subrange(0x00E, 0x010) == le16(v.reserved_sectors)
            &&& b[0x010] == v.number_FATs
            &&& b.subrange(0x011, 0x013) == le16(v.root_entry_count)
            &&& b.subrange(0x013, 0x015) == le16(v.total_logical_sectors)
            &&& b[0x015] == v.media_descriptor
            &&& b.subrange(0x016, 0x018) == le16(v.sectors_per_FAT16)
            &&& b.subrange(0x018, 0x01A) == le16(v.sectors_per_track)
            &&& b.subrange(0x01A, 0x01C) == le16(v.number_of_heads)
            &&& b.subrange(0x01C, 0x020) == le32(v.hidden_sectors)
            &&& b.subrange(0x020, 0x024) == le32(v.total_count_sectors_FAT32)
            &&& b.subrange(0x024, 0x028) == le32(v.sectors_per_FAT32)
            &&& b.subrange(0x028, 0x02A) == le16(v.flags_FAT32)
            &&& b.subrange(0x02A, 0x02C) == le16(v.version_FAT32)
            &&& b.subrange(0x02C, 0x030) == le32(v.root_cluster)
            &&& b.subrange(0x030, 0x032) == le16(v.FSInfo_sector)
            &&& b.subrange(0x032, 0x034) == le16(v.backup_boot_sector)
            &&& b.subrange(0x034, 0x040) == v.reserved0@
            &&& b[0x040] == v.physical_drive_number
            &&& b[0x041] == v.reserved1
            &&& b[0x042] == v.boot_signature
            &&& b.subrange(0x043, 0x047) == le32(v.volume_ID)
            &&& b.subrange(0x047, 0x052) == v.volume_label@
            &&& b.subrange(0x052, 0x05A) == v.file_system_type@
            &&& b.subrange(0x05A, 0x062) == v.reserved3_for_code@
            &&& b.subrange(0x062, 0x1FE) == zeros(0x19C)
            &&& b.subrange(0x1FE, 0x200) == v.boot_sector_signature@
        }),
{
    let b = spec_vbr_bytes(v);
    assert(b.subrange(0x000, 0x003) =~= v.jump_to_boot@);
    assert(b.subrange(0x003, 0x00B) =~= v.oem@);
    assert(b.subrange(0x00B, 0x00D) =~= le16(v.bytes_per_sector));
    assert(b.subrange(0x00E, 0x010) =~= le16(v.reserved_sectors));
    assert(b.subrange(0x011, 0x013) =~= le16(v.root_entry_count));
    assert(b.subrange(0x013, 0x015) =~= le16(v.total_logical_sectors));
    assert(b.subrange(0x016, 0x018) =~= le16(v.sectors_per_FAT16));
    assert(b.subrange(0x018, 0x01A) =~= le16(v.sectors_per_track));
    assert(b.subrange(0x01A, 0x01C) =~= le16(v.number_of_heads));
    assert(b.subrange(0x01C, 0x020) =~= le32(v.hidden_sectors));
    assert(b.subrange(0x020, 0x024) =~= le32(v.total_count_sectors_FAT32));
    assert(b.subrange(0x024, 0x028) =~= le32(v.sectors_per_FAT32));
    assert(b.subrange(0x028, 0x02A) =~= le16(v.flags_FAT32));
    assert(b.subrange(0x02A, 0x02C) =~= le16(v.version_FAT32));
    assert(b.subrange(0x02C, 0x030) =~= le32(v.root_cluster));
    assert(b.subrange(0x030, 0x032) =~= le16(v.FSInfo_sector));
    assert(b.subrange(0x032, 0x034) =~= le16(v.backup_boot_sector));
    assert(b.subrange(0x034, 0x040) =~= v.reserved0@);
    assert(b.subrange(0x043, 0x047) =~= le32(v.volume_ID));
    assert(b.subrange(0x047, 0x052) =~= v.volume_label@);
    assert(b.subrange(0x052, 0x05A) =~= v.file_system_type@);
    assert(b.subrange(0x05A, 0x062) =~= v.reserved3_for_code@);
    assert(b.subrange(0x062, 0x1FE) =~= zeros(0x19C));
    assert(b.subrange(0x1FE, 0x200) =~= v.boot_sector_signature@);
}

} // verus!

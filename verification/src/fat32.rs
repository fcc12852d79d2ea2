//! The single-partition FAT32 layout this crate writes: a 34 MiB image whose
//! first primary partition starts at 1 MiB (LBA 2048) and spans 33 MiB
//! (67584 sectors), formatted with one sector per cluster, 32 reserved
//! sectors and two FATs of 520 sectors each.

use vstd::prelude::*;
use crate::chs::{spec_chs_cylinder, spec_chs_head, spec_chs_sector, spec_chs_to_lba};
use crate::geometry::{spec_first_matching_geometry, spec_geometry_candidate};
use crate::image::MIN_FAT32_IMAGE_BYTES;
use crate::mbr::{F32_1stPartition, MBR_PARTITION_ENTRY_OFFSET, MBR_SIGNATURE_OFFSET, apply_write, ranges_disjoint, spec_partition_entry_bytes};
use crate::vbr::{VBR, VBR_OFFSET, spec_vbr_bytes};

verus! {

/// The partition entry: bootable, FAT32 with LBA addressing, LBA 2048 for
/// 67584 sectors, with CHS addresses for a 4-head, 32-sector geometry.
pub open spec fn spec_fat32_partition_entry(p: F32_1stPartition) -> bool {
    &&& p.boot_flag == 0x80
    &&& p.start_chs@ == seq![0x00u8, 0x01u8, 0x10u8]
    &&& p.part_type == 0x0C
    &&& p.end_chs@ == seq![0x03u8, 0xA0u8, 0x1Fu8]
    &&& p.start_lba == 2048
    &&& p.sectors == 67584
}

/// The volume boot record for that partition.
pub open spec fn spec_fat32_vbr(v: VBR) -> bool {
    &&& v.jump_to_boot@ == seq![0xEBu8, 0x58u8, 0x90u8]
    &&& v.oem@ == seq![0x54u8, 0x55u8, 0x53u8, 0x4Du8, 0x55u8, 0x45u8, 0x52u8, 0x54u8]
    &&& v.bytes_per_sector == 512
    &&& v.sectors_per_cluster == 1
    &&& v.reserved_sectors == 32
    &&& v.number_FATs == 2
    &&& v.root_entry_count == 0
    &&& v.total_logical_sectors == 0
    &&& v.media_descriptor == 0xF8
    &&& v.sectors_per_FAT16 == 0
    &&& v.sectors_per_track == 63
    &&& v.number_of_heads == 16
    &&& v.hidden_sectors == 0
    &&& v.total_count_sectors_FAT32 == 67584
    &&& v.sectors_per_FAT32 == 520
    &&& v.flags_FAT32 == 0
    &&& v.version_FAT32 == 0
    &&& v.root_cluster == 2
    &&& v.FSInfo_sector == 1
    &&& v.backup_boot_sector == 6
    &&& v.reserved0@ == Seq::new(12, |i: int| 0u8)
    &&& v.physical_drive_number == 0x80
    &&& v.reserved1 == 0
    &&& v.boot_signature == 0x29
    &&& v.volume_ID == 1195118859
    &&& v.volume_label@ == seq![0x54u8, 0x55u8, 0x53u8, 0x4Du8, 0x55u8, 0x45u8, 0x52u8, 0x54u8, 0x4Fu8, 0x53u8, 0x32u8]
    &&& v.file_system_type@ == seq![0x46u8, 0x41u8, 0x54u8, 0x33u8, 0x32u8, 0x20u8, 0x20u8, 0x20u8]
    &&& v.reserved3_for_code@ == seq![0xFAu8, 0xFAu8, 0xFAu8, 0xFAu8, 0xFAu8, 0xFAu8, 0xFAu8, 0xFAu8]
    &&& v.boot_sector_signature@ == seq![0x55u8, 0xAAu8]
}

/// The first primary partition of the image.
pub fn fat32_partition_entry() -> (p: F32_1stPartition)
    ensures
        spec_fat32_partition_entry(p),
{
    let p = F32_1stPartition {
        boot_flag: 0x80,
        start_chs: [0x00, 0x01, 0x10],
        part_type: 0x0C,
        end_chs: [0x03, 0xA0, 0x1F],
        start_lba: 2048u32,
        sectors: 67584u32,
    };
    assert(p.start_chs@ =~= seq![0x00u8, 0x01u8, 0x10u8]);
    assert(p.end_chs@ =~= seq![0x03u8, 0xA0u8, 0x1Fu8]);
    p
}

/// The volume boot record of the partition ("TUSMUERT", volume "TUSMUERTOS2").
pub fn fat32_vbr() -> (v: VBR)
    ensures
        spec_fat32_vbr(v),
{
    let v = VBR {
        jump_to_boot: [0xEB, 0x58, 0x90],
        oem: [0x54, 0x55, 0x53, 0x4D, 0x55, 0x45, 0x52, 0x54], // "TUSMUERT"
        bytes_per_sector: 512,
        sectors_per_cluster: 1,
        reserved_sectors: 32,
        number_FATs: 2,
        root_entry_count: 0,
        total_logical_sectors: 0,
        media_descriptor: 0xF8,
        sectors_per_FAT16: 0,
        sectors_per_track: 63,
        number_of_heads: 16,
        hidden_sectors: 0,
        total_count_sectors_FAT32: 67584,
        sectors_per_FAT32: 520,
        flags_FAT32: 0,
        version_FAT32: 0,
        root_cluster: 2,
        FSInfo_sector: 1,
        backup_boot_sector: 6,
        reserved0: [0x00, 0x00, 0x00, 0x00, 0x00, 0x00, 0x00, 0x00, 0x00, 0x00, 0x00, 0x00],
        physical_drive_number: 0x80,
        reserved1: 0x00,
        boot_signature: 0x29,
        volume_ID: 1195118859,
        volume_label: [0x54, 0x55, 0x53, 0x4D, 0x55, 0x45, 0x52, 0x54, 0x4F, 0x53, 0x32], // "TUSMUERTOS2"
        file_system_type: [0x46, 0x41, 0x54, 0x33, 0x32, 0x20, 0x20, 0x20],
        reserved3_for_code: [0xFA, 0xFA, 0xFA, 0xFA, 0xFA, 0xFA, 0xFA, 0xFA],
        boot_sector_signature: [0x55, 0xAA],
    };
    assert(v.jump_to_boot@ =~= seq![0xEBu8, 0x58u8, 0x90u8]);
    assert(v.oem@ =~= seq![0x54u8, 0x55u8, 0x53u8, 0x4Du8, 0x55u8, 0x45u8, 0x52u8, 0x54u8]);
    assert(v.reserved0@ =~= Seq::new(12, |i: int| 0u8));
    assert(v.volume_label@ =~= seq![0x54u8, 0x55u8, 0x53u8, 0x4Du8, 0x55u8, 0x45u8, 0x52u8, 0x54u8, 0x4Fu8, 0x53u8, 0x32u8]);
    assert(v.file_system_type@ =~= seq![0x46u8, 0x41u8, 0x54u8, 0x33u8, 0x32u8, 0x20u8, 0x20u8, 0x20u8]);
    assert(v.reserved3_for_code@ =~= seq![0xFAu8, 0xFAu8, 0xFAu8, 0xFAu8, 0xFAu8, 0xFAu8, 0xFAu8, 0xFAu8]);
    assert(v.boot_sector_signature@ =~= seq![0x55u8, 0xAAu8]);
    v
}

/// Sectors taken by the root directory region: 0 on FAT32, where the root
/// directory lives in the data region.
pub open spec fn root_dir_sectors(v: VBR) -> int {
    (v.root_entry_count * 32 + (v.bytes_per_sector - 1)) / (v.bytes_per_sector as int)
}

/// Sectors of the volume's data region.
pub open spec fn data_sectors(v: VBR) -> int {
    v.total_count_sectors_FAT32 - (v.reserved_sectors + v.number_FATs * v.sectors_per_FAT32 + root_dir_sectors(v))
}

/// Clusters of the volume's data region; the FAT type follows from this count
/// alone, and 65525 clusters or more make the volume FAT32.
pub open spec fn cluster_count(v: VBR) -> int {
    data_sectors(v) / (v.sectors_per_cluster as int)
}

/// The partition and its volume boot record agree: the VBR is written at the
/// partition's first sector, both count the same sectors, and the partition
/// ends exactly at the end of a minimal (34 MiB) image, so it fits in every
/// image that passes validation.
pub proof fn lemma_fat32_layout_consistent(p: F32_1stPartition, v: VBR)
    requires
        spec_fat32_partition_entry(p),
        spec_fat32_vbr(v),
    ensures
        p.start_lba * 512 == VBR_OFFSET,
        p.sectors == v.total_count_sectors_FAT32,
        (p.start_lba + p.sectors) * 512 == MIN_FAT32_IMAGE_BYTES,
        ranges_disjoint(MBR_SIGNATURE_OFFSET as int, 2, VBR_OFFSET as int, 512),
        VBR_OFFSET + 512 <= MIN_FAT32_IMAGE_BYTES,
{
}

/// The volume is a FAT32 volume: no root directory region, at least 65525
/// clusters, and each FAT has an entry of 4 bytes for every cluster plus the
/// two reserved entries.
pub proof fn lemma_fat32_volume(v: VBR)
    requires
        spec_fat32_vbr(v),
    ensures
        root_dir_sectors(v) == 0,
        cluster_count(v) == 66512,
        cluster_count(v) >= 65525,
        v.sectors_per_FAT32 * v.bytes_per_sector >= (cluster_count(v) + 2) * 4,
{
}

/// The CHS addresses in the partition entry agree with its LBA fields under a
/// geometry of 4 heads and 32 sectors per track: the start CHS addresses the
/// first sector and the end CHS the last one.
pub proof fn lemma_fat32_partition_chs(p: F32_1stPartition)
    requires
        spec_fat32_partition_entry(p),
    ensures
        spec_chs_to_lba(spec_chs_cylinder(p.start_chs@), spec_chs_head(p.start_chs@), spec_chs_sector(p.start_chs@), 4, 32)
            == p.start_lba,
        spec_chs_to_lba(spec_chs_cylinder(p.end_chs@), spec_chs_head(p.end_chs@), spec_chs_sector(p.end_chs@), 4, 32)
            == p.start_lba + p.sectors - 1,
{
}

/// Geometry detection on the partition entry settles on the last candidate,
/// 4 heads and 32 sectors per track, after trying all six, and under it the
/// start CHS address gives back the start LBA 2048.
pub proof fn lemma_fat32_partition_geometry(p: F32_1stPartition)
    requires
        spec_fat32_partition_entry(p),
    ensures
        ({
            let c = spec_chs_cylinder(p.start_chs@) as u16;
            let h = spec_chs_head(p.start_chs@) as u8;
            let s = spec_chs_sector(p.start_chs@) as u16;
            let first = spec_first_matching_geometry(c, h, s, p.start_lba, 0);
            &&& first == 5
            &&& spec_geometry_candidate(first) == (4u16, 32u16)
            &&& spec_chs_to_lba(c as int, h as int, s as int, 4, 32) == p.start_lba
        }),
{
    reveal_with_fuel(spec_first_matching_geometry, 7);
}

/// Writing the partition entry, the boot signature and the volume boot record
/// into an image of at least 34 MiB leaves each of them readable where it was
/// written and every other byte as it was; the image keeps its length.
pub proof fn lemma_fat32_image_contents(img: Seq<u8>, p: F32_1stPartition, v: VBR)
    requires
        img.len() >= MIN_FAT32_IMAGE_BYTES,
    ensures
        ({
            let entry = spec_partition_entry_bytes(p);
            let vbr = spec_vbr_bytes(v);
            let out = apply_write(
                apply_write(apply_write(img, MBR_PARTITION_ENTRY_OFFSET as int, entry), MBR_SIGNATURE_OFFSET as int, seq![0x55u8, 0xAAu8]),
                VBR_OFFSET as int,
                vbr,
            );
            &&& out.len() == img.len()
            &&& out.subrange(0x1BE, 0x1CE) == entry
            &&& out.subrange(0x1FE, 0x200) == seq![0x55u8, 0xAAu8]
            &&& out.subrange(0x100000, 0x100200) == vbr
            &&& forall|i: int| 0 <= i < img.len() && !(0x1BE <= i < 0x1CE) && !(0x1FE <= i < 0x200)
                && !(0x100000 <= i < 0x100200) ==> out[i] == img[i]
        }),
{
    let entry = spec_partition_entry_bytes(p);
    let vbr = spec_vbr_bytes(v);
    let sig = seq![0x55u8, 0xAAu8];
    let a = apply_write(img, MBR_PARTITION_ENTRY_OFFSET as int, entry);
    let b = apply_write(a, MBR_SIGNATURE_OFFSET as int, sig);
    let out = apply_write(b, VBR_OFFSET as int, vbr);
    assert(entry.len() == 16);
    assert(vbr.len() == 512) by {
        crate::vbr::lemma_vbr_layout(v);
    }
    assert(out.subrange(0x1BE, 0x1CE) =~= entry);
    assert(out.subrange(0x1FE, 0x200) =~= sig);
    assert(out.subrange(0x100000, 0x100200) =~= vbr);
}

} // verus!

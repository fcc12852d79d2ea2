use fatdisk::chs::{chs_decode, chs_to_lba};
use fatdisk::fat32::fat32_partition_entry;
use fatdisk::geometry::{chs_block, detect_geometry, geometry_candidate, partition_info, partition_kind, PartitionKind};
use fatdisk::mbr::F32_1stPartition;

#[test]
fn chs_decode_splits_fields() {
    assert_eq!(chs_decode([0x00, 0x01, 0x10]), (16, 0, 1));
    assert_eq!(chs_decode([0x03, 0xA0, 0x1F]), (543, 3, 32));
    assert_eq!(chs_decode([0xFE, 0xFF, 0xFF]), (1023, 254, 63));
    assert_eq!(chs_decode([0, 0, 0]), (0, 0, 0));
}

#[test]
fn chs_to_lba_formula() {
    assert_eq!(chs_to_lba(16, 0, 1, 4, 32), 2048);
    assert_eq!(chs_to_lba(543, 3, 32, 4, 32), 69631);
    assert_eq!(chs_to_lba(0, 0, 1, 255, 63), 0);
    assert_eq!(chs_to_lba(2, 5, 7, 16, 63), (2 * 16 + 5) * 63 + 6);
}

#[test]
fn geometry_candidates_in_order() {
    let all: Vec<(u16, u16)> = (0..6).map(geometry_candidate).collect();
    assert_eq!(all, vec![(255, 63), (128, 63), (64, 32), (16, 63), (8, 32), (4, 32)]);
}

#[test]
fn detect_geometry_stops_at_first_match() {
    // cylinder 0, head 1, sector 1 is LBA 32 on a 64x32 disk
    let d = detect_geometry(0, 1, 1, 32);
    assert_eq!(d.probes.len(), 3);
    assert_eq!((d.probes[0].heads, d.probes[0].sectors, d.probes[0].lba), (255, 63, Some(63)));
    assert_eq!((d.probes[1].heads, d.probes[1].sectors, d.probes[1].lba), (128, 63, Some(63)));
    assert_eq!((d.probes[2].heads, d.probes[2].sectors, d.probes[2].lba), (64, 32, Some(32)));
    assert_eq!((d.heads_per_cylinder, d.sectors_per_track), (64, 32));
}

#[test]
fn detect_geometry_defaults_when_nothing_matches() {
    let d = detect_geometry(0, 0, 1, 12345);
    assert_eq!(d.probes.len(), 6);
    assert!(d.probes.iter().all(|p| p.lba == Some(0)));
    assert_eq!((d.heads_per_cylinder, d.sectors_per_track), (255, 63));
}

#[test]
fn partition_info_of_fat32_entry() {
    let p = fat32_partition_entry();
    let info = partition_info(&p);
    assert!(info.bootable);
    assert_eq!(info.kind, PartitionKind::Fat32);
    assert_eq!(info.start, (16, 0, 1));
    assert_eq!(info.end, (543, 3, 32));
    let lbas: Vec<Option<u32>> = info.geometry.probes.iter().map(|g| g.lba).collect();
    let expected: Vec<Option<u32>> =
        vec![16 * 255 * 63, 16 * 128 * 63, 16 * 64 * 32, 16 * 16 * 63, 16 * 8 * 32, 2048].into_iter().map(Some).collect();
    assert_eq!(lbas, expected);
    assert_eq!((info.geometry.heads_per_cylinder, info.geometry.sectors_per_track), (4, 32));
    assert_eq!(info.lba_calc, Some(2048));
    assert_eq!(info.size_bytes, 67584 * 512);
}

#[test]
fn partition_info_without_matching_geometry() {
    let p = F32_1stPartition {
        boot_flag: 0x00,
        start_chs: [0x00, 0x01, 0x00],
        part_type: 0x83,
        end_chs: [0, 0, 0],
        start_lba: 7,
        sectors: 1,
    };
    let info = partition_info(&p);
    assert!(!info.bootable);
    assert_eq!(info.kind, PartitionKind::Other);
    assert_eq!(info.geometry.probes.len(), 6);
    assert_eq!((info.geometry.heads_per_cylinder, info.geometry.sectors_per_track), (255, 63));
    assert_eq!(info.lba_calc, Some(0));
    assert_eq!(info.size_bytes, 512);
}

#[test]
fn partition_kinds() {
    assert_eq!(partition_kind(0x0B), PartitionKind::Fat32);
    assert_eq!(partition_kind(0x0C), PartitionKind::Fat32);
    assert_eq!(partition_kind(0x0E), PartitionKind::Fat16Lba);
    assert_eq!(partition_kind(0x07), PartitionKind::NtfsExfat);
    assert_eq!(partition_kind(0x83), PartitionKind::Other);
}

#[test]
fn partition_info_with_zeroed_chs() {
    let p = F32_1stPartition {
        boot_flag: 0x80,
        start_chs: [0, 0, 0],
        part_type: 0x0C,
        end_chs: [0, 0, 0],
        start_lba: 2048,
        sectors: 67584,
    };
    let info = partition_info(&p);
    assert!(info.bootable);
    assert_eq!(info.kind, PartitionKind::Fat32);
    assert_eq!(info.start, (0, 0, 0));
    assert_eq!(info.geometry.probes.len(), 6);
    assert!(info.geometry.probes.iter().all(|g| g.lba.is_none()));
    assert_eq!((info.geometry.heads_per_cylinder, info.geometry.sectors_per_track), (255, 63));
    assert_eq!(info.lba_calc, None);
    assert_eq!(info.size_bytes, 67584 * 512);
}

#[test]
fn chs_block_values() {
    assert_eq!(chs_block(16, 0, 1, 4, 32), Some(2048));
    assert_eq!(chs_block(0, 0, 0, 4, 32), None);
    assert_eq!(chs_block(65535, 255, 65535, 65535, 65535), None);
}

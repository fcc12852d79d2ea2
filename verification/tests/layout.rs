use fatdisk::fat32::{fat32_partition_entry, fat32_vbr};
use fatdisk::mbr::{inject_fat32_partition_table, F32_1stPartition, MBR_PARTITION_ENTRY_OFFSET, MBR_SIGNATURE_OFFSET};
use fatdisk::vbr::{inject_VBR, VBR_OFFSET};
use fatdisk::image::is_all_zero;

#[test]
fn partition_entry_with_zeroed_chs_matches_documented_example() {
    let p = F32_1stPartition {
        boot_flag: 0x80,
        start_chs: [0, 0, 0],
        part_type: 0x0C,
        end_chs: [0, 0, 0],
        start_lba: 2048,
        sectors: 67584,
    };
    assert_eq!(
        p.to_bytes(),
        vec![0x80, 0x00, 0x00, 0x00, 0x0C, 0x00, 0x00, 0x00, 0x00, 0x08, 0x00, 0x00, 0x00, 0x08, 0x01, 0x00]
    );
}

#[test]
fn fat32_partition_entry_bytes() {
    let p = fat32_partition_entry();
    assert_eq!(
        p.to_bytes(),
        vec![0x80, 0x00, 0x01, 0x10, 0x0C, 0x03, 0xA0, 0x1F, 0x00, 0x08, 0x00, 0x00, 0x00, 0x08, 0x01, 0x00]
    );
}

#[test]
fn partition_entry_encodes_little_endian() {
    let p = F32_1stPartition {
        boot_flag: 0x00,
        start_chs: [1, 2, 3],
        part_type: 0x07,
        end_chs: [4, 5, 6],
        start_lba: 0x12345678,
        sectors: 0xA1B2C3D4,
    };
    assert_eq!(
        p.to_bytes(),
        vec![0x00, 1, 2, 3, 0x07, 4, 5, 6, 0x78, 0x56, 0x34, 0x12, 0xD4, 0xC3, 0xB2, 0xA1]
    );
}

#[test]
fn mbr_writes_entry_and_signature() {
    let p = fat32_partition_entry();
    let w = inject_fat32_partition_table(p);
    assert_eq!(w.len(), 2);
    assert_eq!(w[0].offset, 0x1BE);
    assert_eq!(w[0].offset, MBR_PARTITION_ENTRY_OFFSET);
    assert_eq!(w[0].bytes, p.to_bytes());
    assert_eq!(w[1].offset, 0x1FE);
    assert_eq!(w[1].offset, MBR_SIGNATURE_OFFSET);
    assert_eq!(w[1].bytes, vec![0x55, 0xAA]);
}

#[test]
fn vbr_fields_at_their_offsets() {
    let b = fat32_vbr().to_bytes();
    assert_eq!(b.len(), 512);
    assert_eq!(&b[0x000..0x003], &[0xEB, 0x58, 0x90]);
    assert_eq!(&b[0x003..0x00B], b"TUSMUERT");
    assert_eq!(&b[0x00B..0x00D], &[0x00, 0x02]);
    assert_eq!(b[0x00D], 1);
    assert_eq!(&b[0x00E..0x010], &[0x20, 0x00]);
    assert_eq!(b[0x010], 2);
    assert_eq!(&b[0x011..0x015], &[0, 0, 0, 0]);
    assert_eq!(b[0x015], 0xF8);
    assert_eq!(&b[0x016..0x018], &[0, 0]);
    assert_eq!(&b[0x018..0x01A], &[0x3F, 0x00]);
    assert_eq!(&b[0x01A..0x01C], &[0x10, 0x00]);
    assert_eq!(&b[0x01C..0x020], &[0, 0, 0, 0]);
    assert_eq!(&b[0x020..0x024], &[0x00, 0x08, 0x01, 0x00]);
    assert_eq!(&b[0x024..0x028], &[0x08, 0x02, 0x00, 0x00]);
    assert_eq!(&b[0x028..0x02C], &[0, 0, 0, 0]);
    assert_eq!(&b[0x02C..0x030], &[0x02, 0, 0, 0]);
    assert_eq!(&b[0x030..0x032], &[0x01, 0x00]);
    assert_eq!(&b[0x032..0x034], &[0x06, 0x00]);
    assert!(b[0x034..0x040].iter().all(|&x| x == 0));
    assert_eq!(b[0x040], 0x80);
    assert_eq!(b[0x041], 0x00);
    assert_eq!(b[0x042], 0x29);
    assert_eq!(&b[0x043..0x047], &[0x0B, 0x11, 0x3C, 0x47]);
    assert_eq!(&b[0x047..0x052], b"TUSMUERTOS2");
    assert_eq!(&b[0x052..0x05A], b"FAT32   ");
    assert_eq!(&b[0x05A..0x062], &[0xFA; 8]);
    assert!(b[0x062..0x1FE].iter().all(|&x| x == 0));
    assert_eq!(&b[0x1FE..0x200], &[0x55, 0xAA]);
}

#[test]
fn vbr_written_at_one_mebibyte() {
    let v = fat32_vbr();
    let w = inject_VBR(v);
    assert_eq!(w.offset, 0x100000);
    assert_eq!(w.offset, VBR_OFFSET);
    assert_eq!(w.bytes, v.to_bytes());
}

#[test]
fn fat32_layout_is_consistent() {
    let p = fat32_partition_entry();
    let v = fat32_vbr();
    assert_eq!(p.start_lba as u64 * 512, VBR_OFFSET);
    assert_eq!(p.sectors, v.total_count_sectors_FAT32);
    assert_eq!((p.start_lba as u64 + p.sectors as u64) * 512, 35651584);
    let data = v.total_count_sectors_FAT32 - (v.reserved_sectors as u32 + v.number_FATs as u32 * v.sectors_per_FAT32);
    assert_eq!(data, 66512);
    assert!(data >= 65525);
    assert!(v.sectors_per_FAT32 * 512 >= (data + 2) * 4);
}

#[test]
fn writes_land_in_a_blank_minimal_image() {
    let mut img = vec![0u8; 35651584];
    let p = fat32_partition_entry();
    let v = fat32_vbr();
    let mut writes = inject_fat32_partition_table(p);
    writes.push(inject_VBR(v));
    for w in &writes {
        let off = w.offset as usize;
        img[off..off + w.bytes.len()].copy_from_slice(&w.bytes);
    }
    assert_eq!(img.len(), 35651584);
    assert_eq!(&img[0x1BE..0x1CE], &p.to_bytes()[..]);
    assert_eq!(&img[0x1FE..0x200], &[0x55, 0xAA]);
    assert_eq!(&img[0x100000..0x100200], &v.to_bytes()[..]);
    let touched = |i: usize| (0x1BE..0x1CE).contains(&i) || (0x1FE..0x200).contains(&i) || (0x100000..0x100200).contains(&i);
    let nonzero_outside: usize = (0..img.len()).filter(|&i| !touched(i) && img[i] != 0).count();
    assert_eq!(nonzero_outside, 0);
}

#[test]
fn image_with_partition_table_is_not_blank() {
    let mut img = vec![0u8; 1048576];
    for w in inject_fat32_partition_table(fat32_partition_entry()) {
        let off = w.offset as usize;
        img[off..off + w.bytes.len()].copy_from_slice(&w.bytes);
    }
    assert_eq!(img[0x1FE], 0x55);
    assert!(!is_all_zero(&img));
    assert!(!is_all_zero(&img[..8192]));
}

#[test]
fn partition_table_writes_extend_a_short_image_and_it_is_not_blank() {
    let mut img = vec![0u8; 100];
    for w in inject_fat32_partition_table(fat32_partition_entry()) {
        let off = w.offset as usize;
        if img.len() < off + w.bytes.len() {
            img.resize(off + w.bytes.len(), 0);
        }
        img[off..off + w.bytes.len()].copy_from_slice(&w.bytes);
    }
    assert_eq!(img.len(), 512);
    assert_eq!(img[0x1FE], 0x55);
    assert!(!is_all_zero(&img));
}

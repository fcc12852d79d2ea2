//! Building blocks for preparing a raw disk image that holds a single FAT32
//! partition: sizing the image, naming it, checking that it is blank, and
//! encoding the MBR partition entry and the FAT32 volume boot record.

pub mod bytes;
pub mod chs;
pub mod mbr;
pub mod vbr;
pub mod fat32;
pub mod image;
pub mod naming;
pub mod geometry;

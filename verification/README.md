# fatdisk

A verified library for preparing a raw disk image that holds one FAT32
partition, and a small command-line front end.

- `src/` (verified with Verus): CHS decoding and CHS→LBA conversion (`chs`),
  little-endian encodings (`bytes`), the MBR partition entry (`mbr`), the
  FAT32 volume boot record (`vbr`), the fixed FAT32 layout and its consistency
  laws (`fat32`), image sizing, validation, blank check and zero-fill
  chunking (`image`), free-name search (`naming`) and geometry detection with
  the partition summary (`geometry`).
- `app/`: argument parsing, file-system access and printing. Subcommand
  `emptydisk01` creates a zero-filled image; `fatstructure02` checks an image
  and writes the partition entry, the boot signature and the volume boot record.
- `tests/`: tests of the library on concrete values.

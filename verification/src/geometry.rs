//! Recovering the disk geometry behind a partition entry's CHS addresses,
//! and the facts a report on a partition entry is made of.

use vstd::prelude::*;
use crate::chs::{chs_decode, chs_to_lba, spec_chs_cylinder, spec_chs_head, spec_chs_sector, spec_chs_to_lba};
use crate::mbr::F32_1stPartition;

verus! {

/// Number of geometries tried when detecting the geometry of a partition.
pub const GEOMETRY_CANDIDATES: usize = 6;

/// The `k`-th geometry tried, as (heads per cylinder, sectors per track):
/// (255, 63), (128, 63), (64, 32), (16, 63), (8, 32), (4, 32).
pub open spec fn spec_geometry_candidate(k: int) -> (u16, u16) {
    if k == 0 {
        (255, 63)
    } else if k == 1 {
        (128, 63)
    } else if k == 2 {
        (64, 32)
    } else if k == 3 {
        (16, 63)
    } else if k == 4 {
        (8, 32)
    } else {
        (4, 32)
    }
}

/// The geometry assumed when none of the candidates matches: (255, 63).
pub open spec fn spec_default_geometry() -> (u16, u16) {
    (255, 63)
}

/// The block that CHS address (`c`, `h`, `s`) names on a disk with `heads`
/// heads per cylinder and `sectors` sectors per track; none when the sector is
/// 0 (sectors count from 1) or the block number does not fit in 32 bits.
pub open spec fn spec_chs_block(c: u16, h: u8, s: u16, heads: u16, sectors: u16) -> Option<u32> {
    let v = spec_chs_to_lba(c as int, h as int, s as int, heads as int, sectors as int);
    if s == 0 || v > u32::MAX {
        None
    } else {
        Some(v as u32)
    }
}

/// The block that CHS address (`c`, `h`, `s`) names under the `k`-th candidate geometry.
pub open spec fn spec_candidate_lba(c: u16, h: u8, s: u16, k: int) -> Option<u32> {
    spec_chs_block(c, h, s, spec_geometry_candidate(k).0, spec_geometry_candidate(k).1)
}

/// Index of the first candidate, from `k` on, under which (`c`, `h`, `s`) is
/// block `lba`; `GEOMETRY_CANDIDATES` when there is none.
pub open spec fn spec_first_matching_geometry(c: u16, h: u8, s: u16, lba: u32, k: int) -> int
    decreases GEOMETRY_CANDIDATES - k,
{
    if k >= GEOMETRY_CANDIDATES {
        GEOMETRY_CANDIDATES as int
    } else if spec_candidate_lba(c, h, s, k) == Some(lba) {
        k
    } else {
        spec_first_matching_geometry(c, h, s, lba, k + 1)
    }
}

/// The `k`-th geometry tried.
pub fn geometry_candidate(k: usize) -> (g: (u16, u16))
    requires
        k < GEOMETRY_CANDIDATES,
    ensures
        g == spec_geometry_candidate(k as int),
{
    if k == 0 {
        (255, 63)
    } else if k == 1 {
        (128, 63)
    } else if k == 2 {
        (64, 32)
    } else if k == 3 {
        (16, 63)
    } else if k == 4 {
        (8, 32)
    } else {
        (4, 32)
    }
}

/// The block that CHS address (`c`, `h`, `s`) names under the given geometry
/// (see [`spec_chs_block`]).
pub fn chs_block(c: u16, h: u8, s: u16, heads: u16, sectors: u16) -> (r: Option<u32>)
    ensures
        r == spec_chs_block(c, h, s, heads, sectors),
{
    if s == 0 {
        return None;
    }
    assert((c * heads + h) * sectors + (s - 1) <= (65535 * 65535 + 255) * 65535 + 65534) by (nonlinear_arith)
        requires 0 <= c <= 65535, 0 <= heads <= 65535, 0 <= h <= 255, 0 <= sectors <= 65535, 1 <= s <= 65535;
    assert(c * heads <= 65535 * 65535) by (nonlinear_arith)
        requires 0 <= c <= 65535, 0 <= heads <= 65535;
    assert((c * heads + h) * sectors <= (65535 * 65535 + 255) * 65535) by (nonlinear_arith)
        requires 0 <= c <= 65535, 0 <= heads <= 65535, 0 <= h <= 255, 0 <= sectors <= 65535;
    let v: u64 = (c as u64 * heads as u64 + h as u64) * sectors as u64 + (s as u64 - 1);
    if v > 0xFFFF_FFFF {
        None
    } else {
        Some(chs_to_lba(c, h, s, heads, sectors))
    }
}

/// One geometry tried and the block it gives for the start address (none when
/// the start address has sector 0).
#[derive(Debug, Clone, Copy, PartialEq, Eq)]
pub struct GeometryProbe {
    pub heads: u16,
    pub sectors: u16,
    pub lba: Option<u32>,
}

/// The geometries tried, in order, up to and including the first match, and
/// the geometry settled on.
pub struct GeometryDetection {
    pub probes: Vec<GeometryProbe>,
    pub heads_per_cylinder: u16,
    pub sectors_per_track: u16,
}

/// Under any candidate geometry a CHS address with a sector of at least 1
/// names the block given by the CHS formula, which fits in 32 bits; with
/// sector 0 it names none.
pub proof fn lemma_candidate_lba(c: u16, h: u8, s: u16, k: int)
    ensures
        s == 0 ==> spec_candidate_lba(c, h, s, k) is None,
        s >= 1 ==> {
            let v = spec_chs_to_lba(c as int, h as int, s as int, spec_geometry_candidate(k).0 as int, spec_geometry_candidate(k).1 as int);
            &&& v <= 1052901374
            &&& spec_candidate_lba(c, h, s, k) == Some(v as u32)
        },
{
    let g = spec_geometry_candidate(k);
    assert(g.0 <= 255 && g.1 <= 63);
    let heads = g.0 as int;
    let spt = g.1 as int;
    if s >= 1 {
        assert((c * heads + h) * spt + (s - 1) <= (65535 * 255 + 255) * 63 + 65534) by (nonlinear_arith)
            requires 0 <= c <= 65535, 0 <= heads <= 255, 0 <= h <= 255, 0 <= spt <= 63, 1 <= s <= 65535;
    }
}

/// Tries the candidate geometries in order and settles on the first under
/// which (`c`, `h`, `s`) is block `start_lba`, or on (255, 63) when none is.
pub fn detect_geometry(c: u16, h: u8, s: u16, start_lba: u32) -> (d: GeometryDetection)
    ensures
        ({
            let first = spec_first_matching_geometry(c, h, s, start_lba, 0);
            &&& d.probes@.len() == if first < GEOMETRY_CANDIDATES { first + 1 } else { GEOMETRY_CANDIDATES as int }
            &&& forall|k: int| 0 <= k < d.probes@.len() ==> {
                &&& (#[trigger] d.probes@[k]).heads == spec_geometry_candidate(k).0
                &&& d.probes@[k].sectors == spec_geometry_candidate(k).1
                &&& d.probes@[k].lba == spec_candidate_lba(c, h, s, k)
            }
            &&& (d.heads_per_cylinder, d.sectors_per_track) == if first < GEOMETRY_CANDIDATES {
                spec_geometry_candidate(first)
            } else {
                spec_default_geometry()
            }
        }),
{
    let mut probes: Vec<GeometryProbe> = Vec::new();
    let mut detected: (u16, u16) = (255, 63);
    let mut k: usize = 0;
    while k < GEOMETRY_CANDIDATES
        invariant_except_break
            k <= GEOMETRY_CANDIDATES,
            probes@.len() == k,
            detected == spec_default_geometry(),
            spec_first_matching_geometry(c, h, s, start_lba, 0) == spec_first_matching_geometry(c, h, s, start_lba, k as int),
        invariant
            forall|j: int| 0 <= j < probes@.len() ==> {
                &&& (#[trigger] probes@[j]).heads == spec_geometry_candidate(j).0
                &&& probes@[j].sectors == spec_geometry_candidate(j).1
                &&& probes@[j].lba == spec_candidate_lba(c, h, s, j)
            },
        ensures
            ({
                let first = spec_first_matching_geometry(c, h, s, start_lba, 0);
                &&& probes@.len() == if first < GEOMETRY_CANDIDATES { first + 1 } else { GEOMETRY_CANDIDATES as int }
                &&& detected == if first < GEOMETRY_CANDIDATES {
                    spec_geometry_candidate(first)
                } else {
                    spec_default_geometry()
                }
            }),
        decreases GEOMETRY_CANDIDATES - k,
    {
        let (heads, sectors) = geometry_candidate(k);
        let lba = chs_block(c, h, s, heads, sectors);
        probes.push(GeometryProbe { heads, sectors, lba });
        if lba == Some(start_lba) {
            detected = (heads, sectors);
            break;
        }
        k = k + 1;
    }
    GeometryDetection { probes, heads_per_cylinder: detected.0, sectors_per_track: detected.1 }
}

/// What the partition type byte says.
#[derive(Debug, Clone, Copy, PartialEq, Eq)]
pub enum PartitionKind {
    /// 0x0B or 0x0C.
    Fat32,
    /// 0x0E.
    Fat16Lba,
    /// 0x07.
    NtfsExfat,
    /// Any other value.
    Other,
}

/// The kind named by partition type byte `t`.
pub open spec fn spec_partition_kind(t: u8) -> PartitionKind {
    if t == 0x0B || t == 0x0C {
        PartitionKind::Fat32
    } else if t == 0x0E {
        PartitionKind::Fat16Lba
    } else if t == 0x07 {
        PartitionKind::NtfsExfat
    } else {
        PartitionKind::Other
    }
}

/// Classifies a partition type byte.
pub fn partition_kind(part_type: u8) -> (k: PartitionKind)
    ensures
        k == spec_partition_kind(part_type),
        (k == PartitionKind::Fat32) <==> (part_type == 0x0B || part_type == 0x0C),
        (k == PartitionKind::Fat16Lba) <==> (part_type == 0x0E),
        (k == PartitionKind::NtfsExfat) <==> (part_type == 0x07),
        (k == PartitionKind::Other) <==> !(part_type == 0x0B || part_type == 0x0C || part_type == 0x0E || part_type == 0x07),
{
    proof {
        lemma_partition_kind_by_type_byte(part_type);
    }
    match part_type {
        0x0B | 0x0C => PartitionKind::Fat32,
        0x0E => PartitionKind::Fat16Lba,
        0x07 => PartitionKind::NtfsExfat,
        _ => PartitionKind::Other,
    }
}

/// The geometries are tried in the order (255, 63), (128, 63), (64, 32),
/// (16, 63), (8, 32), (4, 32), and (255, 63) is settled on when none matches.
pub proof fn lemma_geometry_candidates_in_order()
    ensures
        spec_geometry_candidate(0) == (255u16, 63u16),
        spec_geometry_candidate(1) == (128u16, 63u16),
        spec_geometry_candidate(2) == (64u16, 32u16),
        spec_geometry_candidate(3) == (16u16, 63u16),
        spec_geometry_candidate(4) == (8u16, 32u16),
        spec_geometry_candidate(5) == (4u16, 32u16),
        spec_default_geometry() == (255u16, 63u16),
        GEOMETRY_CANDIDATES == 6,
{
}

/// Which type bytes name which kind: FAT32 exactly for 0x0B and 0x0C, FAT16
/// with LBA exactly for 0x0E, NTFS/exFAT exactly for 0x07, and every other of
/// the 256 byte values (0x8E, 0x1C, 0xFB, ...) names another kind.
pub proof fn lemma_partition_kind_by_type_byte(t: u8)
    ensures
        (spec_partition_kind(t) == PartitionKind::Fat32) <==> (t == 0x0B || t == 0x0C),
        (spec_partition_kind(t) == PartitionKind::Fat16Lba) <==> (t == 0x0E),
        (spec_partition_kind(t) == PartitionKind::NtfsExfat) <==> (t == 0x07),
        (spec_partition_kind(t) == PartitionKind::Other) <==> !(t == 0x0B || t == 0x0C || t == 0x0E || t == 0x07),
{
}

/// The facts reported about a partition entry.
pub struct PartitionInfo {
    pub bootable: bool,
    pub kind: PartitionKind,
    /// Decoded start address (cylinder, head, sector).
    pub start: (u16, u8, u16),
    /// Decoded end address (cylinder, head, sector).
    pub end: (u16, u8, u16),
    /// The geometries tried and the one settled on.
    pub geometry: GeometryDetection,
    /// The start LBA computed from the start address under that geometry
    /// (none when the start address has sector 0).
    pub lba_calc: Option<u32>,
    /// Size of the partition in bytes.
    pub size_bytes: u64,
}

/// Decodes a partition entry: whether it is bootable, its kind, its CHS
/// addresses, the geometry under which its start address matches its start
/// LBA, the start LBA that geometry gives, and its size in bytes. A start
/// address with sector 0 (as in an entry whose CHS fields are left zeroed)
/// names no block, so no geometry matches and (255, 63) is settled on.
pub fn partition_info(p: &F32_1stPartition) -> (info: PartitionInfo)
    ensures
        info.bootable == (p.boot_flag == 0x80),
        info.kind == spec_partition_kind(p.part_type),
        info.start.0 == spec_chs_cylinder(p.start_chs@),
        info.start.1 == spec_chs_head(p.start_chs@),
        info.start.2 == spec_chs_sector(p.start_chs@),
        info.end.0 == spec_chs_cylinder(p.end_chs@),
        info.end.1 == spec_chs_head(p.end_chs@),
        info.end.2 == spec_chs_sector(p.end_chs@),
        ({
            let first = spec_first_matching_geometry(info.start.0, info.start.1, info.start.2, p.start_lba, 0);
            let d = info.geometry;
            &&& d.probes@.len() == if first < GEOMETRY_CANDIDATES { first + 1 } else { GEOMETRY_CANDIDATES as int }
            &&& forall|k: int| 0 <= k < d.probes@.len() ==> {
                &&& (#[trigger] d.probes@[k]).heads == spec_geometry_candidate(k).0
                &&& d.probes@[k].sectors == spec_geometry_candidate(k).1
                &&& d.probes@[k].lba == spec_candidate_lba(info.start.0, info.start.1, info.start.2, k)
            }
            &&& (d.heads_per_cylinder, d.sectors_per_track) == if first < GEOMETRY_CANDIDATES {
                spec_geometry_candidate(first)
            } else {
                spec_default_geometry()
            }
        }),
        info.lba_calc == spec_chs_block(
            info.start.0,
            info.start.1,
            info.start.2,
            info.geometry.heads_per_cylinder,
            info.geometry.sectors_per_track,
        ),
        info.size_bytes == p.sectors * 512,
{
    let bootable = p.boot_flag == 0x80;
    let kind = partition_kind(p.part_type);
    let (start_c, start_h, start_s) = chs_decode(p.start_chs);
    let (end_c, end_h, end_s) = chs_decode(p.end_chs);
    let geometry = detect_geometry(start_c, start_h, start_s, p.start_lba);
    let heads_per_cylinder = geometry.heads_per_cylinder;
    let sectors_per_track = geometry.sectors_per_track;
    let lba_calc = chs_block(start_c, start_h, start_s, heads_per_cylinder, sectors_per_track);
    let size_bytes = p.sectors as u64 * 512;
    PartitionInfo {
        bootable,
        kind,
        start: (start_c, start_h, start_s),
        end: (end_c, end_h, end_s),
        geometry,
        lba_calc,
        size_bytes,
    }
}

/// When a candidate geometry matches, the start LBA computed from the start
/// CHS address by the CHS formula is the partition's start LBA field; when the
/// start address has sector 0, no candidate matches.
pub proof fn lemma_detected_geometry_reproduces_lba(c: u16, h: u8, s: u16, start_lba: u32)
    ensures
        ({
            let first = spec_first_matching_geometry(c, h, s, start_lba, 0);
            &&& first < GEOMETRY_CANDIDATES ==> s >= 1 && spec_chs_to_lba(
                c as int,
                h as int,
                s as int,
                spec_geometry_candidate(first).0 as int,
                spec_geometry_candidate(first).1 as int,
            ) == start_lba
            &&& s == 0 ==> first == GEOMETRY_CANDIDATES
        }),
{
    lemma_first_matching_geometry(c, h, s, start_lba, 0);
    let first = spec_first_matching_geometry(c, h, s, start_lba, 0);
    if first < GEOMETRY_CANDIDATES {
        lemma_candidate_lba(c, h, s, first);
    }
}

/// The search finds the first candidate from `k` on that matches, or none.
pub proof fn lemma_first_matching_geometry(c: u16, h: u8, s: u16, lba: u32, k: int)
    requires
        0 <= k,
    ensures
        ({
            let first = spec_first_matching_geometry(c, h, s, lba, k);
            &&& k <= first || first == GEOMETRY_CANDIDATES
            &&& first <= GEOMETRY_CANDIDATES
            &&& first < GEOMETRY_CANDIDATES ==> spec_candidate_lba(c, h, s, first) == Some(lba)
            &&& forall|j: int| k <= j < first ==> spec_candidate_lba(c, h, s, j) != Some(lba)
        }),
    decreases GEOMETRY_CANDIDATES - k,
{
    if k < GEOMETRY_CANDIDATES && spec_candidate_lba(c, h, s, k) != Some(lba) {
        lemma_first_matching_geometry(c, h, s, lba, k + 1);
    }
}

} // verus!

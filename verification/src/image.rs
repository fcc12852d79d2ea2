//! Sizing, validating and blank-checking a raw disk image.

use vstd::prelude::*;
use crate::bytes::zeros;

verus! {

/// One mebibyte.
pub const MIB: u64 = 1048576;

/// Bytes in a sector.
pub const SECTOR_SIZE: u64 = 512;

/// The smallest image that holds the FAT32 partition: 34 MiB.
pub const MIN_FAT32_IMAGE_BYTES: u64 = 35651584;

/// Largest number of zero bytes written at once while filling an image.
pub const ZERO_FILL_BUF_SIZE: u64 = 1048576;

/// Bytes in a new image of `size_mb` mebibytes, rounded down to whole sectors
/// (a whole number of mebibytes always is).
pub fn aligned_image_bytes(size_mb: u64) -> (r: u64)
    requires
        size_mb * MIB <= u64::MAX,
    ensures
        r == size_mb * MIB,
        r == size_mb * 1048576,
        r % 512 == 0,
        r % SECTOR_SIZE == 0,
{
    let bytes = size_mb * 1024 * 1024;
    let aligned_bytes = (bytes / 512) * 512;
    assert(bytes == size_mb * MIB);
    assert(bytes % 512 == 0) by (nonlinear_arith)
        requires bytes == size_mb * 1048576;
    assert(aligned_bytes == bytes) by (nonlinear_arith)
        requires aligned_bytes == (bytes / 512) * 512, bytes % 512 == 0;
    aligned_bytes
}

/// Why an image file is not fit to receive the FAT32 structures.
#[derive(Debug, Clone, Copy, PartialEq, Eq)]
pub enum ImageSizeError {
    /// The file is empty.
    Empty,
    /// The size is not a multiple of 1 MiB.
    NotMultipleOfMiB,
    /// The size is not a multiple of 512 bytes.
    NotSectorAligned,
    /// The size is under 34 MiB.
    TooSmall,
}

/// The outcome of checking an image of `len` bytes, the checks taken in order.
pub open spec fn spec_validate_file(len: u64) -> Result<(), ImageSizeError> {
    if len == 0 {
        Err(ImageSizeError::Empty)
    } else if len % MIB != 0 {
        Err(ImageSizeError::NotMultipleOfMiB)
    } else if len % SECTOR_SIZE != 0 {
        Err(ImageSizeError::NotSectorAligned)
    } else if len < MIN_FAT32_IMAGE_BYTES {
        Err(ImageSizeError::TooSmall)
    } else {
        Ok(())
    }
}

/// Checks that an image of `real_file_size` bytes is non-empty, a whole number
/// of mebibytes, sector aligned and at least 34 MiB.
pub fn validate_file(real_file_size: u64) -> (r: Result<(), ImageSizeError>)
    ensures
        r == spec_validate_file(real_file_size),
        r is Ok <==> (real_file_size % MIB == 0 && real_file_size >= MIN_FAT32_IMAGE_BYTES),
        r is Ok <==> (real_file_size % 1048576 == 0 && real_file_size >= 34 * 1048576),
        r == Err::<(), ImageSizeError>(ImageSizeError::Empty) <==> real_file_size == 0,
        r == Err::<(), ImageSizeError>(ImageSizeError::NotMultipleOfMiB) <==> (real_file_size != 0 && real_file_size % 1048576 != 0),
        r == Err::<(), ImageSizeError>(ImageSizeError::TooSmall) <==> (real_file_size % 1048576 == 0 && 0 < real_file_size < 34 * 1048576),
{
    proof {
        if real_file_size % MIB == 0 {
            lemma_mib_multiple_is_sector_aligned(real_file_size);
        }
    }
    if real_file_size == 0 {
        return Err(ImageSizeError::Empty);
    }
    if real_file_size % (1024 * 1024) != 0 {
        return Err(ImageSizeError::NotMultipleOfMiB);
    }
    if real_file_size % 512 != 0 {
        return Err(ImageSizeError::NotSectorAligned);
    }
    if real_file_size < 35651584 {
        return Err(ImageSizeError::TooSmall);
    }
    Ok(())
}

/// A whole number of mebibytes is always sector aligned, so the sector check
/// never fails on its own.
pub proof fn lemma_mib_multiple_is_sector_aligned(len: u64)
    requires
        len % MIB == 0,
    ensures
        len % SECTOR_SIZE == 0,
        spec_validate_file(len) != Err::<(), ImageSizeError>(ImageSizeError::NotSectorAligned),
{
    assert(len % 512 == 0) by (nonlinear_arith)
        requires len % 1048576 == 0;
}

/// An image made with a size of `size_mb` mebibytes passes validation exactly
/// when `size_mb` is at least 34; smaller non-empty images are too small.
pub proof fn lemma_created_image_validates(size_mb: u64)
    requires
        size_mb * MIB <= u64::MAX,
    ensures
        size_mb >= 34 ==> spec_validate_file((size_mb * MIB) as u64) is Ok,
        size_mb == 0 ==> spec_validate_file((size_mb * MIB) as u64) == Err::<(), ImageSizeError>(ImageSizeError::Empty),
        0 < size_mb < 34 ==> spec_validate_file((size_mb * MIB) as u64) == Err::<(), ImageSizeError>(ImageSizeError::TooSmall),
{
    let len = (size_mb * MIB) as u64;
    assert(len % MIB == 0) by (nonlinear_arith)
        requires len == size_mb * 1048576;
    lemma_mib_multiple_is_sector_aligned(len);
    assert(size_mb >= 34 ==> len >= MIN_FAT32_IMAGE_BYTES) by (nonlinear_arith)
        requires len == size_mb * 1048576;
    assert(size_mb < 34 ==> len < MIN_FAT32_IMAGE_BYTES) by (nonlinear_arith)
        requires len == size_mb * 1048576;
    assert(size_mb > 0 ==> len > 0) by (nonlinear_arith)
        requires len == size_mb * 1048576;
}

/// Every byte of `b` is zero.
pub open spec fn all_zero(b: Seq<u8>) -> bool {
    forall|i: int| 0 <= i < b.len() ==> b[i] == 0
}

/// Whether every byte of `buffer` is zero.
pub fn is_all_zero(buffer: &[u8]) -> (r: bool)
    ensures
        r == all_zero(buffer@),
{
    let mut i: usize = 0;
    while i < buffer.len()
        invariant
            i <= buffer@.len(),
            forall|j: int| 0 <= j < i ==> buffer@[j] == 0,
        decreases buffer@.len() - i,
    {
        if buffer[i] != 0 {
            return false;
        }
        i = i + 1;
    }
    true
}

/// A file read in pieces is all zero exactly when each piece is.
pub proof fn lemma_all_zero_concat(a: Seq<u8>, b: Seq<u8>)
    ensures
        all_zero(a + b) == (all_zero(a) && all_zero(b)),
{
    if all_zero(a + b) {
        assert forall|i: int| 0 <= i < a.len() implies a[i] == 0 by {
            assert((a + b)[i] == a[i]);
        }
        assert forall|i: int| 0 <= i < b.len() implies b[i] == 0 by {
            assert((a + b)[a.len() + i] == b[i]);
        }
    }
}

/// One step of filling an image with zeros when `remaining` bytes are still
/// to be written: how many zero bytes to write now, and how many remain after
/// them. The fill is done when no bytes remain.
pub fn zero_fill_step(remaining: u64) -> (r: (u64, u64))
    ensures
        r.0 == if remaining < ZERO_FILL_BUF_SIZE { remaining } else { ZERO_FILL_BUF_SIZE },
        r.1 == remaining - r.0,
        remaining > 0 ==> r.1 < remaining,
        remaining > 0 ==> zero_fill_output(remaining as nat) == zeros(r.0 as nat) + zero_fill_output(r.1 as nat),
{
    let chunk = if remaining < ZERO_FILL_BUF_SIZE {
        remaining
    } else {
        ZERO_FILL_BUF_SIZE
    };
    (chunk, remaining - chunk)
}

/// The chunk sizes written while filling `remaining` bytes with zeros.
pub open spec fn zero_fill_chunks(remaining: nat) -> Seq<nat>
    decreases remaining,
{
    if remaining == 0 {
        Seq::empty()
    } else {
        let chunk: nat = if remaining < ZERO_FILL_BUF_SIZE { remaining } else { ZERO_FILL_BUF_SIZE as nat };
        seq![chunk] + zero_fill_chunks((remaining - chunk) as nat)
    }
}

/// The sum of a sequence of sizes.
pub open spec fn total(s: Seq<nat>) -> nat
    decreases s.len(),
{
    if s.len() == 0 {
        0
    } else {
        s[0] + total(s.subrange(1, s.len() as int))
    }
}

/// Filling an image of `size` bytes writes exactly `size` bytes, in
/// `ceil(size / 1 MiB)` chunks of at most 1 MiB, none of them empty.
pub proof fn lemma_zero_fill_total(size: nat)
    ensures
        total(zero_fill_chunks(size)) == size,
        zero_fill_chunks(size).len() == (size + ZERO_FILL_BUF_SIZE - 1) / (ZERO_FILL_BUF_SIZE as int),
        forall|i: int| 0 <= i < zero_fill_chunks(size).len()
            ==> 0 < #[trigger] zero_fill_chunks(size)[i] <= ZERO_FILL_BUF_SIZE,
    decreases size,
{
    if size > 0 {
        let chunk: nat = if size < ZERO_FILL_BUF_SIZE { size } else { ZERO_FILL_BUF_SIZE as nat };
        let rest = (size - chunk) as nat;
        lemma_zero_fill_total(rest);
        let s = zero_fill_chunks(size);
        assert(s.subrange(1, s.len() as int) =~= zero_fill_chunks(rest));
        assert forall|i: int| 0 <= i < s.len() implies 0 < #[trigger] s[i] <= ZERO_FILL_BUF_SIZE by {
            if i > 0 {
                assert(s[i] == zero_fill_chunks(rest)[i - 1]);
            }
        }
    }
}

/// The bytes written while filling `remaining` bytes with zeros, chunk by chunk.
pub open spec fn zero_fill_output(remaining: nat) -> Seq<u8>
    decreases remaining,
{
    if remaining == 0 {
        Seq::empty()
    } else {
        let chunk: nat = if remaining < ZERO_FILL_BUF_SIZE { remaining } else { ZERO_FILL_BUF_SIZE as nat };
        zeros(chunk) + zero_fill_output((remaining - chunk) as nat)
    }
}

/// A new image is blank: filling `size` bytes writes `size` zero bytes, so
/// every piece of the image, however it is read back, is all zero and passes
/// the blank check.
pub proof fn lemma_created_image_is_blank(size: nat)
    ensures
        zero_fill_output(size).len() == size,
        all_zero(zero_fill_output(size)),
        forall|i: int, j: int| 0 <= i <= j <= size ==> #[trigger] all_zero(zero_fill_output(size).subrange(i, j)),
    decreases size,
{
    if size > 0 {
        let chunk: nat = if size < ZERO_FILL_BUF_SIZE { size } else { ZERO_FILL_BUF_SIZE as nat };
        let rest = (size - chunk) as nat;
        lemma_created_image_is_blank(rest);
        let head = zeros(chunk);
        lemma_all_zero_concat(head, zero_fill_output(rest));
    }
    let out = zero_fill_output(size);
    assert forall|i: int, j: int| 0 <= i <= j <= size implies #[trigger] all_zero(out.subrange(i, j)) by {
        assert forall|k: int| 0 <= k < out.subrange(i, j).len() implies out.subrange(i, j)[k] == 0 by {
            assert(out.subrange(i, j)[k] == out[i + k]);
        }
    }
}

} // verus!

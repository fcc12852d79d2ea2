use fatdisk::image::{aligned_image_bytes, is_all_zero, validate_file, zero_fill_step, ImageSizeError};

#[test]
fn image_size_in_bytes() {
    assert_eq!(aligned_image_bytes(34), 35651584);
    assert_eq!(aligned_image_bytes(5), 5 * 1024 * 1024);
    assert_eq!(aligned_image_bytes(0), 0);
}

#[test]
fn validate_file_errors_in_order() {
    assert_eq!(validate_file(0), Err(ImageSizeError::Empty));
    assert_eq!(validate_file(512), Err(ImageSizeError::NotMultipleOfMiB));
    assert_eq!(validate_file(35651584 + 512), Err(ImageSizeError::NotMultipleOfMiB));
    assert_eq!(validate_file(33 * 1048576), Err(ImageSizeError::TooSmall));
    assert_eq!(validate_file(1048576), Err(ImageSizeError::TooSmall));
    assert_eq!(validate_file(35651584), Ok(()));
    assert_eq!(validate_file(64 * 1048576), Ok(()));
}

#[test]
fn created_images_validate_from_34_mib() {
    assert_eq!(validate_file(aligned_image_bytes(34)), Ok(()));
    assert_eq!(validate_file(aligned_image_bytes(33)), Err(ImageSizeError::TooSmall));
    assert_eq!(validate_file(aligned_image_bytes(0)), Err(ImageSizeError::Empty));
}

#[test]
fn all_zero_check() {
    assert!(is_all_zero(&[]));
    assert!(is_all_zero(&[0u8; 8192]));
    let mut b = [0u8; 8192];
    b[8191] = 1;
    assert!(!is_all_zero(&b));
    // a buffer is all zero exactly when both of its halves are
    assert!(!(is_all_zero(&b[..4096]) && is_all_zero(&b[4096..])));
}

#[test]
fn zero_fill_chunks_cover_the_image() {
    assert_eq!(zero_fill_step(0), (0, 0));
    assert_eq!(zero_fill_step(10), (10, 0));
    assert_eq!(zero_fill_step(1048576), (1048576, 0));
    assert_eq!(zero_fill_step(5 * 1048576 + 3), (1048576, 4 * 1048576 + 3));
    let mut remaining: u64 = 3 * 1048576 + 1;
    let mut written: u64 = 0;
    let mut chunks = 0;
    while remaining > 0 {
        let (c, rest) = zero_fill_step(remaining);
        written += c;
        remaining = rest;
        chunks += 1;
    }
    assert_eq!(written, 3 * 1048576 + 1);
    assert_eq!(chunks, 4);
}

#[test]
fn filled_image_passes_blank_check_in_pieces() {
    let size: u64 = 2 * 1048576 + 100;
    let mut image: Vec<u8> = Vec::new();
    let mut remaining = size;
    while remaining > 0 {
        let (c, rest) = zero_fill_step(remaining);
        image.extend(std::iter::repeat(0u8).take(c as usize));
        remaining = rest;
    }
    assert_eq!(image.len() as u64, size);
    assert!(image.chunks(8192).all(is_all_zero));
}

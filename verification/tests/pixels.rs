use virtio_gpu::pixels::{copy_prefix, copy_rows, rect_bytes, scatter, BYTES_PER_PIXEL};

fn numbered(len: usize) -> Vec<u8> {
    (0..len).map(|i| i as u8 + 1).collect()
}

#[test]
fn pixels_have_four_bytes() {
    assert_eq!(BYTES_PER_PIXEL, 4);
}

#[test]
fn prefix_is_as_long_as_both() {
    let mut frame = [9u8; 4];
    copy_prefix(&mut frame, &[1, 2]);
    assert_eq!(frame, [1, 2, 9, 9]);
    copy_prefix(&mut frame, &[5, 6, 7, 8, 9, 10]);
    assert_eq!(frame, [5, 6, 7, 8]);
    copy_prefix(&mut frame, &[]);
    assert_eq!(frame, [5, 6, 7, 8]);
}

#[test]
fn packed_rows_fill_the_frame() {
    let src = numbered(16);
    let mut frame = vec![0u8; 16];
    copy_rows(&mut frame, &src, 2, 2, 8);
    assert_eq!(frame, src);
}

#[test]
fn padding_of_source_rows_is_skipped() {
    let src = numbered(24);
    let mut frame = vec![0u8; 16];
    copy_rows(&mut frame, &src, 2, 2, 12);
    assert_eq!(frame[..8], src[..8]);
    assert_eq!(frame[8..], src[12..20]);
}

#[test]
fn short_source_rows_leave_the_rest() {
    let src = numbered(8);
    let mut frame = vec![0u8; 16];
    copy_rows(&mut frame, &src, 2, 2, 4);
    assert_eq!(frame, vec![1, 2, 3, 4, 0, 0, 0, 0, 5, 6, 7, 8, 0, 0, 0, 0]);
}

#[test]
fn rows_that_do_not_fit_are_left() {
    let src = numbered(15);
    let mut frame = vec![0u8; 16];
    copy_rows(&mut frame, &src, 2, 2, 8);
    assert_eq!(frame[..8], src[..8]);
    assert_eq!(frame[8..], [0u8; 8]);
    let src = numbered(16);
    let mut frame = vec![0u8; 9];
    copy_rows(&mut frame, &src, 2, 2, 8);
    assert_eq!(frame, vec![1, 2, 3, 4, 5, 6, 7, 8, 0]);
}

#[test]
fn no_rows_and_no_columns_copy_nothing() {
    let src = numbered(16);
    let mut frame = vec![0u8; 16];
    copy_rows(&mut frame, &src, 2, 0, 8);
    copy_rows(&mut frame, &src, 0, 2, 8);
    copy_rows(&mut frame, &src, 2, u32::MAX, 0);
    assert_eq!(frame, vec![0u8; 16]);
}

#[test]
fn whole_buffer_is_scattered() {
    let mut shadow = vec![0u8; 24];
    let region = numbered(24);
    scatter(&mut shadow, &region, 3, 2, 0, 0, 3, 2);
    assert_eq!(shadow, region);
}

#[test]
fn rectangle_lands_at_its_place() {
    // A buffer of 3 by 3 pixels; the pixel in the middle of the last two rows.
    let mut shadow = vec![0u8; 36];
    let region = numbered(16);
    scatter(&mut shadow, &region, 3, 3, 1, 1, 1, 2);
    let mut expected = vec![0u8; 36];
    expected[16..20].copy_from_slice(&region[0..4]);
    expected[28..32].copy_from_slice(&region[12..16]);
    assert_eq!(shadow, expected);
}

#[test]
fn rectangle_is_clipped() {
    let region = numbered(16);
    let mut shadow = vec![0u8; 24];
    scatter(&mut shadow, &region, 3, 2, 2, 1, 7, 2);
    let mut expected = vec![0u8; 24];
    expected[20..24].copy_from_slice(&region[0..4]);
    assert_eq!(shadow, expected);
    let mut shadow = vec![0u8; 24];
    scatter(&mut shadow, &numbered(12), 3, 2, 3, 0, 1, 2);
    scatter(&mut shadow, &numbered(24), 3, 2, 0, 2, 3, 2);
    scatter(&mut shadow, &numbered(12), 3, 2, u32::MAX, u32::MAX, u32::MAX, 2);
    assert_eq!(shadow, vec![0u8; 24]);
}

#[test]
fn rectangle_ends_with_its_last_pixel() {
    assert_eq!(rect_bytes(3, 0, 3, 2), 24);
    assert_eq!(rect_bytes(3, 1, 1, 2), 16);
    assert_eq!(rect_bytes(3, 1, 9, 1), 8);
    assert_eq!(rect_bytes(3, 3, 1, 2), 12);
    assert_eq!(rect_bytes(3, 0, 3, 0), 0);
    assert_eq!(rect_bytes(0, 0, 3, 2), 0);
    let max = u32::MAX;
    assert_eq!(rect_bytes(max, 0, max, max), 4 * u128::from(max) * u128::from(max));
}

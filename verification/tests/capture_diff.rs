use lumina::capture::{compute_dirty_rect, dirty_rect_in_bounds_exec, rgba_to_xrgb, CaptureDevice, Frame, MacCapture, Rect, WinCapture};
use std::time::Duration;

fn create_blank_frame() -> Frame {
    Frame {
        width: 100,
        height: 100,
        data: vec![0; 100 * 100 * 4],
        timestamp: Duration::from_secs(0),
    }
}

#[test]
fn test_no_changes() {
    let frame1 = create_blank_frame();
    let frame2 = create_blank_frame();
    let diff = compute_dirty_rect(&frame1, &frame2);
    assert!(!diff.has_changes);
    assert_eq!(diff.dirty_rect, None);
}

#[test]
fn test_partial_changes() {
    let frame1 = create_blank_frame();
    let mut frame2 = create_blank_frame();

    // Change pixel at (10, 10)
    let idx1 = (10 * 100 + 10) * 4;
    frame2.data[idx1] = 255;

    // Change pixel at (20, 20)
    let idx2 = (20 * 100 + 20) * 4;
    frame2.data[idx2] = 255;

    let diff = compute_dirty_rect(&frame1, &frame2);
    assert!(diff.has_changes);

    let rect = diff.dirty_rect.unwrap();
    assert_eq!(rect.x, 10);
    assert_eq!(rect.y, 10);
    assert_eq!(rect.width, 11); // 20 - 10 + 1
    assert_eq!(rect.height, 11);
}

#[test]
fn dirty_rect_of_mismatched_frames_is_full_frame() {
    let frame1 = create_blank_frame();
    let frame2 = Frame { width: 50, height: 40, data: vec![0; 50 * 40 * 4], timestamp: Duration::from_secs(1) };
    let diff = compute_dirty_rect(&frame1, &frame2);
    assert!(diff.has_changes);
    assert_eq!(diff.dirty_rect, Some(Rect { x: 0, y: 0, width: 50, height: 40 }));
}

#[test]
fn dirty_rect_of_one_changed_alpha_byte() {
    let frame1 = create_blank_frame();
    let mut frame2 = create_blank_frame();
    // alpha byte of pixel (99, 0) and blue byte of pixel (3, 99)
    frame2.data[(0 * 100 + 99) * 4 + 3] = 1;
    frame2.data[(99 * 100 + 3) * 4 + 2] = 7;
    let diff = compute_dirty_rect(&frame1, &frame2);
    assert_eq!(diff.dirty_rect, Some(Rect { x: 3, y: 0, width: 97, height: 100 }));
}

#[test]
fn dirty_rect_single_pixel() {
    let frame1 = create_blank_frame();
    let mut frame2 = create_blank_frame();
    frame2.data[(42 * 100 + 17) * 4 + 1] = 9;
    let diff = compute_dirty_rect(&frame1, &frame2);
    assert!(diff.has_changes);
    assert_eq!(diff.dirty_rect, Some(Rect { x: 17, y: 42, width: 1, height: 1 }));
}

#[test]
fn dirty_rect_ignores_bytes_past_the_image() {
    let mut frame1 = create_blank_frame();
    frame1.data.extend_from_slice(&[0, 0, 0, 0]);
    let mut frame2 = create_blank_frame();
    frame2.data.extend_from_slice(&[1, 2, 3, 4]);
    let diff = compute_dirty_rect(&frame1, &frame2);
    assert!(!diff.has_changes);
    assert_eq!(diff.dirty_rect, None);
}

#[test]
fn dirty_rect_bounds_check() {
    let frame1 = create_blank_frame();
    let short = Frame { width: 100, height: 100, data: vec![0; 10], timestamp: Duration::from_secs(0) };
    let short2 = Frame { width: 100, height: 100, data: vec![0; 10], timestamp: Duration::from_secs(0) };
    assert!(dirty_rect_in_bounds_exec(&frame1, &create_blank_frame()));
    assert!(!dirty_rect_in_bounds_exec(&short, &short2));
    assert!(dirty_rect_in_bounds_exec(&frame1, &short));
}

#[test]
fn native_capture_backends_by_platform() {
    assert_eq!(WinCapture::new(false).err().unwrap(), "WinCapture only supported on Windows");
    let mut win = WinCapture::new(true).unwrap();
    assert_eq!((win.get_width(), win.get_height()), (1920, 1080));
    assert_eq!(win.capture_frame().err().unwrap(), "Not fully implemented yet");
    assert_eq!(MacCapture::new().err().unwrap(), "MacCapture only supported on macOS");
}

#[test]
fn xrgb_conversion() {
    let data = vec![0x12, 0x34, 0x56, 0xff, 1, 2, 3, 4, 9];
    assert_eq!(rgba_to_xrgb(&data, 10), vec![0x00123456, 0x00010203]);
    assert_eq!(rgba_to_xrgb(&data, 1), vec![0x00123456]);
}

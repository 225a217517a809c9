use life_torus::capture::capture_frame;
use life_torus::color::Color;
use life_torus::encode::quantize_frame;
use life_torus::framebuffer::Framebuffer;
use life_torus::recorder::Recorder;

#[test]
fn capture_copies_cell_blocks_at_scale() {
    let mut fb = Framebuffer::new(8, 8, 6);
    fb.point(3, 4, Color::white());
    let frame = capture_frame(&fb, 48, 48);
    assert_eq!(frame.len(), 48 * 48 * 4);
    for py in 0..48usize {
        for px in 0..48usize {
            let idx = (py * 48 + px) * 4;
            let in_block = (18..24).contains(&px) && (24..30).contains(&py);
            let expected = if in_block {
                [255, 255, 255, 255]
            } else {
                [0, 0, 0, 255]
            };
            assert_eq!(&frame[idx..idx + 4], &expected);
        }
    }
}

#[test]
fn capture_is_idempotent() {
    let mut fb = Framebuffer::new(5, 5, 2);
    fb.point(1, 1, Color::white());
    fb.point(4, 0, Color::new(3, 9, 27, 255));
    let a = capture_frame(&fb, 10, 10);
    let b = capture_frame(&fb, 10, 10);
    assert_eq!(a, b);
}

#[test]
fn capture_keeps_odd_colors_and_forces_alpha() {
    let mut fb = Framebuffer::new(4, 4, 1);
    fb.point(2, 1, Color::new(10, 20, 30, 40));
    let frame = capture_frame(&fb, 4, 4);
    let idx = (1 * 4 + 2) * 4;
    assert_eq!(&frame[idx..idx + 4], &[10, 20, 30, 255]);
}

#[test]
fn quantize_thresholds_on_red_channel() {
    let raw: Vec<u8> = vec![
        200, 0, 0, 0, // red over the threshold
        100, 255, 255, 255, // red under it, other channels ignored
        129, 0, 0, 255, // just over
        128, 255, 0, 255, // exactly at the threshold stays black
    ];
    assert_eq!(quantize_frame(&raw, 4), vec![1, 0, 1, 0]);
}

#[test]
fn recorder_saturates_at_its_cap() {
    let mut rec = Recorder::new(3);
    assert!(!rec.is_full());
    for i in 0..5u8 {
        rec.push_frame(vec![i]);
    }
    assert_eq!(rec.len(), 3);
    assert!(rec.is_full());
    assert_eq!(rec.frames(), &vec![vec![0u8], vec![1u8], vec![2u8]]);
    rec.push_frame(vec![9]);
    assert_eq!(rec.len(), 3);
    assert_eq!(rec.frames(), &vec![vec![0u8], vec![1u8], vec![2u8]]);
}

#[test]
fn recorder_keeps_capture_order() {
    let mut rec = Recorder::new(10);
    rec.push_frame(vec![5, 6]);
    rec.push_frame(vec![7]);
    rec.push_frame(vec![]);
    assert_eq!(rec.len(), 3);
    assert_eq!(rec.frames(), &vec![vec![5u8, 6u8], vec![7u8], vec![]]);
}

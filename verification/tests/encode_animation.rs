use life_torus::capture::capture_frame;
use life_torus::encode::save_gif;
use life_torus::life::Engine;
use life_torus::patterns::spawn_blinker;
use life_torus::recorder::Recorder;

fn decode(bytes: &[u8]) -> (u16, u16, gif::Repeat, Vec<(Vec<u8>, Vec<u8>, u16)>) {
    let mut opts = gif::DecodeOptions::new();
    opts.set_color_output(gif::ColorOutput::Indexed);
    let mut decoder = opts.read_info(std::io::Cursor::new(bytes.to_vec())).unwrap();
    let w = decoder.width();
    let h = decoder.height();
    let mut frames = Vec::new();
    while let Some(f) = decoder.read_next_frame().unwrap() {
        let palette = f.palette.clone().unwrap();
        frames.push((f.buffer.to_vec(), palette, f.delay));
    }
    (w, h, decoder.repeat(), frames)
}

#[test]
fn encode_two_hand_built_frames() {
    let frame_a: Vec<u8> = vec![
        255, 255, 255, 255, // white pixel
        0, 0, 0, 255, // black pixel
        0, 0, 0, 255, //
        255, 255, 255, 255, //
    ];
    let frame_b: Vec<u8> = vec![
        0, 0, 0, 255, //
        255, 255, 255, 255, //
        255, 255, 255, 255, //
        0, 0, 0, 255, //
    ];
    let bytes = save_gif(&vec![frame_a, frame_b], 2, 2).unwrap();
    let (w, h, repeat, frames) = decode(&bytes);
    assert_eq!((w, h), (2, 2));
    assert_eq!(repeat, gif::Repeat::Infinite);
    assert_eq!(frames.len(), 2);
    assert_eq!(frames[0].0, vec![1, 0, 0, 1]);
    assert_eq!(frames[1].0, vec![0, 1, 1, 0]);
    for (_, palette, delay) in &frames {
        assert_eq!(palette, &vec![0, 0, 0, 255, 255, 255]);
        assert_eq!(*delay, 10);
    }
}

#[test]
fn blinker_run_encodes_four_frames_with_period_two() {
    let mut eng = Engine::new(10, 10, 1);
    spawn_blinker(&mut eng.current, 5, 5);
    let mut rec = Recorder::new(4);
    for _ in 0..4 {
        eng.step();
        rec.push_frame(capture_frame(&eng.current, 10, 10));
    }
    let bytes = save_gif(rec.frames(), 10, 10).unwrap();
    let (w, h, repeat, frames) = decode(&bytes);
    assert_eq!((w, h), (10, 10));
    assert_eq!(repeat, gif::Repeat::Infinite);
    assert_eq!(frames.len(), 4);
    for (_, palette, _) in &frames {
        assert_eq!(palette, &vec![0, 0, 0, 255, 255, 255]);
    }
    assert_ne!(frames[0].0, frames[1].0);
    assert_eq!(frames[0].0, frames[2].0);
    assert_eq!(frames[1].0, frames[3].0);
    // the first captured generation is the horizontal blinker through the
    // pattern's center cell (5, 6)
    let mut expected = vec![0u8; 100];
    for x in [4usize, 5, 6] {
        expected[6 * 10 + x] = 1;
    }
    assert_eq!(frames[0].0, expected);
}

#[test]
fn frame_cap_limits_an_ongoing_run() {
    let mut eng = Engine::new(10, 10, 1);
    spawn_blinker(&mut eng.current, 5, 5);
    let mut rec = Recorder::new(4);
    for _ in 0..9 {
        eng.step();
        if !rec.is_full() {
            rec.push_frame(capture_frame(&eng.current, 10, 10));
        }
    }
    assert_eq!(rec.len(), 4);
    let bytes = save_gif(rec.frames(), 10, 10).unwrap();
    let (_, _, _, frames) = decode(&bytes);
    assert_eq!(frames.len(), 4);
}

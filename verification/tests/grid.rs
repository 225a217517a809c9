use life_torus::color::Color;
use life_torus::framebuffer::Framebuffer;

fn white() -> Color {
    Color::white()
}

fn black() -> Color {
    Color::black()
}

#[test]
fn new_grid_is_all_black() {
    let fb = Framebuffer::new(8, 6, 2);
    assert_eq!(fb.width, 8);
    assert_eq!(fb.height, 6);
    assert_eq!(fb.scale, 2);
    for y in 0..6 {
        for x in 0..8 {
            assert_eq!(fb.get_color(x, y), black());
        }
    }
}

#[test]
fn point_then_get_roundtrip() {
    let mut fb = Framebuffer::new(8, 8, 1);
    let c = Color::new(10, 20, 30, 255);
    fb.point(3, 4, c);
    assert_eq!(fb.get_color(3, 4), c);
    assert_eq!(fb.get_color(4, 3), black());
}

#[test]
fn set_cell_out_of_bounds_is_a_no_op() {
    let mut fb = Framebuffer::new(5, 5, 1);
    fb.point(2, 2, white());
    fb.point(-1, 0, white());
    fb.point(5, 0, white());
    fb.point(0, -1, white());
    fb.point(0, 5, white());
    for y in 0..5 {
        for x in 0..5 {
            let expected = if x == 2 && y == 2 { white() } else { black() };
            assert_eq!(fb.get_color(x, y), expected);
        }
    }
}

#[test]
fn get_cell_out_of_bounds_reads_black() {
    let mut fb = Framebuffer::new(5, 5, 1);
    for y in 0..5 {
        for x in 0..5 {
            fb.point(x, y, white());
        }
    }
    assert_eq!(fb.get_color(-1, 0), black());
    assert_eq!(fb.get_color(5, 0), black());
    assert_eq!(fb.get_color(0, -1), black());
    assert_eq!(fb.get_color(0, 5), black());
    assert_eq!(fb.get_color(4, 0), white());
}

#[test]
fn clear_resets_every_cell() {
    let mut fb = Framebuffer::new(6, 6, 1);
    fb.point(0, 0, white());
    fb.point(5, 5, white());
    fb.point(2, 3, Color::new(7, 7, 7, 255));
    fb.clear();
    assert_eq!(fb.width, 6);
    assert_eq!(fb.height, 6);
    for y in 0..6 {
        for x in 0..6 {
            assert_eq!(fb.get_color(x, y), black());
        }
    }
}

#[test]
fn is_drawn_follows_nonzero_channels() {
    let mut fb = Framebuffer::new(4, 4, 1);
    fb.point(0, 0, white());
    fb.point(1, 0, Color::new(1, 0, 0, 255));
    fb.point(2, 0, Color::new(0, 0, 0, 255));
    assert!(fb.is_drawn(0, 0));
    assert!(fb.is_drawn(1, 0));
    assert!(!fb.is_drawn(2, 0));
    assert!(!fb.is_drawn(3, 0));
}

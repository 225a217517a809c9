use life_torus::color::Color;
use life_torus::framebuffer::Framebuffer;
use life_torus::patterns::{spawn_block, spawn_glider, spawn_pulsar, spawn_tub};

fn live_cells(fb: &Framebuffer) -> Vec<(i32, i32)> {
    let mut out = Vec::new();
    for y in 0..fb.height as i32 {
        for x in 0..fb.width as i32 {
            if fb.get_color(x, y) == Color::white() {
                out.push((x, y));
            }
        }
    }
    out
}

#[test]
fn glider_template_cells() {
    let mut fb = Framebuffer::new(8, 8, 1);
    spawn_glider(&mut fb, 1, 1);
    assert_eq!(live_cells(&fb), vec![(2, 1), (3, 2), (1, 3), (2, 3), (3, 3)]);
}

#[test]
fn tub_template_cells() {
    let mut fb = Framebuffer::new(6, 6, 1);
    spawn_tub(&mut fb, 0, 0);
    assert_eq!(live_cells(&fb), vec![(1, 0), (0, 1), (2, 1), (1, 2)]);
}

#[test]
fn pulsar_has_forty_eight_cells() {
    let mut fb = Framebuffer::new(20, 20, 1);
    spawn_pulsar(&mut fb, 2, 2);
    assert_eq!(live_cells(&fb).len(), 48);
}

#[test]
fn pattern_writes_outside_the_grid_are_dropped() {
    let mut fb = Framebuffer::new(5, 5, 1);
    spawn_block(&mut fb, -1, -1);
    assert_eq!(live_cells(&fb), vec![(0, 0)]);
    let mut fb2 = Framebuffer::new(5, 5, 1);
    spawn_block(&mut fb2, 4, 4);
    assert_eq!(live_cells(&fb2), vec![(4, 4)]);
}

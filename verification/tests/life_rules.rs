use life_torus::color::Color;
use life_torus::life::{count_alive_neighbors, Engine};
use life_torus::patterns::{spawn_blinker, spawn_block, spawn_glider};

fn alive(eng: &Engine, x: i32, y: i32) -> bool {
    eng.current.get_color(x, y) == Color::white()
}

fn live_cells(eng: &Engine) -> Vec<(i32, i32)> {
    let mut out = Vec::new();
    for y in 0..eng.current.height as i32 {
        for x in 0..eng.current.width as i32 {
            if alive(eng, x, y) {
                out.push((x, y));
            }
        }
    }
    out
}

#[test]
fn wraparound_counts_far_corner_and_edges() {
    let mut eng = Engine::new(5, 4, 1);
    eng.current.point(4, 3, Color::white());
    eng.current.point(4, 0, Color::white());
    eng.current.point(0, 3, Color::white());
    assert_eq!(count_alive_neighbors(&eng.current, 0, 0), 3);
}

#[test]
fn wraparound_counts_diagonal_corner_alone() {
    let mut eng = Engine::new(7, 6, 1);
    eng.current.point(6, 5, Color::white());
    assert_eq!(count_alive_neighbors(&eng.current, 0, 0), 1);
}

#[test]
fn neighbor_count_in_the_interior() {
    let mut eng = Engine::new(8, 8, 1);
    spawn_block(&mut eng.current, 3, 3);
    assert_eq!(count_alive_neighbors(&eng.current, 3, 3), 3);
    assert_eq!(count_alive_neighbors(&eng.current, 2, 2), 1);
    assert_eq!(count_alive_neighbors(&eng.current, 2, 3), 2);
    assert_eq!(count_alive_neighbors(&eng.current, 6, 6), 0);
}

#[test]
fn block_is_a_still_life() {
    let mut eng = Engine::new(8, 8, 1);
    spawn_block(&mut eng.current, 2, 2);
    let before = live_cells(&eng);
    assert_eq!(before, vec![(2, 2), (3, 2), (2, 3), (3, 3)]);
    for _ in 0..5 {
        eng.step();
        assert_eq!(live_cells(&eng), before);
    }
}

#[test]
fn blinker_oscillates_with_period_two() {
    let mut eng = Engine::new(8, 8, 1);
    spawn_blinker(&mut eng.current, 3, 2);
    let vertical = live_cells(&eng);
    assert_eq!(vertical, vec![(3, 2), (3, 3), (3, 4)]);
    eng.step();
    let horizontal = live_cells(&eng);
    assert_eq!(horizontal, vec![(2, 3), (3, 3), (4, 3)]);
    eng.step();
    assert_eq!(live_cells(&eng), vertical);
}

#[test]
fn glider_translates_by_one_one_after_four_steps() {
    let mut eng = Engine::new(12, 12, 1);
    spawn_glider(&mut eng.current, 1, 1);
    let before = live_cells(&eng);
    assert!(!before.is_empty());
    for _ in 0..4 {
        eng.step();
    }
    let after = live_cells(&eng);
    let shifted: Vec<(i32, i32)> = before.iter().map(|&(x, y)| (x + 1, y + 1)).collect();
    assert_eq!(after, shifted);
}

#[test]
fn lone_cell_dies_and_birth_needs_three() {
    let mut eng = Engine::new(6, 6, 1);
    eng.current.point(2, 2, Color::white());
    eng.step();
    assert_eq!(live_cells(&eng), Vec::<(i32, i32)>::new());

    let mut eng2 = Engine::new(6, 6, 1);
    eng2.current.point(1, 1, Color::white());
    eng2.current.point(2, 1, Color::white());
    eng2.current.point(3, 1, Color::white());
    eng2.step();
    assert!(alive(&eng2, 2, 0));
    assert!(alive(&eng2, 2, 1));
    assert!(alive(&eng2, 2, 2));
    assert!(!alive(&eng2, 1, 1));
    assert!(!alive(&eng2, 3, 1));
}

#[test]
fn step_leaves_previous_generation_in_next() {
    let mut eng = Engine::new(6, 6, 1);
    spawn_blinker(&mut eng.current, 2, 1);
    eng.step();
    assert_eq!(eng.next.get_color(2, 1), Color::white());
    assert_eq!(eng.next.get_color(2, 2), Color::white());
    assert_eq!(eng.next.get_color(2, 3), Color::white());
    assert_eq!(eng.next.get_color(1, 2), Color::black());
}

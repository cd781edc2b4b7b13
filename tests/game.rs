use snek::{BMember, Board, Dir, Game, Instruction, StartPos};

fn prng(seed: f64, inc: f64) -> f32 {
    let res = (inc * seed).sqrt().powf(3.141592653589793);
    (res - res.floor()) as f32
}

/// Where the search for the next apple cell starts after the `ct`-th apple.
fn spawn(seed: f64, ct: u32, w: i64, h: i64) -> (i64, i64) {
    let ax = (prng(seed, ct as f64) * w as f32) as i64;
    let ay = (prng(seed, ct as f64 + 0.5) * h as f32) as i64;
    (ax, ay)
}

fn start(sx: i64, sy: i64, ax: i64, ay: i64) -> StartPos {
    StartPos { snake_x: sx, snake_y: sy, apple_x: ax, apple_y: ay }
}

fn marked(g: &Game) -> Vec<(i64, i64)> {
    let mut r = vec![];
    for x in 0..g.b.w {
        for y in 0..g.b.h {
            if g.b.get(x, y) == BMember::Snake {
                r.push((x, y));
            }
        }
    }
    r
}

#[test]
fn new_snake_has_empty_queue_and_tail_at_head() {
    let g = Game::new(10, 10, &start(2, 5, 7, 5));
    assert!(g.s.tailinst.is_empty());
    assert_eq!((g.s.tx, g.s.ty), (g.s.x, g.s.y));
    assert_eq!((g.s.x, g.s.y), (2, 5));
    assert_eq!(g.s.l, 3);
    assert_eq!(g.s.d, Dir::Right);
    assert_eq!(g.s.td, Dir::Right);
    assert_eq!((g.a.x, g.a.y), (7, 5));
    assert!(!g.lost);
    assert_eq!(g.steptime, 100);
    assert_eq!(g.apple_ct, 0);
    assert!(marked(&g).is_empty());
}

#[test]
fn apple_eaten_on_fifth_step() {
    let seed = 123.0;
    let mut g = Game::new(10, 10, &start(2, 5, 7, 5));
    for k in 1..=5 {
        let before = marked(&g);
        let (sx, sy) = spawn(seed, g.apple_ct + 1, 10, 10);
        g.step(Some(Dir::Right), sx, sy);
        if k < 5 {
            assert_eq!(g.apple_ct, 0);
            assert_eq!((g.a.x, g.a.y), (7, 5));
        } else {
            assert_eq!(g.apple_ct, 1);
            // the budget was renewed to 3 and one tick of it spent
            assert_eq!(g.s.l, 2);
            assert_ne!((g.a.x, g.a.y), (7, 5));
            assert_eq!(g.b.get(g.a.x, g.a.y), BMember::Empty);
            // first free cell in raster order from the spawn point
            let mut p = (sx, sy);
            loop {
                if p != (7, 5) && !before.contains(&p) && p != (6, 5) {
                    break;
                }
                p.0 += 1;
                if p.0 >= 10 {
                    p = (0, p.1 + 1);
                }
                if p.1 >= 10 {
                    p.1 = 0;
                }
            }
            assert_eq!((g.a.x, g.a.y), p);
        }
    }
    assert!(!g.lost);
    assert_eq!((g.s.x, g.s.y), (7, 5));
}

#[test]
fn relocate_renews_budget_and_skips_taken_cells() {
    let mut g = Game::new(4, 3, &start(0, 0, 1, 0));
    g.s.l = 0;
    g.b.set(2, 0, BMember::Snake);
    g.b.set(3, 0, BMember::Snake);
    g.relocate(1, 0);
    assert_eq!(g.s.l, 3);
    assert_eq!((g.a.x, g.a.y), (0, 1));
    assert!(!g.lost);
}

#[test]
fn relocate_wraps_to_first_row() {
    let mut g = Game::new(3, 2, &start(0, 0, 0, 0));
    g.relocate(2, 1);
    assert_eq!((g.a.x, g.a.y), (2, 1));
    g.b.set(2, 1, BMember::Snake);
    g.relocate(2, 1);
    assert_eq!((g.a.x, g.a.y), (0, 0));
    g.b.set(0, 0, BMember::Snake);
    g.relocate(2, 1);
    assert_eq!((g.a.x, g.a.y), (1, 0));
}

#[test]
fn relocate_on_full_board_loses() {
    let mut g = Game::new(2, 2, &start(0, 0, 1, 1));
    g.b.set(0, 0, BMember::Snake);
    g.b.set(1, 0, BMember::Snake);
    g.b.set(0, 1, BMember::Snake);
    g.relocate(0, 0);
    assert!(g.lost);
    assert_eq!((g.a.x, g.a.y), (1, 1));
}

#[test]
fn relocation_is_deterministic() {
    let run = || {
        let mut g = Game::new(10, 10, &start(2, 5, 7, 5));
        let mut apples = vec![];
        for _ in 0..5 {
            let (sx, sy) = spawn(123.0, g.apple_ct + 1, 10, 10);
            g.step(None, sx, sy);
        }
        apples.push((g.a.x, g.a.y));
        for ct in 2..6 {
            let (sx, sy) = spawn(123.0, ct, 10, 10);
            g.relocate(sx, sy);
            apples.push((g.a.x, g.a.y));
        }
        apples
    };
    assert_eq!(run(), run());
}

#[test]
fn wall_clamps_head_and_loses() {
    let mut g = Game::new(10, 10, &start(0, 5, 7, 5));
    g.step(Some(Dir::Left), 0, 0);
    assert_eq!((g.s.x, g.s.y), (0, 5));
    assert!(g.lost);
}

#[test]
fn top_wall_clamps_y() {
    let mut g = Game::new(10, 10, &start(3, 9, 7, 5));
    g.step(Some(Dir::Up), 0, 0);
    assert_eq!((g.s.x, g.s.y), (3, 9));
    assert!(g.lost);
}

#[test]
fn lost_game_is_frozen() {
    let mut g = Game::new(10, 10, &start(0, 5, 7, 5));
    g.step(Some(Dir::Left), 0, 0);
    assert!(g.lost);
    let cells = marked(&g);
    let snap = (g.s.x, g.s.y, g.s.tx, g.s.ty, g.s.l, g.s.d, g.s.td, g.s.tailinst.clone());
    for d in [Some(Dir::Right), Some(Dir::Up), None] {
        g.step(d, 3, 3);
        assert!(g.lost);
        assert_eq!(marked(&g), cells);
        assert_eq!((g.s.x, g.s.y, g.s.tx, g.s.ty, g.s.l, g.s.d, g.s.td, g.s.tailinst.clone()), snap);
        assert_eq!((g.a.x, g.a.y, g.apple_ct), (7, 5, 0));
    }
}

#[test]
fn turns_then_self_collision() {
    let mut g = Game::new(10, 10, &start(2, 5, 0, 0));
    for _ in 0..4 {
        g.step(None, 0, 0);
    }
    assert_eq!(marked(&g), vec![(3, 5), (4, 5), (5, 5)]);
    g.step(Some(Dir::Up), 0, 0);
    g.step(Some(Dir::Left), 0, 0);
    assert!(!g.lost);
    assert_eq!(
        g.s.tailinst,
        vec![Instruction { dir: Dir::Up, x: 6, y: 5 }, Instruction { dir: Dir::Left, x: 6, y: 6 }]
    );
    g.step(Some(Dir::Down), 0, 0);
    assert!(g.lost);
    assert_eq!((g.s.x, g.s.y), (5, 5));
    assert_eq!(g.s.tailinst.len(), 3);
}

#[test]
fn tail_replays_turns() {
    let mut g = Game::new(20, 10, &start(2, 5, 0, 0));
    for _ in 0..4 {
        g.step(None, 0, 0);
    }
    g.step(Some(Dir::Up), 0, 0);
    g.step(Some(Dir::Right), 0, 0);
    assert_eq!(g.s.tailinst.len(), 2);
    assert_eq!((g.s.tx, g.s.ty), (5, 5));
    g.step(None, 0, 0);
    assert_eq!(g.s.tailinst.len(), 2);
    assert_eq!((g.s.tx, g.s.ty), (6, 5));
    g.step(None, 0, 0);
    assert_eq!(g.s.tailinst, vec![Instruction { dir: Dir::Right, x: 6, y: 6 }]);
    assert_eq!(g.s.td, Dir::Up);
    assert_eq!((g.s.tx, g.s.ty), (6, 6));
    g.step(None, 0, 0);
    assert!(g.s.tailinst.is_empty());
    assert_eq!(g.s.td, Dir::Right);
    assert_eq!((g.s.tx, g.s.ty), (7, 6));
    assert!(!g.lost);
    assert_eq!(marked(&g), vec![(7, 6), (8, 6), (9, 6)]);
}

#[test]
fn tick_changes_only_head_and_tail_cells() {
    let mut g = Game::new(10, 10, &start(2, 5, 0, 0));
    for _ in 0..4 {
        g.step(None, 0, 0);
    }
    let before = marked(&g);
    let (hx, hy, tx, ty) = (g.s.x, g.s.y, g.s.tx, g.s.ty);
    g.step(None, 0, 0);
    let after = marked(&g);
    let added: Vec<_> = after.iter().filter(|c| !before.contains(c)).cloned().collect();
    let removed: Vec<_> = before.iter().filter(|c| !after.contains(c)).cloned().collect();
    assert_eq!(added, vec![(hx, hy)]);
    assert_eq!(removed, vec![(tx, ty)]);
}

#[test]
fn growth_keeps_tail_in_place() {
    let mut g = Game::new(10, 10, &start(2, 5, 0, 0));
    g.step(None, 0, 0);
    g.step(None, 0, 0);
    assert_eq!((g.s.tx, g.s.ty), (2, 5));
    assert_eq!(g.s.l, 1);
}

#[test]
fn same_direction_is_still_recorded() {
    let mut g = Game::new(10, 10, &start(2, 5, 0, 0));
    g.step(Some(Dir::Right), 0, 0);
    assert_eq!(g.s.tailinst, vec![Instruction { dir: Dir::Right, x: 2, y: 5 }]);
    assert_eq!((g.s.x, g.s.y), (3, 5));
}

#[test]
fn head_moves_down_decreases_y() {
    let mut g = Game::new(10, 10, &start(2, 5, 0, 0));
    g.step(Some(Dir::Down), 0, 0);
    assert_eq!((g.s.x, g.s.y), (2, 4));
}

#[test]
fn start_positions_from_dimensions() {
    assert_eq!(StartPos::init(127, 127), start(31, 63, 95, 63));
    assert_eq!(StartPos::init(10, 10), start(2, 5, 7, 5));
    assert_eq!(StartPos::init(1, 1), start(0, 0, 0, 0));
    assert_eq!(StartPos::init(7, 3), start(1, 1, 5, 1));
}

#[test]
fn board_starts_empty_and_keeps_sets() {
    let mut b = Board::new(3, 4);
    assert_eq!(b.b.len(), 3);
    assert!(b.b.iter().all(|c| c.len() == 4 && c.iter().all(|m| *m == BMember::Empty)));
    b.set(2, 3, BMember::Snake);
    assert_eq!(b.get(2, 3), BMember::Snake);
    assert_eq!(b.get(3 - 1, 0), BMember::Empty);
    assert!(b.in_bounds(2, 3));
    assert!(!b.in_bounds(3, 0));
    assert!(!b.in_bounds(0, -1));
}

#[test]
fn first_free_skips_excluded_cell() {
    let b = Board::new(2, 2);
    assert_eq!(b.first_free(0, 0, 0, 0), Some((1, 0)));
    assert_eq!(b.first_free(1, 1, 1, 1), Some((0, 0)));
    let one = Board::new(1, 1);
    assert_eq!(one.first_free(0, 0, 0, 0), None);
}

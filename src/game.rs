use vstd::prelude::*;

use crate::board::{in_bounds, scan, set_cell, BMember, Board};
use crate::snake::{moved, Dir, Snake, SnakeView};

verus! {

/// The screen that is shown.
#[derive(Clone, Copy, PartialEq, Eq, Debug, Structural)]
pub enum Scrn {
    Game,
}

/// Where the snake's head and the first apple start.
#[derive(Clone, Copy, PartialEq, Eq, Debug, Structural)]
pub struct StartPos {
    pub snake_x: i64,
    pub snake_y: i64,
    pub apple_x: i64,
    pub apple_y: i64,
}

#[derive(Clone, Copy, PartialEq, Eq, Debug, Structural)]
pub struct Apple {
    pub x: i64,
    pub y: i64,
}

/// One game session. `steptime` is the advised length of a tick in
/// milliseconds; `apple_ct` counts the apples eaten.
pub struct Game {
    pub s: Snake,
    pub b: Board,
    pub a: Apple,
    pub scrn: Scrn,
    pub lost: bool,
    pub steptime: u16,
    pub apple_ct: u32,
}

/// The game as plain values.
pub struct GameView {
    pub snake: SnakeView,
    pub cells: Seq<Seq<BMember>>,
    pub w: int,
    pub h: int,
    pub ax: int,
    pub ay: int,
    pub scrn: Scrn,
    pub lost: bool,
    pub steptime: u16,
    pub apple_ct: u32,
}

/// Growth budget given by the start and by each apple.
pub const GROWTH: u16 = 3;

/// `(x, y)` with the first coordinate that lies off a `w` x `h` board, looking
/// at `x` then `y`, moved to the nearest cell on it.
pub open spec fn clamped(x: int, y: int, w: int, h: int) -> (int, int) {
    if x >= w {
        (w - 1, y)
    } else if x < 0 {
        (0, y)
    } else if y >= h {
        (x, h - 1)
    } else if y < 0 {
        (x, 0)
    } else {
        (x, y)
    }
}

impl GameView {
    pub open spec fn wf(self) -> bool {
        &&& self.w > 0
        &&& self.h > 0
        &&& self.w * self.h <= usize::MAX
        &&& self.cells.len() == self.w
        &&& forall|x: int| 0 <= x < self.w ==> (#[trigger] self.cells[x]).len() == self.h
        &&& in_bounds(self.snake.x, self.snake.y, self.w, self.h)
        &&& in_bounds(self.snake.tx, self.snake.ty, self.w, self.h)
        &&& in_bounds(self.ax, self.ay, self.w, self.h)
    }

    /// An apple has been eaten: the growth budget is renewed, and the apple
    /// moves to the first free cell in raster order from `(sx, sy)`, or the
    /// game is lost when the board has none.
    pub open spec fn relocated(self, sx: int, sy: int) -> GameView {
        let found = scan(self.cells, self.w, self.h, self.ax, self.ay, sx, sy, (self.w * self.h) as nat);
        let snake = SnakeView { l: GROWTH as nat, ..self.snake };
        match found {
            Some(p) => GameView { snake, ax: p.0, ay: p.1, ..self },
            None => GameView { snake, lost: true, ..self },
        }
    }

    /// One tick with input `i`; `(sx, sy)` is where the search for a free cell
    /// starts should the apple be eaten.
    pub open spec fn step(self, i: Option<Dir>, sx: int, sy: int) -> GameView {
        if self.lost {
            self
        } else {
            let cells1 = set_cell(self.cells, self.snake.x, self.snake.y, BMember::Snake);
            let s1 = self.snake.directed(i).head_moved();
            let out = !in_bounds(s1.x, s1.y, self.w, self.h);
            let (hx, hy) = clamped(s1.x, s1.y, self.w, self.h);
            let s2 = SnakeView { x: hx, y: hy, ..s1 };
            let hit = cells1[hx][hy] == BMember::Snake;
            let g1 = GameView { snake: s2, cells: cells1, lost: out || hit, ..self };
            let ate = hx == self.ax && hy == self.ay;
            let g2 = if ate {
                GameView {
                    apple_ct: if self.apple_ct == u32::MAX { 0 } else { (self.apple_ct + 1) as u32 },
                    ..g1
                }.relocated(sx, sy)
            } else {
                g1
            };
            GameView {
                cells: set_cell(g2.cells, g2.snake.tx, g2.snake.ty, BMember::Empty),
                snake: g2.snake.tail_advanced(self.w, self.h),
                ..g2
            }
        }
    }
}

impl View for Game {
    type V = GameView;

    open spec fn view(&self) -> GameView {
        GameView {
            snake: self.s@,
            cells: self.b.cells(),
            w: self.b.w as int,
            h: self.b.h as int,
            ax: self.a.x as int,
            ay: self.a.y as int,
            scrn: self.scrn,
            lost: self.lost,
            steptime: self.steptime,
            apple_ct: self.apple_ct,
        }
    }
}

impl StartPos {
    /// The head a quarter of the way across the middle row, the apple three
    /// quarters of the way.
    pub fn init(w: i64, h: i64) -> (r: StartPos)
        requires
            w > 0,
            h > 0,
        ensures
            r.snake_x == w / 4,
            r.snake_y == h / 2,
            r.apple_x == (3 * w) / 4,
            r.apple_y == h / 2,
    {
        let q = w / 4;
        let m = w % 4;
        StartPos { snake_x: q, snake_y: h / 2, apple_x: 3 * q + (3 * m) / 4, apple_y: h / 2 }
    }
}

impl Game {
    pub open spec fn wf(&self) -> bool {
        &&& self.b.wf()
        &&& self@.wf()
    }

    /// A fresh session on an empty `w` x `h` board.
    pub fn new(w: i64, h: i64, start_pos: &StartPos) -> (r: Game)
        requires
            w > 0,
            h > 0,
            w * h <= usize::MAX,
            in_bounds(start_pos.snake_x as int, start_pos.snake_y as int, w as int, h as int),
            in_bounds(start_pos.apple_x as int, start_pos.apple_y as int, w as int, h as int),
        ensures
            r.wf(),
            r.b.w == w,
            r.b.h == h,
            r.b.all_empty(),
            r@.snake == (SnakeView {
                x: start_pos.snake_x as int,
                y: start_pos.snake_y as int,
                l: GROWTH as nat,
                d: Dir::Right,
                tx: start_pos.snake_x as int,
                ty: start_pos.snake_y as int,
                td: Dir::Right,
                turns: Seq::empty(),
            }),
            r.a == (Apple { x: start_pos.apple_x, y: start_pos.apple_y }),
            r.scrn == Scrn::Game,
            !r.lost,
            r.steptime == 100,
            r.apple_ct == 0,
    {
        let s = Snake {
            x: start_pos.snake_x,
            y: start_pos.snake_y,
            l: GROWTH,
            d: Dir::Right,
            td: Dir::Right,
            tailinst: Vec::new(),
            tx: start_pos.snake_x,
            ty: start_pos.snake_y,
        };
        let a = Apple { x: start_pos.apple_x, y: start_pos.apple_y };
        let b = Board::new(w, h);
        let r = Game { s, b, a, scrn: Scrn::Game, lost: false, steptime: 100, apple_ct: 0 };
        assert(r@.snake.turns =~= Seq::empty());
        r
    }

    /// Clamps a head that has left the board back onto it; tells whether it had.
    fn oob(s: &mut Snake, b: &Board) -> (r: bool)
        requires
            b.wf(),
        ensures
            r == !in_bounds(old(s).x as int, old(s).y as int, b.w as int, b.h as int),
            final(s)@ == (SnakeView {
                x: clamped(old(s).x as int, old(s).y as int, b.w as int, b.h as int).0,
                y: clamped(old(s).x as int, old(s).y as int, b.w as int, b.h as int).1,
                ..old(s)@
            }),
    {
        if s.x >= b.w {
            s.x = b.w - 1;
            return true;
        }
        if s.x < 0 {
            s.x = 0;
            return true;
        }
        if s.y >= b.h {
            s.y = b.h - 1;
            return true;
        }
        if s.y < 0 {
            s.y = 0;
            return true;
        }
        false
    }

    /// Renews the growth budget and moves the apple to the first free cell in
    /// raster order from `(sx, sy)`; loses the game when there is none.
    pub fn relocate(&mut self, sx: i64, sy: i64)
        requires
            old(self).wf(),
            in_bounds(sx as int, sy as int, old(self).b.w as int, old(self).b.h as int),
        ensures
            final(self).wf(),
            final(self)@ == old(self)@.relocated(sx as int, sy as int),
    {
        self.s.l = GROWTH;
        match self.b.first_free(self.a.x, self.a.y, sx, sy) {
            Some(p) => {
                self.a.x = p.0;
                self.a.y = p.1;
            },
            None => {
                self.lost = true;
            },
        }
    }

    /// Advances the game by one tick with the player's input `i`. Should the
    /// apple be eaten, the search for its next cell starts at `(sx, sy)`.
    pub fn step(&mut self, i: Option<Dir>, sx: i64, sy: i64)
        requires
            old(self).wf(),
            in_bounds(sx as int, sy as int, old(self).b.w as int, old(self).b.h as int),
        ensures
            final(self).wf(),
            final(self)@ == old(self)@.step(i, sx as int, sy as int),
    {
        if self.lost {
            return;
        }
        self.b.set(self.s.x, self.s.y, BMember::Snake);
        self.s.apply_direction(i);
        self.s.advance_head();
        if Game::oob(&mut self.s, &self.b) {
            self.lost = true;
        }
        if self.b.get(self.s.x, self.s.y) == BMember::Snake {
            self.lost = true;
        }
        if self.s.x == self.a.x && self.s.y == self.a.y {
            self.apple_ct = self.apple_ct.wrapping_add(1);
            self.relocate(sx, sy);
        }
        self.b.set(self.s.tx, self.s.ty, BMember::Empty);
        let w = self.b.w;
        let h = self.b.h;
        self.s.advance_tail(w, h);
    }
}

} // verus!

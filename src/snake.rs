use vstd::prelude::*;

use crate::board::in_bounds;

verus! {

/// A direction of travel; `Up` increases y.
#[derive(Clone, Copy, PartialEq, Eq, Debug, Structural)]
pub enum Dir {
    Up,
    Down,
    Left,
    Right,
}

/// A direction change of the head and the head cell where it was made.
#[derive(Clone, Copy, PartialEq, Eq, Debug, Structural)]
pub struct Instruction {
    pub dir: Dir,
    pub x: i64,
    pub y: i64,
}

/// Head position and direction, growth budget `l`, tail position and
/// direction, and the turns that the tail has still to replay, oldest first.
pub struct Snake {
    pub x: i64,
    pub y: i64,
    pub l: u16,
    pub d: Dir,
    pub tx: i64,
    pub ty: i64,
    pub td: Dir,
    pub tailinst: Vec<Instruction>,
}

/// The snake as plain values.
pub struct SnakeView {
    pub x: int,
    pub y: int,
    pub l: nat,
    pub d: Dir,
    pub tx: int,
    pub ty: int,
    pub td: Dir,
    pub turns: Seq<Instruction>,
}

/// The cell one step from `(x, y)` in direction `d`.
pub open spec fn moved(x: int, y: int, d: Dir) -> (int, int) {
    match d {
        Dir::Up => (x, y + 1),
        Dir::Down => (x, y - 1),
        Dir::Left => (x - 1, y),
        Dir::Right => (x + 1, y),
    }
}

impl SnakeView {
    /// After the player's input: a new direction is taken and recorded at the
    /// head cell, also when it equals the current one.
    pub open spec fn directed(self, i: Option<Dir>) -> SnakeView {
        match i {
            Some(dir) => SnakeView {
                d: dir,
                turns: self.turns.push(Instruction { dir, x: self.x as i64, y: self.y as i64 }),
                ..self
            },
            None => self,
        }
    }

    /// The head one cell further in its direction.
    pub open spec fn head_moved(self) -> SnakeView {
        SnakeView { x: moved(self.x, self.y, self.d).0, y: moved(self.x, self.y, self.d).1, ..self }
    }

    /// Whether the oldest pending turn was made at the tail's cell.
    pub open spec fn turn_due(self) -> bool {
        self.turns.len() > 0 && self.turns[0].x == self.tx && self.turns[0].y == self.ty
    }

    /// The tail after one tick on a `w` x `h` board. While the growth budget
    /// lasts it is spent and the tail stays. Otherwise a turn made at the
    /// tail's cell is taken from the queue and the tail adopts it, then it
    /// moves one cell, never off the board.
    pub open spec fn tail_advanced(self, w: int, h: int) -> SnakeView {
        if self.l > 0 {
            SnakeView { l: (self.l - 1) as nat, ..self }
        } else {
            let td = if self.turn_due() { self.turns[0].dir } else { self.td };
            let turns = if self.turn_due() { self.turns.remove(0) } else { self.turns };
            let (nx, ny) = moved(self.tx, self.ty, td);
            if in_bounds(nx, ny, w, h) {
                SnakeView { td, turns, tx: nx, ty: ny, ..self }
            } else {
                SnakeView { td, turns, ..self }
            }
        }
    }
}

impl View for Snake {
    type V = SnakeView;

    open spec fn view(&self) -> SnakeView {
        SnakeView {
            x: self.x as int,
            y: self.y as int,
            l: self.l as nat,
            d: self.d,
            tx: self.tx as int,
            ty: self.ty as int,
            td: self.td,
            turns: self.tailinst@,
        }
    }
}

/// The cell one step from `(x, y)` in direction `d`.
fn step_from(x: i64, y: i64, d: Dir) -> (r: (i64, i64))
    requires
        i64::MIN < x < i64::MAX,
        i64::MIN < y < i64::MAX,
    ensures
        (r.0 as int, r.1 as int) == moved(x as int, y as int, d),
{
    match d {
        Dir::Up => (x, y + 1),
        Dir::Down => (x, y - 1),
        Dir::Left => (x - 1, y),
        Dir::Right => (x + 1, y),
    }
}

impl Snake {
    /// Takes the direction `i`, if given, and records it at the head cell.
    pub fn apply_direction(&mut self, i: Option<Dir>)
        ensures
            final(self)@ == old(self)@.directed(i),
    {
        match i {
            Some(dir) => {
                self.d = dir;
                self.tailinst.push(Instruction { dir, x: self.x, y: self.y });
            },
            None => {},
        }
    }

    /// Moves the head one cell in its direction.
    pub fn advance_head(&mut self)
        requires
            i64::MIN < old(self).x < i64::MAX,
            i64::MIN < old(self).y < i64::MAX,
        ensures
            final(self)@ == old(self)@.head_moved(),
    {
        let (x, y) = step_from(self.x, self.y, self.d);
        self.x = x;
        self.y = y;
    }

    /// Advances the tail by one tick on a `w` x `h` board.
    pub fn advance_tail(&mut self, w: i64, h: i64)
        requires
            in_bounds(old(self).tx as int, old(self).ty as int, w as int, h as int),
        ensures
            final(self)@ == old(self)@.tail_advanced(w as int, h as int),
            in_bounds(final(self).tx as int, final(self).ty as int, w as int, h as int),
    {
        if self.l > 0 {
            self.l = self.l - 1;
            return;
        }
        if self.tailinst.len() != 0 {
            if self.tailinst[0].x == self.tx && self.tailinst[0].y == self.ty {
                self.td = self.tailinst[0].dir;
                self.tailinst.remove(0);
            }
        }
        let (nx, ny) = step_from(self.tx, self.ty, self.td);
        if 0 <= nx && nx < w && 0 <= ny && ny < h {
            self.tx = nx;
            self.ty = ny;
        }
    }
}

} // verus!

use vstd::prelude::*;

verus! {

/// State of one board cell.
#[derive(Clone, Copy, PartialEq, Eq, Debug, Structural)]
pub enum BMember {
    Snake,
    Empty,
}

/// A fixed `w` x `h` occupancy grid, indexed `b[x][y]`.
pub struct Board {
    pub w: i64,
    pub h: i64,
    pub b: Vec<Vec<BMember>>,
}

/// `c` with the cell `(x, y)` replaced by `v`.
pub open spec fn set_cell(c: Seq<Seq<BMember>>, x: int, y: int, v: BMember) -> Seq<Seq<BMember>> {
    c.update(x, c[x].update(y, v))
}

pub open spec fn in_bounds(x: int, y: int, w: int, h: int) -> bool {
    0 <= x < w && 0 <= y < h
}

/// The cell visited after `(x, y)` in raster order: x grows first, then y,
/// and the last cell wraps around to `(0, 0)`.
pub open spec fn raster_next(x: int, y: int, w: int, h: int) -> (int, int) {
    if x + 1 < w {
        (x + 1, y)
    } else if y + 1 < h {
        (0, y + 1)
    } else {
        (0, 0)
    }
}

/// The first of `n` cells, visited in raster order from `(x, y)`, that is
/// `Empty` and is not `(ox, oy)`.
pub open spec fn scan(
    c: Seq<Seq<BMember>>,
    w: int,
    h: int,
    ox: int,
    oy: int,
    x: int,
    y: int,
    n: nat,
) -> Option<(int, int)>
    decreases n,
{
    if n == 0 {
        None
    } else if (x != ox || y != oy) && c[x][y] == BMember::Empty {
        Some((x, y))
    } else {
        let (nx, ny) = raster_next(x, y, w, h);
        scan(c, w, h, ox, oy, nx, ny, (n - 1) as nat)
    }
}

/// Each side of a grid whose cell count fits in `usize` fits too.
pub proof fn lemma_dims_fit(w: int, h: int)
    requires
        w > 0,
        h > 0,
        w * h <= usize::MAX,
    ensures
        w <= usize::MAX,
        h <= usize::MAX,
{
    assert(w <= w * h && h <= w * h) by (nonlinear_arith)
        requires
            w > 0,
            h > 0,
    ;
}

impl Board {
    /// The grid as columns of cells.
    pub open spec fn cells(&self) -> Seq<Seq<BMember>> {
        self.b@.map_values(|col: Vec<BMember>| col@)
    }

    pub open spec fn wf(&self) -> bool {
        &&& self.w > 0
        &&& self.h > 0
        &&& self.w * self.h <= usize::MAX
        &&& self.b@.len() == self.w
        &&& forall|x: int| 0 <= x < self.w ==> (#[trigger] self.b@[x])@.len() == self.h
    }

    pub open spec fn all_empty(&self) -> bool {
        forall|x: int, y: int|
            in_bounds(x, y, self.w as int, self.h as int) ==> #[trigger] self.cells()[x][y]
                == BMember::Empty
    }

    /// An all-`Empty` grid of `w` columns and `h` rows.
    pub fn new(w: i64, h: i64) -> (r: Board)
        requires
            w > 0,
            h > 0,
            w * h <= usize::MAX,
        ensures
            r.wf(),
            r.w == w,
            r.h == h,
            r.all_empty(),
    {
        proof {
            lemma_dims_fit(w as int, h as int);
        }
        let mut b: Vec<Vec<BMember>> = Vec::new();
        let mut i: usize = 0;
        while i < w as usize
            invariant
                i <= w,
                w <= usize::MAX,
                h <= usize::MAX,
                h > 0,
                b@.len() == i,
                forall|x: int| 0 <= x < i ==> (#[trigger] b@[x])@.len() == h,
                forall|x: int, y: int|
                    0 <= x < i && 0 <= y < h ==> #[trigger] b@[x]@[y] == BMember::Empty,
            decreases w - i,
        {
            let mut col: Vec<BMember> = Vec::new();
            let mut j: usize = 0;
            while j < h as usize
                invariant
                    j <= h,
                    h <= usize::MAX,
                    col@.len() == j,
                    forall|y: int| 0 <= y < j ==> #[trigger] col@[y] == BMember::Empty,
                decreases h - j,
            {
                col.push(BMember::Empty);
                j = j + 1;
            }
            b.push(col);
            i = i + 1;
        }
        let r = Board { w, h, b };
        assert forall|x: int, y: int| in_bounds(x, y, w as int, h as int) implies #[trigger] r.cells()[x][y]
            == BMember::Empty by {
            assert(r.b@[x]@[y] == BMember::Empty);
        }
        r
    }

    pub fn in_bounds(&self, x: i64, y: i64) -> (r: bool)
        ensures
            r == in_bounds(x as int, y as int, self.w as int, self.h as int),
    {
        0 <= x && x < self.w && 0 <= y && y < self.h
    }

    /// The state of cell `(x, y)`, which must lie on the board.
    pub fn get(&self, x: i64, y: i64) -> (r: BMember)
        requires
            self.wf(),
            in_bounds(x as int, y as int, self.w as int, self.h as int),
        ensures
            r == self.cells()[x as int][y as int],
    {
        proof {
            lemma_dims_fit(self.w as int, self.h as int);
        }
        self.b[x as usize][y as usize]
    }

    /// Sets cell `(x, y)`, which must lie on the board, to `v`.
    pub fn set(&mut self, x: i64, y: i64, v: BMember)
        requires
            old(self).wf(),
            in_bounds(x as int, y as int, old(self).w as int, old(self).h as int),
        ensures
            final(self).wf(),
            final(self).w == old(self).w,
            final(self).h == old(self).h,
            final(self).cells() == set_cell(old(self).cells(), x as int, y as int, v),
    {
        proof {
            lemma_dims_fit(self.w as int, self.h as int);
        }
        let ghost pre = self.cells();
        let xi = x as usize;
        self.b[xi][y as usize] = v;
        assert(self.b@[xi as int]@ == pre[xi as int].update(y as int, v));
        assert(self.cells() =~= set_cell(old(self).cells(), x as int, y as int, v));
    }

    /// The first cell, in raster order from `(x, y)` over one whole turn of the
    /// board, that is `Empty` and is not `(ox, oy)`.
    pub fn first_free(&self, ox: i64, oy: i64, x: i64, y: i64) -> (r: Option<(i64, i64)>)
        requires
            self.wf(),
            in_bounds(x as int, y as int, self.w as int, self.h as int),
        ensures
            match r {
                Some(p) => scan(self.cells(), self.w as int, self.h as int, ox as int, oy as int, x as int, y as int, (self.w * self.h) as nat) == Some((p.0 as int, p.1 as int)),
                None => scan(self.cells(), self.w as int, self.h as int, ox as int, oy as int, x as int, y as int, (self.w * self.h) as nat) is None,
            },
            r matches Some(p) ==> {
                &&& in_bounds(p.0 as int, p.1 as int, self.w as int, self.h as int)
                &&& self.cells()[p.0 as int][p.1 as int] == BMember::Empty
                &&& (p.0 != ox || p.1 != oy)
            },
    {
        proof {
            lemma_dims_fit(self.w as int, self.h as int);
        }
        let n: usize = (self.w as usize) * (self.h as usize);
        let mut k: usize = 0;
        let mut ax: i64 = x;
        let mut ay: i64 = y;
        while k < n
            invariant
                self.wf(),
                n == self.w * self.h,
                k <= n,
                in_bounds(ax as int, ay as int, self.w as int, self.h as int),
                scan(self.cells(), self.w as int, self.h as int, ox as int, oy as int, x as int, y as int, n as nat)
                    == scan(self.cells(), self.w as int, self.h as int, ox as int, oy as int, ax as int, ay as int, (n - k) as nat),
            decreases n - k,
        {
            if (ax != ox || ay != oy) && self.get(ax, ay) == BMember::Empty {
                return Some((ax, ay));
            }
            ax = ax + 1;
            if ax >= self.w {
                ax = 0;
                ay = ay + 1;
            }
            if ay >= self.h {
                ay = 0;
            }
            k = k + 1;
        }
        None
    }
}

} // verus!

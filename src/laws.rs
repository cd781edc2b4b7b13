use vstd::prelude::*;

use crate::board::{in_bounds, raster_next, scan, BMember};
use crate::game::GameView;
use crate::snake::Dir;

verus! {

/// In a tick of a game that is not lost, only the cells under the head and the
/// tail at the start of the tick can change. The head's cell becomes `Snake`
/// and the tail's cell `Empty`, so at most one cell goes from `Snake` to
/// `Empty`, and exactly one from `Empty` to `Snake` when the head's cell was
/// `Empty` and is not the tail's. While growth budget is left, the tail
/// does not move.
pub proof fn lemma_tick_occupancy(g: GameView, i: Option<Dir>, sx: int, sy: int)
    requires
        g.wf(),
        !g.lost,
        in_bounds(sx, sy, g.w, g.h),
    ensures
        ({
            let n = g.step(i, sx, sy);
            let (hx, hy) = (g.snake.x, g.snake.y);
            let (tx, ty) = (g.snake.tx, g.snake.ty);
            &&& n.w == g.w && n.h == g.h
            &&& forall|x: int, y: int|
                in_bounds(x, y, g.w, g.h) && (x != hx || y != hy) && (x != tx || y != ty)
                    ==> #[trigger] n.cells[x][y] == g.cells[x][y]
            &&& (hx != tx || hy != ty) ==> n.cells[hx][hy] == BMember::Snake
            &&& n.cells[tx][ty] == BMember::Empty
            &&& forall|x: int, y: int|
                in_bounds(x, y, g.w, g.h) ==> (g.cells[x][y] == BMember::Empty && #[trigger] n.cells[x][y]
                    == BMember::Snake <==> x == hx && y == hy && (hx != tx || hy != ty)
                    && g.cells[hx][hy] == BMember::Empty)
            &&& forall|x: int, y: int|
                in_bounds(x, y, g.w, g.h) && g.cells[x][y] == BMember::Snake && #[trigger] n.cells[x][y]
                    == BMember::Empty ==> x == tx && y == ty
            &&& g.snake.l > 0 ==> n.snake.tx == tx && n.snake.ty == ty
        }),
{
}

/// A step of a lost game changes nothing.
pub proof fn lemma_lost_is_final(g: GameView, i: Option<Dir>, sx: int, sy: int)
    requires
        g.lost,
    ensures
        g.step(i, sx, sy) == g,
{
}

/// Relocation is determined by the board, the apple and the cell the search
/// starts from: two games that agree on these get the same apple cell and the
/// same outcome.
pub proof fn lemma_relocate_deterministic(g1: GameView, g2: GameView, sx: int, sy: int)
    requires
        g1.cells == g2.cells,
        g1.w == g2.w,
        g1.h == g2.h,
        g1.ax == g2.ax,
        g1.ay == g2.ay,
        g1.lost == g2.lost,
    ensures
        g1.relocated(sx, sy).ax == g2.relocated(sx, sy).ax,
        g1.relocated(sx, sy).ay == g2.relocated(sx, sy).ay,
        g1.relocated(sx, sy).lost == g2.relocated(sx, sy).lost,
        g1.relocated(sx, sy).snake.l == g2.relocated(sx, sy).snake.l,
{
}

/// A cell found by the raster scan lies on the board, is `Empty`, and is not
/// the excluded cell.
pub proof fn lemma_scan_sound(
    c: Seq<Seq<BMember>>,
    w: int,
    h: int,
    ox: int,
    oy: int,
    x: int,
    y: int,
    n: nat,
)
    requires
        w > 0,
        h > 0,
        in_bounds(x, y, w, h),
    ensures
        scan(c, w, h, ox, oy, x, y, n) matches Some(p) ==> {
            &&& in_bounds(p.0, p.1, w, h)
            &&& c[p.0][p.1] == BMember::Empty
            &&& (p.0 != ox || p.1 != oy)
        },
    decreases n,
{
    if n > 0 && !((x != ox || y != oy) && c[x][y] == BMember::Empty) {
        let (nx, ny) = raster_next(x, y, w, h);
        lemma_scan_sound(c, w, h, ox, oy, nx, ny, (n - 1) as nat);
    }
}

/// A relocation that does not lose the game puts the apple on an `Empty` cell
/// of the board other than its old one, and renews the growth budget.
pub proof fn lemma_relocate_free_cell(g: GameView, sx: int, sy: int)
    requires
        g.wf(),
        in_bounds(sx, sy, g.w, g.h),
    ensures
        ({
            let r = g.relocated(sx, sy);
            &&& r.snake.l == 3
            &&& r.cells == g.cells
            &&& !r.lost ==> {
                &&& in_bounds(r.ax, r.ay, g.w, g.h)
                &&& g.cells[r.ax][r.ay] == BMember::Empty
                &&& (r.ax != g.ax || r.ay != g.ay)
            }
        }),
{
    lemma_scan_sound(g.cells, g.w, g.h, g.ax, g.ay, sx, sy, (g.w * g.h) as nat);
}

} // verus!

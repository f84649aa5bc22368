//! The grid calculator: how many rows and columns divide the screen between
//! the players, and how large one cell is.

use vstd::prelude::*;
use crate::resolution::Resolution;

verus! {

/// One cell of the grid, counted from the top-left corner.
#[derive(Clone, Copy, Debug, PartialEq, Eq, Hash, Structural)]
pub struct GridPosition {
    pub row: u32,
    pub col: u32,
}

/// A partition of the screen into `rows * cols` equally sized cells.
#[derive(Clone, Copy, Debug, PartialEq, Eq, Structural)]
pub struct Grid {
    pub rows: u32,
    pub cols: u32,
    pub res: Resolution,
}

/// `root` is the ceiling of the square root of `num / den`: the least natural
/// number whose square, multiplied by `den`, reaches `num`.
pub open spec fn is_ceil_sqrt(root: nat, num: nat, den: nat) -> bool {
    &&& root * root * den >= num
    &&& root >= 1 ==> (root - 1) * (root - 1) * den < num
}

/// The ceiling of `a / b` for a positive `b`.
pub open spec fn ceil_div(a: nat, b: nat) -> nat {
    ((a + b - 1) / b as int) as nat
}

/// The aspect-aware shape: the column count is `ceil(sqrt(players * width /
/// height))` and the rows are as many as the players then need.
pub open spec fn is_aspect_aware(rows: nat, cols: nat, players: nat, res: Resolution) -> bool {
    &&& is_ceil_sqrt(cols, players * res.width as nat, res.height as nat)
    &&& rows == ceil_div(players, cols)
}

/// The square-first shape: the row count is `ceil(sqrt(players))` and the
/// columns are as many as the players then need.
pub open spec fn is_square_first(rows: nat, cols: nat, players: nat) -> bool {
    &&& is_ceil_sqrt(rows, players, 1)
    &&& cols == ceil_div(players, rows)
}

/// At most one number is the ceiling of a given square root.
pub proof fn lemma_ceil_sqrt_unique(a: nat, b: nat, num: nat, den: nat)
    requires
        is_ceil_sqrt(a, num, den),
        is_ceil_sqrt(b, num, den),
    ensures
        a == b,
{
    if a < b {
        assert(a * a * den <= (b - 1) * (b - 1) * den) by (nonlinear_arith)
            requires
                a <= b - 1,
        ;
    } else if b < a {
        assert(b * b * den <= (a - 1) * (a - 1) * den) by (nonlinear_arith)
            requires
                b <= a - 1,
        ;
    }
}

/// Each policy allows one grid only for a player count and a screen.
pub proof fn lemma_grid_shape_is_unique(
    rows: nat,
    cols: nat,
    other_rows: nat,
    other_cols: nat,
    players: nat,
    res: Resolution,
)
    requires
        (is_aspect_aware(rows, cols, players, res) && is_aspect_aware(
            other_rows,
            other_cols,
            players,
            res,
        )) || (is_square_first(rows, cols, players) && is_square_first(
            other_rows,
            other_cols,
            players,
        )),
    ensures
        rows == other_rows,
        cols == other_cols,
{
    if is_aspect_aware(rows, cols, players, res) && is_aspect_aware(
        other_rows,
        other_cols,
        players,
        res,
    ) {
        lemma_ceil_sqrt_unique(cols, other_cols, players * res.width as nat, res.height as nat);
    } else {
        lemma_ceil_sqrt_unique(rows, other_rows, players, 1);
    }
}

/// The ceiling of a quotient is the least multiplier that covers the dividend.
pub proof fn lemma_ceil_div_bounds(a: nat, b: nat)
    requires
        b >= 1,
    ensures
        ceil_div(a, b) * b >= a,
        ceil_div(a, b) * b < a + b,
        a >= 1 ==> ceil_div(a, b) >= 1,
        ceil_div(a, b) <= a,
{
    let q = (a + b - 1) / b as int;
    let r = (a + b - 1) % b as int;
    assert(a + b - 1 == q * b + r && 0 <= r < b && q >= 0) by (nonlinear_arith)
        requires
            b >= 1,
            q == (a + b - 1) / b as int,
            r == (a + b - 1) % b as int,
    ;
    assert(q <= a) by (nonlinear_arith)
        requires
            a + b - 1 == q * b + r,
            0 <= r,
            b >= 1,
            q >= 0,
    ;
    assert(a >= 1 ==> q >= 1) by (nonlinear_arith)
        requires
            a + b - 1 == q * b + r,
            r < b,
            b >= 1,
    ;
}

/// Both grid policies give every player a cell and leave no whole row empty:
/// `rows * cols` is at least the player count and exceeds it by less than one
/// row of cells.
pub proof fn lemma_grid_has_no_spare_row(rows: nat, cols: nat, players: nat, res: Resolution)
    requires
        players >= 1,
        res.is_positive(),
        is_aspect_aware(rows, cols, players, res) || is_square_first(rows, cols, players),
    ensures
        rows >= 1,
        cols >= 1,
        rows * cols >= players,
        rows * cols - players < cols,
{
    if is_aspect_aware(rows, cols, players, res) {
        assert(players * res.width as nat >= 1) by (nonlinear_arith)
            requires
                players >= 1,
                res.width >= 1,
        ;
        assert(cols >= 1) by {
            if cols == 0 {
                assert(cols * cols * res.height as nat == 0) by (nonlinear_arith)
                    requires
                        cols == 0,
                ;
            }
        }
        lemma_ceil_div_bounds(players, cols);
    } else {
        assert(rows >= 1) by {
            if rows == 0 {
                assert(rows * rows * 1 == 0) by (nonlinear_arith)
                    requires
                        rows == 0,
                ;
            }
        }
        lemma_ceil_div_bounds(players, rows);
        let r = rows as int;
        let c = cols as int;
        let n = players as int;
        assert(r * c == c * r) by (nonlinear_arith);
        assert(r * c - n < c) by (nonlinear_arith)
            requires
                r >= 1,
                c >= 1,
                n >= 1,
                r * r * 1 >= n,
                (r - 1) * (r - 1) * 1 < n,
                c * r >= n,
                c * r < n + r,
        ;
    }
}

/// The ceiling of the square root of `num / den`, found by bisection.
fn ceil_sqrt_ratio(num: u64, den: u32) -> (root: u32)
    requires
        num >= 1,
        den >= 1,
        num <= 0xffff_ffff * 0xffff_ffff,
    ensures
        is_ceil_sqrt(root as nat, num as nat, den as nat),
        root >= 1,
{
    let mut lo: u32 = 0;
    let mut hi: u32 = u32::MAX;
    assert(hi * hi * den >= num) by (nonlinear_arith)
        requires
            hi == 0xffff_ffff,
            den >= 1,
            num <= 0xffff_ffff * 0xffff_ffff,
    ;
    assert(lo * lo * den == 0) by (nonlinear_arith)
        requires
            lo == 0,
    ;
    while hi - lo > 1
        invariant
            lo < hi,
            lo * lo * den < num,
            hi * hi * den >= num,
        decreases hi - lo,
    {
        let mid: u32 = lo + (hi - lo) / 2;
        assert(mid * mid * den <= 0xffff_ffff * 0xffff_ffff * 0xffff_ffff && mid * mid
            <= 0xffff_ffff * 0xffff_ffff) by (nonlinear_arith)
            requires
                mid <= 0xffff_ffff,
                den <= 0xffff_ffff,
        ;
        let square: u128 = (mid as u128) * (mid as u128);
        let scaled: u128 = square * (den as u128);
        if scaled >= num as u128 {
            hi = mid;
        } else {
            lo = mid;
        }
    }
    hi
}

/// The ceiling of `a / b`, computed without overflow.
fn ceil_div_u32(a: u32, b: u32) -> (q: u32)
    requires
        b >= 1,
    ensures
        q == ceil_div(a as nat, b as nat),
{
    proof {
        lemma_ceil_div_bounds(a as nat, b as nat);
    }
    let q: u64 = (a as u64 + b as u64 - 1) / (b as u64);
    q as u32
}

impl Grid {
    /// Rows and columns are both at least one.
    pub open spec fn is_nonempty(self) -> bool {
        self.rows >= 1 && self.cols >= 1
    }

    /// The number of cells, occupied or not.
    pub fn cells_number(&self) -> (n: u32)
        requires
            self.rows * self.cols <= u32::MAX,
        ensures
            n == self.rows * self.cols,
    {
        self.rows * self.cols
    }

    /// The size of one cell: the screen divided by the column and row counts,
    /// rounded down. The cells need not tile the screen; the remaining pixels
    /// stay unused. A cell is never larger than the screen, and it has a
    /// positive width (height) exactly when there are no more columns (rows)
    /// than pixels.
    pub fn single_cell_res(&self) -> (cell: Resolution)
        requires
            self.is_nonempty(),
        ensures
            cell.width == self.res.width / self.cols,
            cell.height == self.res.height / self.rows,
            cell.width <= self.res.width,
            cell.height <= self.res.height,
            cell.width >= 1 <==> self.cols <= self.res.width,
            cell.height >= 1 <==> self.rows <= self.res.height,
    {
        proof {
            lemma_quotient_bounds(self.res.width as nat, self.cols as nat);
            lemma_quotient_bounds(self.res.height as nat, self.rows as nat);
        }
        Resolution { width: self.res.width / self.cols, height: self.res.height / self.rows }
    }

    /// The aspect-aware grid for `player_count` players: wide screens get more
    /// columns. `cols = ceil(sqrt(player_count * width / height))` and
    /// `rows = ceil(player_count / cols)`, both computed exactly.
    pub fn new(player_count: u32, resolution: Resolution) -> (grid: Grid)
        requires
            player_count >= 1,
            resolution.is_positive(),
        ensures
            grid.res == resolution,
            is_aspect_aware(grid.rows as nat, grid.cols as nat, player_count as nat, resolution),
            grid.is_nonempty(),
            grid.rows * grid.cols >= player_count,
            grid.rows * grid.cols - player_count < grid.cols,
    {
        assert(1 <= player_count * resolution.width <= 0xffff_ffff * 0xffff_ffff)
            by (nonlinear_arith)
            requires
                1 <= player_count <= 0xffff_ffff,
                1 <= resolution.width <= 0xffff_ffff,
        ;
        let scaled: u64 = (player_count as u64) * (resolution.width as u64);
        let cols: u32 = ceil_sqrt_ratio(scaled, resolution.height);
        let rows: u32 = ceil_div_u32(player_count, cols);
        proof {
            lemma_grid_has_no_spare_row(rows as nat, cols as nat, player_count as nat, resolution);
        }
        Grid { rows, cols, res: resolution }
    }

    /// The square-first grid for `player_count` players, whatever the shape of
    /// the screen: `rows = ceil(sqrt(player_count))` and
    /// `cols = ceil(player_count / rows)`.
    pub fn new_square(player_count: u32, resolution: Resolution) -> (grid: Grid)
        requires
            player_count >= 1,
            resolution.is_positive(),
        ensures
            grid.res == resolution,
            is_square_first(grid.rows as nat, grid.cols as nat, player_count as nat),
            grid.is_nonempty(),
            grid.rows * grid.cols >= player_count,
            grid.rows * grid.cols - player_count < grid.cols,
    {
        let rows: u32 = ceil_sqrt_ratio(player_count as u64, 1);
        let cols: u32 = ceil_div_u32(player_count, rows);
        proof {
            lemma_grid_has_no_spare_row(rows as nat, cols as nat, player_count as nat, resolution);
        }
        Grid { rows, cols, res: resolution }
    }
}

/// A quotient by a positive divisor is at most the dividend, and positive
/// exactly when the divisor does not exceed the dividend.
pub proof fn lemma_quotient_bounds(a: nat, b: nat)
    requires
        b >= 1,
    ensures
        a / b <= a,
        a / b >= 1 <==> b <= a,
{
    assert(a / b <= a && (a / b >= 1 <==> b <= a)) by (nonlinear_arith)
        requires
            b >= 1,
    ;
}

} // verus!

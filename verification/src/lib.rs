use vstd::prelude::*;
use vstd::arithmetic::div_mod::lemma_fundamental_div_mod;
use vstd::arithmetic::div_mod::lemma_multiply_divide_lt;
use vstd::arithmetic::mul::lemma_mul_is_commutative;

pub mod random;

use crate::random::random_range;

verus! {

/// A grid cell, written `(x, y)` with `x` counted from the left edge and `y`
/// from the top edge.
pub type Position = (usize, usize);

/// The outcome of querying a cell: either the cell holds a mine, or it
/// reports how many of its in-range neighbors hold one.
#[derive(Clone, Copy, Debug, PartialEq, Eq, Structural)]
pub enum OpenResult {
    Mine,
    Near(u8),
}

/// Why board construction can fail.
#[derive(Clone, Copy, Debug, PartialEq, Eq, Structural)]
pub enum BoardError {
    /// More mines were requested than the grid has cells.
    InvalidConfiguration,
}

/// A Minesweeper board: fixed dimensions, a fixed set of mined cells chosen
/// at construction, and the (so far never mutated) opened and flagged sets.
#[derive(Debug)]
pub struct Minesweeper {
    width: usize,
    height: usize,
    open_fields: Vec<Position>,
    mines: Vec<Position>,
    flagged_fields: Vec<Position>,
}

/// 1 when the condition holds, 0 otherwise; used to state neighbor counts.
pub open spec fn one_if(b: bool) -> int {
    if b {
        1
    } else {
        0
    }
}

/// A mine list is valid for a grid when every entry lies on the grid and no
/// cell appears twice. Any such list is a legal mine set: nothing beyond
/// bounds and uniqueness is demanded, in particular no spacing between mines.
pub open spec fn valid_mine_list(width: int, height: int, s: Seq<Position>) -> bool {
    &&& forall|k: int|
        0 <= k < s.len() ==> (#[trigger] s[k]).0 < width && s[k].1 < height
    &&& forall|k1: int, k2: int| 0 <= k1 < k2 < s.len() ==> s[k1] != s[k2]
}

/// The row-major index of a cell, used to show that distinct draws of the
/// sampling loop yield distinct cells.
spec fn cell_index(p: Position, width: int) -> int {
    p.1 * width + p.0
}

impl Minesweeper {
    /// The board width as a mathematical integer.
    pub closed spec fn spec_width(self) -> int {
        self.width as int
    }

    /// The board height as a mathematical integer.
    pub closed spec fn spec_height(self) -> int {
        self.height as int
    }

    /// The recorded mines, in the order they were recorded.
    pub closed spec fn mines_seq(self) -> Seq<Position> {
        self.mines@
    }

    /// The cells recorded as opened (never added to by any operation).
    pub closed spec fn opened_seq(self) -> Seq<Position> {
        self.open_fields@
    }

    /// The cells recorded as flagged (never added to by any operation).
    pub closed spec fn flagged_seq(self) -> Seq<Position> {
        self.flagged_fields@
    }

    /// How many mines the board holds.
    pub open spec fn num_mines(self) -> nat {
        self.mines_seq().len()
    }

    /// Every recorded mine lies on the grid and no cell is recorded twice.
    pub open spec fn wf(self) -> bool {
        valid_mine_list(self.spec_width(), self.spec_height(), self.mines_seq())
    }

    /// True when the cell `(x, y)` is recorded as mined.
    pub open spec fn has_mine(self, x: int, y: int) -> bool {
        exists|k: int|
            0 <= k < self.mines_seq().len() && (#[trigger] self.mines_seq()[k]).0 == x
                && self.mines_seq()[k].1 == y
    }

    /// True when `(x, y)` is a cell of the grid and is mined. Candidates off
    /// the grid never count, whatever the mine list holds.
    pub open spec fn mined_in_range(self, x: int, y: int) -> bool {
        0 <= x < self.spec_width() && 0 <= y < self.spec_height() && self.has_mine(x, y)
    }

    /// The number of mined cells among the in-range neighbors of `(x, y)`:
    /// the eight cells at Chebyshev distance one, the cell itself excluded,
    /// each counted only when it lies on the grid.
    pub open spec fn surround_count(self, x: int, y: int) -> int {
        one_if(self.mined_in_range(x - 1, y - 1)) + one_if(self.mined_in_range(x, y - 1)) + one_if(
            self.mined_in_range(x + 1, y - 1),
        ) + one_if(self.mined_in_range(x - 1, y)) + one_if(self.mined_in_range(x + 1, y)) + one_if(
            self.mined_in_range(x - 1, y + 1),
        ) + one_if(self.mined_in_range(x, y + 1)) + one_if(self.mined_in_range(x + 1, y + 1))
    }

    /// What querying the cell `(x, y)` returns: `Mine` on a mined cell, and
    /// otherwise the count of mined in-range neighbors. The result is a
    /// function of the board state and the position alone.
    pub open spec fn open_spec(self, x: int, y: int) -> OpenResult {
        if self.has_mine(x, y) {
            OpenResult::Mine
        } else {
            OpenResult::Near(self.surround_count(x, y) as u8)
        }
    }

    /// Builds a board of the given dimensions with exactly `mine_count`
    /// distinct mines drawn at random, all on the grid. Rejects a request
    /// for more mines than the grid has cells instead of looping forever.
    pub fn new(width: usize, height: usize, mine_count: usize) -> (r: Result<
        Minesweeper,
        BoardError,
    >)
        requires
            width * height <= usize::MAX,
        ensures
            mine_count <= width * height <==> r is Ok,
            r matches Ok(b) ==> b.wf() && b.spec_width() == width && b.spec_height() == height
                && b.num_mines() == mine_count && b.opened_seq().len() == 0 && b.flagged_seq().len()
                == 0,
            mine_count > width * height ==> r == Err::<Minesweeper, BoardError>(
                BoardError::InvalidConfiguration,
            ),
    {
        let total: usize = width * height;
        if mine_count > total {
            return Err(BoardError::InvalidConfiguration);
        }
        let mut mines: Vec<Position> = Vec::new();
        let mut idx: usize = 0;
        // Uniform sampling without replacement: walk the cells in row-major
        // order and keep each one with probability needed / remaining. Every
        // cell is visited at most once, so the drawn cells are distinct, and
        // needed <= remaining is maintained, so exactly mine_count are drawn.
        while mines.len() < mine_count
            invariant
                idx <= total,
                total == width * height,
                mines@.len() <= mine_count,
                mine_count - mines@.len() <= total - idx,
                forall|k: int|
                    0 <= k < mines@.len() ==> (#[trigger] mines@[k]).0 < width && mines@[k].1
                        < height,
                forall|k: int|
                    0 <= k < mines@.len() ==> cell_index(#[trigger] mines@[k], width as int) < idx,
                forall|k1: int, k2: int|
                    0 <= k1 < k2 < mines@.len() ==> cell_index(mines@[k1], width as int)
                        < cell_index(mines@[k2], width as int),
            decreases total - idx,
        {
            let remaining: usize = total - idx;
            let needed: usize = mine_count - mines.len();
            let draw: usize = random_range(0, remaining);
            if draw < needed {
                proof {
                    assert(width > 0) by (nonlinear_arith)
                        requires
                            total == width * height,
                            idx < total,
                    ;
                    lemma_multiply_divide_lt(idx as int, width as int, height as int);
                    lemma_fundamental_div_mod(idx as int, width as int);
                }
                let x: usize = idx % width;
                let y: usize = idx / width;
                proof {
                    lemma_mul_is_commutative(y as int, width as int);
                    assert(cell_index((x, y), width as int) == idx as int);
                }
                mines.push((x, y));
            }
            idx = idx + 1;
        }
        proof {
            assert forall|k1: int, k2: int|
                0 <= k1 < k2 < mines@.len() implies mines@[k1] != mines@[k2] by {
                assert(cell_index(mines@[k1], width as int) < cell_index(mines@[k2], width as int));
            }
        }
        Ok(
            Minesweeper {
                width,
                height,
                open_fields: Vec::new(),
                mines,
                flagged_fields: Vec::new(),
            },
        )
    }

    /// Builds a board with the given fixed mine list, bypassing the random
    /// draw (e.g. for reproducible setups). Accepts every valid mine list
    /// and returns `None` exactly when some entry lies off the grid or some
    /// cell appears twice.
    pub fn with_mines(width: usize, height: usize, mines: Vec<Position>) -> (r: Option<
        Minesweeper,
    >)
        ensures
            r is Some <==> valid_mine_list(width as int, height as int, mines@),
            r matches Some(b) ==> b.wf() && b.spec_width() == width && b.spec_height() == height
                && b.mines_seq() == mines@ && b.opened_seq().len() == 0 && b.flagged_seq().len()
                == 0,
    {
        let mut i: usize = 0;
        while i < mines.len()
            invariant
                i <= mines@.len(),
                forall|k: int|
                    0 <= k < i ==> (#[trigger] mines@[k]).0 < width && mines@[k].1 < height,
                forall|k1: int, k2: int| 0 <= k1 < k2 < i ==> mines@[k1] != mines@[k2],
            decreases mines@.len() - i,
        {
            let m: Position = mines[i];
            if m.0 >= width || m.1 >= height {
                return None;
            }
            let mut j: usize = 0;
            while j < i
                invariant
                    j <= i < mines@.len(),
                    m == mines@[i as int],
                    forall|k: int| 0 <= k < j ==> mines@[k] != mines@[i as int],
                decreases i - j,
            {
                let e: Position = mines[j];
                if e.0 == m.0 && e.1 == m.1 {
                    return None;
                }
                j = j + 1;
            }
            i = i + 1;
        }
        Some(
            Minesweeper {
                width,
                height,
                open_fields: Vec::new(),
                mines,
                flagged_fields: Vec::new(),
            },
        )
    }

    /// The board width.
    pub fn width(&self) -> (w: usize)
        ensures
            w == self.spec_width(),
    {
        self.width
    }

    /// The board height.
    pub fn height(&self) -> (h: usize)
        ensures
            h == self.spec_height(),
    {
        self.height
    }

    /// The recorded mines, in the order they were recorded.
    pub fn mine_positions(&self) -> (m: &Vec<Position>)
        ensures
            m@ == self.mines_seq(),
    {
        &self.mines
    }

    /// Whether the mine list records the cell `(x, y)`.
    fn contains_mine(&self, x: usize, y: usize) -> (r: bool)
        ensures
            r == self.has_mine(x as int, y as int),
    {
        let mut i: usize = 0;
        while i < self.mines.len()
            invariant
                i <= self.mines_seq().len(),
                forall|k: int|
                    0 <= k < i ==> !((#[trigger] self.mines_seq()[k]).0 == x
                        && self.mines_seq()[k].1 == y),
            decreases self.mines_seq().len() - i,
        {
            let m: Position = self.mines[i];
            if m.0 == x && m.1 == y {
                return true;
            }
            i = i + 1;
        }
        false
    }

    /// Whether `(x, y)` lies on the grid and is mined.
    fn is_mined_in_range(&self, x: usize, y: usize) -> (r: bool)
        ensures
            r == self.mined_in_range(x as int, y as int),
    {
        if x < self.width && y < self.height {
            self.contains_mine(x, y)
        } else {
            false
        }
    }

    /// Counts the mined cells among the in-range neighbors of `pos`,
    /// skipping every candidate that falls off the grid.
    fn count_surround_mines(&self, pos: &Position) -> (n: u8)
        ensures
            n as int == self.surround_count(pos.0 as int, pos.1 as int),
    {
        let x: usize = pos.0;
        let y: usize = pos.1;
        let mut n: u8 = 0;
        if y > 0 {
            if x > 0 && self.is_mined_in_range(x - 1, y - 1) {
                n = n + 1;
            }
            if self.is_mined_in_range(x, y - 1) {
                n = n + 1;
            }
            if x < usize::MAX && self.is_mined_in_range(x + 1, y - 1) {
                n = n + 1;
            }
        }
        if x > 0 && self.is_mined_in_range(x - 1, y) {
            n = n + 1;
        }
        if x < usize::MAX && self.is_mined_in_range(x + 1, y) {
            n = n + 1;
        }
        if y < usize::MAX {
            if x > 0 && self.is_mined_in_range(x - 1, y + 1) {
                n = n + 1;
            }
            if self.is_mined_in_range(x, y + 1) {
                n = n + 1;
            }
            if x < usize::MAX && self.is_mined_in_range(x + 1, y + 1) {
                n = n + 1;
            }
        }
        n
    }

    /// Queries a cell: `Mine` when it is mined, otherwise `Near(n)` with `n`
    /// the exact count of mined in-range neighbors. Read-only: the board is
    /// untouched, and no record of the query is kept. A position off the
    /// grid is not rejected; its in-range neighbors are counted as usual.
    pub fn open(&self, pos: &Position) -> (r: OpenResult)
        ensures
            r == self.open_spec(pos.0 as int, pos.1 as int),
            self.has_mine(pos.0 as int, pos.1 as int) ==> r == OpenResult::Mine,
            !self.has_mine(pos.0 as int, pos.1 as int) ==> r == OpenResult::Near(
                self.surround_count(pos.0 as int, pos.1 as int) as u8,
            ),
    {
        if self.contains_mine(pos.0, pos.1) {
            OpenResult::Mine
        } else {
            OpenResult::Near(self.count_surround_mines(pos))
        }
    }
}

/// A neighbor-mine count always lies between 0 and 8: at most the eight
/// cells at Chebyshev distance one are considered.
pub proof fn lemma_count_bound(b: Minesweeper, x: int, y: int)
    ensures
        0 <= b.surround_count(x, y) <= 8,
{
}

/// A corner cell has at most three in-range neighbors, so its neighbor-mine
/// count never exceeds three.
pub proof fn lemma_corner_count(b: Minesweeper, x: int, y: int)
    requires
        x == 0 || x == b.spec_width() - 1,
        y == 0 || y == b.spec_height() - 1,
    ensures
        b.surround_count(x, y) <= 3,
{
}

/// A cell on the boundary of the grid has at most five in-range neighbors,
/// so its neighbor-mine count never exceeds five.
pub proof fn lemma_edge_count(b: Minesweeper, x: int, y: int)
    requires
        x == 0 || x == b.spec_width() - 1 || y == 0 || y == b.spec_height() - 1,
    ensures
        b.surround_count(x, y) <= 5,
{
}

/// For an interior cell all eight neighbors lie on the grid, so boundary
/// clipping removes nothing: the count is exactly the number of mined cells
/// among the eight neighbors.
pub proof fn lemma_interior_count(b: Minesweeper, x: int, y: int)
    requires
        0 < x < b.spec_width() - 1,
        0 < y < b.spec_height() - 1,
    ensures
        b.surround_count(x, y) == one_if(b.has_mine(x - 1, y - 1)) + one_if(b.has_mine(x, y - 1))
            + one_if(b.has_mine(x + 1, y - 1)) + one_if(b.has_mine(x - 1, y)) + one_if(
            b.has_mine(x + 1, y),
        ) + one_if(b.has_mine(x - 1, y + 1)) + one_if(b.has_mine(x, y + 1)) + one_if(
            b.has_mine(x + 1, y + 1),
        ),
{
}

/// Opening is idempotent: the result of a query is a function of the board
/// state and the position alone, so with the board unchanged, repeated
/// queries of the same cell return the same result.
pub proof fn lemma_open_idempotent(b: Minesweeper, x: int, y: int, r1: OpenResult, r2: OpenResult)
    requires
        r1 == b.open_spec(x, y),
        r2 == b.open_spec(x, y),
    ensures
        r1 == r2,
{
}

} // verus!

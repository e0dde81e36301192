//! The occupancy snapshot of one tick: a grid of three-valued cells, rebuilt
//! from the junk heaps at the start of every tick and then progressively
//! marked as robots move. The board is a derived cache, never the source of
//! truth for entity positions.
use vstd::prelude::*;
use crate::{BOARD_WIDTH, BOARD_HEIGHT, in_bounds};
use crate::entities::JunkHeap;

verus! {

/// Occupancy of one board cell.
#[derive(Clone, Copy, PartialEq, Eq, Structural, Debug)]
pub enum Cell {
    Empty,
    Robot,
    Junk,
}

/// The game board: `BOARD_HEIGHT` rows of `BOARD_WIDTH` cells, addressed by
/// 1-based coordinates `(x, y)` with `x` the column and `y` the row.
pub struct Board {
    rows: Vec<Vec<Cell>>,
}

impl Board {
    /// The board has its full dimensions.
    pub closed spec fn wf(self) -> bool {
        &&& self.rows@.len() == BOARD_HEIGHT
        &&& forall|r: int| 0 <= r < self.rows@.len() ==> (#[trigger] self.rows@[r])@.len() == BOARD_WIDTH
    }

    /// The cell at 1-based position (x, y).
    pub closed spec fn cell(self, x: int, y: int) -> Cell {
        self.rows@[y - 1]@[x - 1]
    }

    /// A fresh board with every cell `Empty`.
    pub fn new() -> (b: Board)
        ensures
            b.wf(),
            forall|x: int, y: int| in_bounds(x, y) ==> b.cell(x, y) == Cell::Empty,
    {
        let mut rows: Vec<Vec<Cell>> = Vec::new();
        while rows.len() < BOARD_HEIGHT as usize
            invariant
                rows@.len() <= BOARD_HEIGHT,
                forall|r: int| 0 <= r < rows@.len() ==> (#[trigger] rows@[r])@.len() == BOARD_WIDTH,
                forall|r: int, c: int|
                    0 <= r < rows@.len() && 0 <= c < BOARD_WIDTH ==> #[trigger] rows@[r]@[c] == Cell::Empty,
            decreases BOARD_HEIGHT - rows@.len(),
        {
            let mut row: Vec<Cell> = Vec::new();
            while row.len() < BOARD_WIDTH as usize
                invariant
                    row@.len() <= BOARD_WIDTH,
                    forall|c: int| 0 <= c < row@.len() ==> row@[c] == Cell::Empty,
                decreases BOARD_WIDTH - row@.len(),
            {
                row.push(Cell::Empty);
            }
            rows.push(row);
        }
        Board { rows }
    }

    /// Read the cell at 1-based position (x, y).
    pub fn get(&self, x: i32, y: i32) -> (c: Cell)
        requires
            self.wf(),
            in_bounds(x as int, y as int),
        ensures
            c == self.cell(x as int, y as int),
    {
        self.rows[(y - 1) as usize][(x - 1) as usize]
    }

    /// Write the cell at 1-based position (x, y); every other cell keeps its
    /// value.
    pub fn set(&mut self, x: i32, y: i32, c: Cell)
        requires
            old(self).wf(),
            in_bounds(x as int, y as int),
        ensures
            final(self).wf(),
            final(self).cell(x as int, y as int) == c,
            forall|xx: int, yy: int|
                in_bounds(xx, yy) && !(xx == x as int && yy == y as int)
                    ==> #[trigger] final(self).cell(xx, yy) == old(self).cell(xx, yy),
    {
        let row: &mut Vec<Cell> = &mut self.rows[(y - 1) as usize];
        row[(x - 1) as usize] = c;
    }

    /// Reset every cell to `Empty`.
    pub fn clear(&mut self)
        requires
            old(self).wf(),
        ensures
            final(self).wf(),
            forall|x: int, y: int| in_bounds(x, y) ==> final(self).cell(x, y) == Cell::Empty,
    {
        let mut y: i32 = 1;
        while y <= BOARD_HEIGHT
            invariant
                1 <= y <= BOARD_HEIGHT + 1,
                self.wf(),
                forall|xx: int, yy: int|
                    in_bounds(xx, yy) && yy < y ==> #[trigger] self.cell(xx, yy) == Cell::Empty,
            decreases BOARD_HEIGHT + 1 - y,
        {
            let mut x: i32 = 1;
            while x <= BOARD_WIDTH
                invariant
                    1 <= x <= BOARD_WIDTH + 1,
                    1 <= y <= BOARD_HEIGHT,
                    self.wf(),
                    forall|xx: int, yy: int|
                        in_bounds(xx, yy) && yy < y ==> #[trigger] self.cell(xx, yy) == Cell::Empty,
                    forall|xx: int| 1 <= xx < x ==> #[trigger] self.cell(xx, y as int) == Cell::Empty,
                decreases BOARD_WIDTH + 1 - x,
            {
                self.set(x, y, Cell::Empty);
                x = x + 1;
            }
            y = y + 1;
        }
    }

    /// True when some heap among the first `n` lies at (x, y).
    pub open spec fn junk_at_prefix(heaps: Seq<JunkHeap>, n: int, x: int, y: int) -> bool {
        exists|k: int| 0 <= k < n && #[trigger] heaps[k].pos_x == x && heaps[k].pos_y == y
    }

    /// True when some heap lies at (x, y).
    pub open spec fn junk_at(heaps: Seq<JunkHeap>, x: int, y: int) -> bool {
        Self::junk_at_prefix(heaps, heaps.len() as int, x, y)
    }

    /// The board is the rebuild of the given junk heaps: a cell is `Junk`
    /// exactly when a heap lies on it, and `Empty` otherwise.
    pub open spec fn is_rebuilt(b: Board, heaps: Seq<JunkHeap>) -> bool {
        &&& b.wf()
        &&& forall|x: int, y: int|
            in_bounds(x, y) ==> #[trigger] b.cell(x, y)
                == (if Self::junk_at(heaps, x, y) { Cell::Junk } else { Cell::Empty })
    }

    /// Rebuild the board from the junk heaps: a cell is `Junk` exactly when a
    /// heap lies on it, and `Empty` otherwise.
    pub fn rebuild(&mut self, heaps: &Vec<JunkHeap>)
        requires
            old(self).wf(),
            forall|k: int| 0 <= k < heaps@.len() ==> (#[trigger] heaps@[k]).wf(),
        ensures
            Self::is_rebuilt(*final(self), heaps@),
    {
        self.clear();
        let mut k: usize = 0;
        while k < heaps.len()
            invariant
                k <= heaps@.len(),
                self.wf(),
                forall|kk: int| 0 <= kk < heaps@.len() ==> (#[trigger] heaps@[kk]).wf(),
                forall|x: int, y: int|
                    in_bounds(x, y) ==> #[trigger] self.cell(x, y)
                        == (if Self::junk_at_prefix(heaps@, k as int, x, y) { Cell::Junk } else { Cell::Empty }),
            decreases heaps@.len() - k,
        {
            let h = heaps[k];
            self.set(h.pos_x, h.pos_y, Cell::Junk);
            k = k + 1;
            assert forall|x: int, y: int| in_bounds(x, y) implies #[trigger] self.cell(x, y)
                == (if Self::junk_at_prefix(heaps@, k as int, x, y) { Cell::Junk } else { Cell::Empty }) by {
                if x == h.pos_x as int && y == h.pos_y as int {
                    assert(Self::junk_at_prefix(heaps@, k as int, x, y)) by {
                        assert(heaps@[k - 1].pos_x == x && heaps@[k - 1].pos_y == y);
                    }
                } else {
                    if Self::junk_at_prefix(heaps@, k as int, x, y) {
                        let kk = choose|kk: int|
                            0 <= kk < k && #[trigger] heaps@[kk].pos_x == x && heaps@[kk].pos_y == y;
                        assert(kk < k - 1);
                        assert(Self::junk_at_prefix(heaps@, k as int - 1, x, y));
                    }
                }
            }
        }
    }
}

} // verus!

//! The board: a rectangle of cells stored row by row.

use crate::block::{Block, BlockType};
use crate::random::next_usize;
use vstd::prelude::*;

verus! {

/// The number of vacant cells among the first `p` of `cells`.
pub open spec fn vacant_before(cells: Seq<BlockType>, p: int) -> nat
    decreases p,
{
    if p <= 0 {
        0
    } else {
        let rest = vacant_before(cells, p - 1);
        if cells[p - 1] == BlockType::Vacant {
            rest + 1
        } else {
            rest
        }
    }
}

/// The number of vacant cells in `cells`.
pub open spec fn vacant_count(cells: Seq<BlockType>) -> nat {
    vacant_before(cells, cells.len() as int)
}

/// What a fruit's arrival makes of `cells`, given the random number `r`:
/// the vacant cell that has `r mod n` vacant cells before it, where `n`
/// counts all vacant cells, or nothing on a board without a vacant cell.
pub open spec fn fruit_cell(cells: Seq<BlockType>, r: usize, p: Option<usize>) -> bool {
    match p {
        None => vacant_count(cells) == 0,
        Some(p) => {
            &&& vacant_count(cells) > 0
            &&& p < cells.len()
            &&& cells[p as int] == BlockType::Vacant
            &&& vacant_before(cells, p as int) == r as nat % vacant_count(cells)
        },
    }
}

/// `vacant_before` grows with the prefix, and by at least one over a
/// vacant cell.
pub proof fn vacant_before_monotonic(cells: Seq<BlockType>, p: int, q: int)
    requires
        0 <= p <= q,
    ensures
        vacant_before(cells, p) <= vacant_before(cells, q),
        p < q && cells[p] == BlockType::Vacant ==> vacant_before(cells, p) < vacant_before(
            cells,
            q,
        ),
    decreases q - p,
{
    if p < q {
        vacant_before_monotonic(cells, p, q - 1);
    }
}

/// At most one cell answers to a given random number: `fruit_cell` is a
/// function of the board and the number.
pub proof fn fruit_cell_is_unique(cells: Seq<BlockType>, r: usize, p: usize, q: usize)
    requires
        fruit_cell(cells, r, Some(p)),
        fruit_cell(cells, r, Some(q)),
    ensures
        p == q,
{
    if p < q {
        vacant_before_monotonic(cells, p as int, q as int);
    } else if q < p {
        vacant_before_monotonic(cells, q as int, p as int);
    }
}

/// The board. Cell `(x, y)` is stored at index `x + y * width`.
#[derive(Debug, Clone)]
pub struct Grid {
    x: usize,
    y: usize,
    blocks: Vec<Block>,
}

/// What a board is: its sides and what occupies each cell, row by row.
pub ghost struct GridView {
    pub width: nat,
    pub height: nat,
    pub cells: Seq<BlockType>,
}

impl GridView {
    /// The board has at least one cell, and as many as its sides say.
    pub open spec fn wf(self) -> bool {
        &&& self.width >= 1
        &&& self.height >= 1
        &&& self.cells.len() == self.width * self.height
        &&& self.cells.len() <= usize::MAX
    }

    /// The indices of the cells that `kind` occupies.
    pub open spec fn cells_of(self, kind: BlockType) -> Set<usize> {
        Set::new(|p: usize| p < self.cells.len() && self.cells[p as int] == kind)
    }

    /// The number of cells that `kind` occupies.
    pub open spec fn count(self, kind: BlockType) -> nat {
        self.cells_of(kind).len()
    }

    /// No cell is occupied by `kind`.
    pub open spec fn has_none(self, kind: BlockType) -> bool {
        forall|p: int| 0 <= p < self.cells.len() ==> self.cells[p] != kind
    }

    /// The board with the cell at `pos` occupied by `kind`.
    pub open spec fn with(self, pos: usize, kind: BlockType) -> GridView {
        GridView { width: self.width, height: self.height, cells: self.cells.update(pos as int, kind) }
    }

    /// The board after a fruit has arrived on the cell `p`, or on none.
    pub open spec fn with_fruit(self, p: Option<usize>) -> GridView {
        match p {
            Some(p) => self.with(p, BlockType::OccupiedFruit),
            None => self,
        }
    }

    /// The index of cell `(x, y)`.
    pub open spec fn flat_index(self, x: int, y: int) -> int {
        x + y * self.width
    }

    /// The column and the row of the cell at `index`.
    pub open spec fn coords(self, index: int) -> (int, int) {
        (index % self.width as int, index / self.width as int)
    }

    /// `(x, y)` is a cell of the board.
    pub open spec fn on_board(self, x: int, y: int) -> bool {
        0 <= x < self.width && 0 <= y < self.height
    }

    /// The cell one step `(dx, dy)` away from the cell at `pos`, unless the
    /// step leaves the board.
    pub open spec fn neighbour(self, pos: usize, dx: int, dy: int) -> Option<usize> {
        let (x, y) = self.coords(pos as int);
        if self.on_board(x + dx, y + dy) {
            Some(self.flat_index(x + dx, y + dy) as usize)
        } else {
            None
        }
    }

    /// A board has at least one cell.
    pub proof fn has_cells(self)
        requires
            self.wf(),
        ensures
            self.cells.len() >= 1,
    {
        assert(self.width * self.height >= 1) by (nonlinear_arith)
            requires
                self.width >= 1,
                self.height >= 1,
        ;
    }

    /// A cell's index is below the number of cells, and its column and row
    /// are found again from the index.
    pub proof fn flat_index_round_trip(self, x: int, y: int)
        requires
            self.wf(),
            self.on_board(x, y),
        ensures
            0 <= self.flat_index(x, y) < self.cells.len(),
            self.coords(self.flat_index(x, y)) == (x, y),
    {
        let w = self.width as int;
        let h = self.height as int;
        assert(0 <= y * w && x + y * w < w * h) by (nonlinear_arith)
            requires
                0 <= x < w,
                0 <= y < h,
        ;
        vstd::arithmetic::div_mod::lemma_fundamental_div_mod_converse(x + y * w, w, y, x);
    }

    /// An index below the number of cells has its column and row on the
    /// board, and they give the index back.
    pub proof fn coords_round_trip(self, index: int)
        requires
            self.wf(),
            0 <= index < self.cells.len(),
        ensures
            self.on_board(self.coords(index).0, self.coords(index).1),
            self.flat_index(self.coords(index).0, self.coords(index).1) == index,
    {
        let w = self.width as int;
        let h = self.height as int;
        vstd::arithmetic::div_mod::lemma_fundamental_div_mod(index, w);
        assert(0 <= index % w < w && 0 <= index / w < h && index == index % w + (index / w) * w)
            by (nonlinear_arith)
            requires
                0 <= index < w * h,
                w >= 1,
                index == w * (index / w) + index % w,
                0 <= index % w < w,
        ;
    }
}

impl View for Grid {
    type V = GridView;

    closed spec fn view(&self) -> GridView {
        GridView {
            width: self.x as nat,
            height: self.y as nat,
            cells: Seq::new(self.blocks@.len(), |i: int| self.blocks@[i].kind),
        }
    }
}

impl Grid {
    /// The board has at least one cell, and as many as its sides say.
    pub open spec fn wf(&self) -> bool {
        self@.wf()
    }

    /// A board of `x` columns and `y` rows, every cell vacant.
    pub fn new(x: usize, y: usize) -> (grid: Grid)
        requires
            x >= 1,
            y >= 1,
            x * y <= usize::MAX,
        ensures
            grid.wf(),
            grid@.width == x,
            grid@.height == y,
            grid@.cells == Seq::new((x * y) as nat, |i: int| BlockType::Vacant),
    {
        let n: usize = x * y;
        let mut blocks: Vec<Block> = Vec::with_capacity(n);
        let mut row: usize = 0;
        while row < y
            invariant
                row <= y,
                n == x * y,
                blocks@.len() == row * x,
                forall|i: int| 0 <= i < blocks@.len() ==> (#[trigger] blocks@[i]).kind == BlockType::Vacant,
            decreases y - row,
        {
            let mut col: usize = 0;
            while col < x
                invariant
                    row < y,
                    col <= x,
                    n == x * y,
                    blocks@.len() == row * x + col,
                    forall|i: int| 0 <= i < blocks@.len() ==> (#[trigger] blocks@[i]).kind == BlockType::Vacant,
                decreases x - col,
            {
                blocks.push(Block::new());
                col += 1;
            }
            assert(row * x + x == (row + 1) * x) by (nonlinear_arith);
            row += 1;
        }
        assert(y * x == x * y) by (nonlinear_arith);
        let grid = Grid { x, y, blocks };
        grid
    }

    pub fn horizontal(&self) -> (w: usize)
        ensures
            w == self@.width,
    {
        self.x
    }

    pub fn vertical(&self) -> (h: usize)
        ensures
            h == self@.height,
    {
        self.y
    }

    /// The number of cells.
    pub fn len(&self) -> (n: usize)
        ensures
            n == self@.cells.len(),
    {
        self.blocks.len()
    }

    /// The index of cell `(x, y)`.
    pub fn flat_index(&self, x: usize, y: usize) -> (index: usize)
        requires
            self.wf(),
            self@.on_board(x as int, y as int),
        ensures
            index == self@.flat_index(x as int, y as int),
            index < self@.cells.len(),
    {
        proof {
            self@.flat_index_round_trip(x as int, y as int);
        }
        x + y * self.x
    }

    /// The column and the row of the cell at `index`.
    pub fn coords(&self, index: usize) -> (at: (usize, usize))
        requires
            self.wf(),
            index < self@.cells.len(),
        ensures
            (at.0 as int, at.1 as int) == self@.coords(index as int),
            self@.on_board(at.0 as int, at.1 as int),
    {
        proof {
            self@.coords_round_trip(index as int);
        }
        (index % self.x, index / self.x)
    }

    /// The cell one step `(dx, dy)` away from the cell at `pos`, or `None`
    /// where the step leaves the board.
    pub fn step(&self, pos: usize, dx: isize, dy: isize) -> (to: Option<usize>)
        requires
            self.wf(),
            pos < self@.cells.len(),
            -1 <= dx <= 1,
            -1 <= dy <= 1,
        ensures
            to == self@.neighbour(pos, dx as int, dy as int),
            to is Some ==> to.unwrap() < self@.cells.len(),
    {
        let (x, y) = self.coords(pos);
        let nx: usize = if dx < 0 {
            if x == 0 {
                return None;
            }
            x - 1
        } else if dx > 0 {
            if x + 1 >= self.x {
                return None;
            }
            x + 1
        } else {
            x
        };
        let ny: usize = if dy < 0 {
            if y == 0 {
                return None;
            }
            y - 1
        } else if dy > 0 {
            if y + 1 >= self.y {
                return None;
            }
            y + 1
        } else {
            y
        };
        Some(self.flat_index(nx, ny))
    }

    /// The cell at `pos`.
    pub fn block(&self, pos: usize) -> (b: &Block)
        requires
            pos < self@.cells.len(),
        ensures
            b.kind == self@.cells[pos as int],
    {
        &self.blocks[pos]
    }

    /// What occupies the cell at `pos`.
    pub fn kind(&self, pos: usize) -> (k: BlockType)
        requires
            pos < self@.cells.len(),
        ensures
            k == self@.cells[pos as int],
    {
        self.blocks[pos].kind
    }

    /// What occupies cell `(x, y)`.
    pub fn cell_at(&self, x: usize, y: usize) -> (k: BlockType)
        requires
            self.wf(),
            self@.on_board(x as int, y as int),
        ensures
            k == self@.cells[self@.flat_index(x as int, y as int)],
    {
        let pos = self.flat_index(x, y);
        self.kind(pos)
    }

    /// Marks the cell at `pos` as occupied by `kind`.
    pub fn set_type(&mut self, pos: usize, kind: BlockType)
        requires
            pos < old(self)@.cells.len(),
        ensures
            final(self)@ == old(self)@.with(pos, kind),
    {
        let mut block = self.blocks[pos];
        block.set_type(kind);
        self.blocks.set(pos, block);
        assert(self@.cells =~= old(self)@.cells.update(pos as int, kind));
    }

    /// Puts a fruit on a vacant cell chosen by the number `r`: the vacant
    /// cell with `r mod n` vacant cells before it, where `n` counts all
    /// vacant cells. Returns the cell; on a board without a vacant cell
    /// nothing changes and `None` is returned.
    pub fn spawn_fruit_at(&mut self, r: usize) -> (p: Option<usize>)
        ensures
            fruit_cell(old(self)@.cells, r, p),
            final(self)@ == old(self)@.with_fruit(p),
    {
        let n = self.blocks.len();
        let mut vacant: usize = 0;
        let mut i: usize = 0;
        while i < n
            invariant
                i <= n == self@.cells.len(),
                vacant <= i,
                vacant == vacant_before(self@.cells, i as int),
            decreases n - i,
        {
            if !self.blocks[i].is_occupied() {
                vacant += 1;
            }
            i += 1;
        }
        if vacant == 0 {
            return None;
        }
        let k = r % vacant;
        let mut seen: usize = 0;
        i = 0;
        while i < n
            invariant
                i <= n == self@.cells.len(),
                *self == *old(self),
                vacant == vacant_count(self@.cells),
                k == r as nat % vacant_count(self@.cells),
                k < vacant,
                seen <= k,
                seen == vacant_before(self@.cells, i as int),
            decreases n - i,
        {
            if !self.blocks[i].is_occupied() {
                if seen == k {
                    self.set_type(i, BlockType::OccupiedFruit);
                    return Some(i);
                }
                seen += 1;
            }
            i += 1;
        }
        None
    }

    /// Puts a fruit on a vacant cell picked at random, each of them as
    /// likely as the others. Returns the cell; on a board without a vacant
    /// cell nothing changes and `None` is returned.
    pub fn spawn_fruit(&mut self) -> (p: Option<usize>)
        ensures
            match p {
                Some(p) => p < old(self)@.cells.len() && old(self)@.cells[p as int] == BlockType::Vacant,
                None => vacant_count(old(self)@.cells) == 0,
            },
            final(self)@ == old(self)@.with_fruit(p),
    {
        let mut rng = rand::thread_rng();
        let r = next_usize(&mut rng);
        self.spawn_fruit_at(r)
    }
}

} // verus!

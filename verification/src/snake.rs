//! The snake: where it is, where it is heading, and how it moves and grows.

use crate::block::BlockType;
use crate::grid::{Grid, GridView};
use crate::random::next_usize;
use crate::utils::{offset_of, Direction};
use vstd::prelude::*;
use vstd::string::StringExecFns;

verus! {

/// Why a turn or a move was refused.
#[derive(Debug, Clone, Copy, PartialEq, Eq, Structural)]
pub enum SnekError {
    /// The requested direction is the reverse of the current one.
    Motor(Direction),
    /// The move would run the head into the snake itself.
    Collision,
    /// The move would take the head off the board.
    OutOfBounds,
}

impl SnekError {
    /// The failure in words.
    pub open spec fn spec_message(&self) -> &'static str {
        match self {
            SnekError::Motor(_) => "cannot turn the opposite direction",
            SnekError::Collision => "collided with the snake's own body",
            SnekError::OutOfBounds => "cannot go outside the eating-ground",
        }
    }

    /// The failure in words.
    pub fn message(&self) -> (text: String)
        ensures
            text@ == self.spec_message()@,
    {
        match self {
            SnekError::Motor(_) => String::from_str("cannot turn the opposite direction"),
            SnekError::Collision => String::from_str("collided with the snake's own body"),
            SnekError::OutOfBounds => String::from_str("cannot go outside the eating-ground"),
        }
    }
}


/// The snake. Positions are cell indices of the board it lives on.
#[derive(Debug, Clone)]
pub struct Snake {
    head: usize,
    body: Vec<usize>,
    direction: Option<Direction>,
}

/// What a snake is: its head, its body from the segment next to the head
/// to the tail, and its direction once one was accepted.
pub ghost struct SnakeView {
    pub head: usize,
    pub body: Seq<usize>,
    pub direction: Option<Direction>,
}

impl SnakeView {
    /// Head and body in one sequence, head first.
    pub open spec fn positions(self) -> Seq<usize> {
        seq![self.head] + self.body
    }

    /// The cell that a move leaves behind: the tail's, or the head's where
    /// there is no body.
    pub open spec fn vacated(self) -> usize {
        self.positions().last()
    }

    /// The cell that a move heads for, unless it is off the board.
    pub open spec fn target(self, grid: GridView) -> Option<usize> {
        grid.neighbour(self.head, offset_of(self.direction).0, offset_of(self.direction).1)
    }

    /// The snake's cells are distinct cells of `grid`, and they are the
    /// cells of `grid` that are marked as the snake's.
    pub open spec fn wf(self, grid: GridView) -> bool {
        let ps = self.positions();
        &&& grid.wf()
        &&& ps.no_duplicates()
        &&& forall|i: int|
            0 <= i < ps.len() ==> (#[trigger] ps[i]) < grid.cells.len() && grid.cells[ps[i] as int]
                == BlockType::OccupiedSnake
        &&& forall|p: int|
            0 <= p < grid.cells.len() && (#[trigger] grid.cells[p]) == BlockType::OccupiedSnake
                ==> ps.contains(p as usize)
    }

    /// What a request to turn towards `d` answers: refused where `d` is
    /// the reverse of the current direction, accepted otherwise.
    pub open spec fn turn_result(self, d: Direction) -> Result<(), SnekError> {
        match self.direction {
            Some(current) => if d == current.opposite() {
                Err(SnekError::Motor(d))
            } else {
                Ok(())
            },
            None => Ok(()),
        }
    }

    /// The first turn is accepted, whatever the direction. Later a turn is
    /// refused exactly when it asks for the reverse of the current
    /// direction, and the refusal names the direction asked for.
    pub proof fn turn_refused_iff_reversal(self, d: Direction)
        ensures
            self.direction is None ==> self.turn_result(d) is Ok,
            self.turn_result(d) is Err <==> self.direction is Some && d == self.direction.unwrap().opposite(),
            self.turn_result(d) is Err ==> self.turn_result(d) == Err::<(), SnekError>(SnekError::Motor(d)),
    {
    }

    /// The snake heading towards `d`.
    pub open spec fn turned(self, d: Direction) -> SnakeView {
        SnakeView { head: self.head, body: self.body, direction: Some(d) }
    }

    /// A turn leaves the snake properly on the board.
    pub proof fn turn_keeps_wf(self, grid: GridView, d: Direction)
        requires
            self.wf(grid),
        ensures
            self.turned(d).wf(grid),
    {
    }

    /// What a move answers: off the board, into the snake, or done.
    pub open spec fn move_result(self, grid: GridView) -> Result<(), SnekError> {
        match self.target(grid) {
            None => Err(SnekError::OutOfBounds),
            Some(c) => if grid.cells[c as int] == BlockType::OccupiedSnake {
                Err(SnekError::Collision)
            } else {
                Ok(())
            },
        }
    }

    /// A move is refused as off the board exactly when the cell ahead is
    /// off the board, and as a collision exactly when the cell ahead is on
    /// the board and marked as the snake's.
    pub proof fn move_refused_iff_blocked(self, grid: GridView)
        ensures
            self.move_result(grid) == Err::<(), SnekError>(SnekError::OutOfBounds) <==> self.target(grid) is None,
            self.move_result(grid) == Err::<(), SnekError>(SnekError::Collision) <==> self.target(grid) is Some
                && grid.cells[self.target(grid).unwrap() as int] == BlockType::OccupiedSnake,
            self.move_result(grid) is Err ==> self.move_result(grid) == Err::<(), SnekError>(
                SnekError::OutOfBounds,
            ) || self.move_result(grid) == Err::<(), SnekError>(SnekError::Collision),
    {
    }

    /// The snake after every segment has moved up by one, the head to `c`.
    pub open spec fn shifted(self, c: usize) -> SnakeView {
        SnakeView { head: c, body: self.positions().drop_last(), direction: self.direction }
    }

    /// The board after every segment has moved up by one, the head to `c`.
    pub open spec fn shifted_board(self, grid: GridView, c: usize) -> GridView {
        grid.with(c, BlockType::OccupiedSnake).with(self.vacated(), BlockType::Vacant)
    }

    /// Where a new segment goes: one step behind the tail, against the
    /// direction of travel; or on `fallback`, where that cell is off the
    /// board or not vacant.
    pub open spec fn growth_cell(self, grid: GridView, fallback: usize) -> usize {
        let tail = self.positions().last();
        let (dx, dy) = offset_of(self.direction);
        match grid.neighbour(tail, -dx, -dy) {
            Some(g) => if grid.cells[g as int] == BlockType::Vacant {
                g
            } else {
                fallback
            },
            None => fallback,
        }
    }

    /// The snake with one more segment behind its tail.
    pub open spec fn grown(self, grid: GridView, fallback: usize) -> SnakeView {
        SnakeView {
            head: self.head,
            body: self.body.push(self.growth_cell(grid, fallback)),
            direction: self.direction,
        }
    }

    /// Whether a move to `c` finds a fruit there.
    pub open spec fn eats(self, grid: GridView, c: usize) -> bool {
        grid.cells[c as int] == BlockType::OccupiedFruit
    }

    /// The snake after a move to `c`: shifted, and grown by one segment
    /// where `c` held a fruit. The new segment falls back on the cell that
    /// the shift vacated.
    pub open spec fn moved(self, grid: GridView, c: usize) -> SnakeView {
        if self.eats(grid, c) {
            self.shifted(c).grown(self.shifted_board(grid, c), self.vacated())
        } else {
            self.shifted(c)
        }
    }

    /// The board after a move to `c`.
    pub open spec fn moved_board(self, grid: GridView, c: usize) -> GridView {
        let board = self.shifted_board(grid, c);
        if self.eats(grid, c) {
            board.with(self.shifted(c).growth_cell(board, self.vacated()), BlockType::OccupiedSnake)
        } else {
            board
        }
    }

    /// A snake that sits properly on its board occupies as many cells as it
    /// has segments, the head counted.
    pub proof fn counted(self, grid: GridView)
        requires
            self.wf(grid),
        ensures
            grid.cells_of(BlockType::OccupiedSnake) == self.positions().to_set(),
            grid.count(BlockType::OccupiedSnake) == 1 + self.body.len(),
    {
        let ps = self.positions();
        assert(grid.cells_of(BlockType::OccupiedSnake) =~= ps.to_set());
        ps.unique_seq_to_set();
    }

    /// A move onto a cell of the board that the snake does not occupy keeps
    /// the snake properly on the board.
    pub proof fn move_keeps_wf(self, grid: GridView, c: usize)
        requires
            self.wf(grid),
            self.target(grid) == Some(c),
            grid.cells[c as int] != BlockType::OccupiedSnake,
        ensures
            c < grid.cells.len(),
            self.moved(grid, c).wf(self.moved_board(grid, c)),
    {
        let ps = self.positions();
        let vac = self.vacated();
        let s1 = self.shifted(c);
        let ps1 = s1.positions();
        let board1 = self.shifted_board(grid, c);
        let cells1 = board1.cells;
        assert(c < grid.cells.len()) by {
            let (x, y) = grid.coords(self.head as int);
            let (dx, dy) = offset_of(self.direction);
            grid.flat_index_round_trip(x + dx, y + dy);
        }
        assert forall|i: int| 1 <= i < ps1.len() implies ps1[i] == ps[i - 1] by {}
        assert forall|p: int|
            0 <= p < cells1.len() && (#[trigger] cells1[p]) == BlockType::OccupiedSnake implies ps1.contains(
            p as usize,
        ) by {
            if p == c {
                assert(ps1[0] == p as usize);
            } else {
                let i = choose|i: int| 0 <= i < ps.len() && ps[i] == p as usize;
                assert(ps1[i + 1] == p as usize);
            }
        }
        if self.eats(grid, c) {
            s1.growth_keeps_wf(board1, vac);
        }
    }

    /// A new segment on a vacant fallback cell keeps the snake properly on
    /// the board.
    pub proof fn growth_keeps_wf(self, grid: GridView, fallback: usize)
        requires
            self.wf(grid),
            fallback < grid.cells.len(),
            grid.cells[fallback as int] == BlockType::Vacant,
        ensures
            self.grown(grid, fallback).wf(
                grid.with(self.growth_cell(grid, fallback), BlockType::OccupiedSnake),
            ),
    {
        let ps1 = self.positions();
        let g = self.growth_cell(grid, fallback);
        let ps2 = self.grown(grid, fallback).positions();
        let cells2 = grid.with(g, BlockType::OccupiedSnake).cells;
        let (dx, dy) = offset_of(self.direction);
        if grid.neighbour(ps1.last(), -dx, -dy) is Some {
            let (x, y) = grid.coords(ps1.last() as int);
            grid.flat_index_round_trip(x - dx, y - dy);
        }
        assert forall|i: int| 0 <= i < ps2.len() implies (#[trigger] ps2[i]) < cells2.len()
            && cells2[ps2[i] as int] == BlockType::OccupiedSnake by {
            if i < ps1.len() {
                assert(ps2[i] == ps1[i]);
            }
        }
        assert forall|i: int, j: int| 0 <= i < ps2.len() && 0 <= j < ps2.len() && i != j implies ps2[i]
            != ps2[j] by {
            if i < ps1.len() {
                assert(ps2[i] == ps1[i]);
            }
            if j < ps1.len() {
                assert(ps2[j] == ps1[j]);
            }
        }
        assert forall|p: int|
            0 <= p < cells2.len() && (#[trigger] cells2[p]) == BlockType::OccupiedSnake implies ps2.contains(
            p as usize,
        ) by {
            if p == g {
                assert(ps2[ps1.len() as int] == p as usize);
            } else {
                let i = choose|i: int| 0 <= i < ps1.len() && ps1[i] == p as usize;
                assert(ps2[i] == p as usize);
            }
        }
    }

    /// A fruit on a vacant cell leaves the snake properly on the board.
    pub proof fn fruit_keeps_wf(self, grid: GridView, p: usize)
        requires
            self.wf(grid),
            p < grid.cells.len(),
            grid.cells[p as int] == BlockType::Vacant,
        ensures
            self.wf(grid.with(p, BlockType::OccupiedFruit)),
    {
        let after = grid.with(p, BlockType::OccupiedFruit);
        assert forall|q: int|
            0 <= q < after.cells.len() && (#[trigger] after.cells[q])
                == BlockType::OccupiedSnake implies self.positions().contains(q as usize) by {}
    }

    /// A head on a board without a snake makes a snake that sits properly
    /// on the board, and the head's cell is the only one marked as the
    /// snake's.
    pub proof fn lone_head_is_wf(grid: GridView, head: usize)
        requires
            grid.wf(),
            grid.has_none(BlockType::OccupiedSnake),
            head < grid.cells.len(),
        ensures
            (SnakeView { head, body: Seq::empty(), direction: None }).wf(
                grid.with(head, BlockType::OccupiedSnake),
            ),
            grid.with(head, BlockType::OccupiedSnake).cells_of(BlockType::OccupiedSnake) == set![head],
            grid.with(head, BlockType::OccupiedSnake).count(BlockType::OccupiedSnake) == 1,
    {
        let snake = SnakeView { head, body: Seq::empty(), direction: None };
        let after = grid.with(head, BlockType::OccupiedSnake);
        let ps = snake.positions();
        assert(ps[0] == head);
        assert forall|q: int|
            0 <= q < after.cells.len() && (#[trigger] after.cells[q])
                == BlockType::OccupiedSnake implies ps.contains(q as usize) by {}
        snake.counted(after);
    }
}

impl View for Snake {
    type V = SnakeView;

    closed spec fn view(&self) -> SnakeView {
        SnakeView { head: self.head, body: self.body@, direction: self.direction }
    }
}

impl Snake {
    /// The snake sits properly on `grid`.
    pub open spec fn wf(&self, grid: &Grid) -> bool {
        self@.wf(grid@)
    }

    /// A snake of one segment on the cell `r mod n` of `grid`, where `n` is
    /// the number of cells, with no direction yet. The cell is marked as
    /// the snake's.
    pub fn place(grid: &mut Grid, r: usize) -> (snake: Snake)
        requires
            old(grid).wf(),
        ensures
            snake@ == (SnakeView {
                head: (r as nat % old(grid)@.cells.len()) as usize,
                body: Seq::empty(),
                direction: None,
            }),
            snake@.head < old(grid)@.cells.len(),
            final(grid)@ == old(grid)@.with(snake@.head, BlockType::OccupiedSnake),
            old(grid)@.has_none(BlockType::OccupiedSnake) ==> snake.wf(final(grid)) && final(grid)@.cells_of(
                BlockType::OccupiedSnake,
            ) == set![snake@.head],
    {
        proof {
            grid@.has_cells();
        }
        let pos = r % grid.len();
        grid.set_type(pos, BlockType::OccupiedSnake);
        proof {
            if old(grid)@.has_none(BlockType::OccupiedSnake) {
                SnakeView::lone_head_is_wf(old(grid)@, pos);
            }
        }
        Snake { head: pos, body: Vec::new(), direction: None }
    }

    /// A snake of one segment on a cell of `grid` picked at random, with no
    /// direction yet. The cell is marked as the snake's.
    pub fn new(grid: &mut Grid) -> (snake: Snake)
        requires
            old(grid).wf(),
        ensures
            snake@.head < old(grid)@.cells.len(),
            snake@.body == Seq::<usize>::empty(),
            snake@.direction is None,
            final(grid)@ == old(grid)@.with(snake@.head, BlockType::OccupiedSnake),
            old(grid)@.has_none(BlockType::OccupiedSnake) ==> snake.wf(final(grid)) && final(grid)@.cells_of(
                BlockType::OccupiedSnake,
            ) == set![snake@.head],
    {
        let mut rng = rand::thread_rng();
        let r = next_usize(&mut rng);
        Snake::place(grid, r)
    }

    /// Whether the snake sits properly on `grid`: its cells are distinct
    /// cells of `grid`, and they are the cells that are marked as the
    /// snake's.
    pub fn sits_on(&self, grid: &Grid) -> (r: bool)
        requires
            grid.wf(),
        ensures
            r == self.wf(grid),
    {
        let n = grid.len();
        let ghost ps = self@.positions();
        let mut seen: Vec<bool> = Vec::new();
        let mut c: usize = 0;
        while c < n
            invariant
                c <= n,
                seen@.len() == c,
                forall|d: int| 0 <= d < c ==> !seen@[d],
            decreases n - c,
        {
            seen.push(false);
            c += 1;
        }
        assert(ps[0] == self.head);
        if self.head >= n || grid.kind(self.head) != BlockType::OccupiedSnake {
            return false;
        }
        seen.set(self.head, true);
        let mut i: usize = 0;
        while i < self.body.len()
            invariant
                grid.wf(),
                ps == self@.positions(),
                n == grid@.cells.len(),
                seen@.len() == n,
                i <= self.body@.len(),
                forall|j: int|
                    0 <= j <= i ==> (#[trigger] ps[j]) < n && grid@.cells[ps[j] as int]
                        == BlockType::OccupiedSnake,
                forall|j: int, k: int| 0 <= j < k <= i ==> ps[j] != ps[k],
                forall|j: int| 0 <= j <= i ==> seen@[(#[trigger] ps[j]) as int],
                forall|d: int|
                    0 <= d < n && #[trigger] seen@[d] ==> exists|j: int|
                        0 <= j <= i && #[trigger] ps[j] == d as usize,
            decreases self.body@.len() - i,
        {
            let p = self.body[i];
            assert(ps[i + 1] == p);
            if p >= n || grid.kind(p) != BlockType::OccupiedSnake {
                return false;
            }
            if seen[p] {
                proof {
                    let j = choose|j: int| 0 <= j <= i && #[trigger] ps[j] == p;
                    assert(ps[j] == ps[i + 1]);
                }
                return false;
            }
            let ghost marks = seen@;
            seen.set(p, true);
            i += 1;
            proof {
                assert forall|d: int| 0 <= d < n && #[trigger] seen@[d] implies exists|j: int|
                    0 <= j <= i && #[trigger] ps[j] == d as usize by {
                    if d == p {
                        assert(ps[i as int] == d as usize);
                    } else {
                        assert(marks[d]);
                        let j = choose|j: int| 0 <= j <= i - 1 && #[trigger] ps[j] == d as usize;
                        assert(ps[j] == d as usize);
                    }
                }
            }
        }
        c = 0;
        while c < n
            invariant
                c <= n,
                grid.wf(),
                ps == self@.positions(),
                n == grid@.cells.len(),
                seen@.len() == n,
                forall|j: int|
                    0 <= j < ps.len() ==> (#[trigger] ps[j]) < n && grid@.cells[ps[j] as int]
                        == BlockType::OccupiedSnake,
                forall|j: int, k: int| 0 <= j < k < ps.len() ==> ps[j] != ps[k],
                forall|j: int| 0 <= j < ps.len() ==> seen@[(#[trigger] ps[j]) as int],
                forall|d: int|
                    0 <= d < c && (#[trigger] grid@.cells[d]) == BlockType::OccupiedSnake ==> seen@[d],
                forall|d: int|
                    0 <= d < n && #[trigger] seen@[d] ==> exists|j: int|
                        0 <= j < ps.len() && #[trigger] ps[j] == d as usize,
            decreases n - c,
        {
            if grid.kind(c) == BlockType::OccupiedSnake && !seen[c] {
                proof {
                    if ps.contains(c) {
                        let j = choose|j: int| 0 <= j < ps.len() && ps[j] == c;
                        assert(seen@[ps[j] as int]);
                    }
                }
                return false;
            }
            c += 1;
        }
        proof {
            assert forall|d: int|
                0 <= d < n && (#[trigger] grid@.cells[d]) == BlockType::OccupiedSnake implies ps.contains(
                d as usize,
            ) by {
                let j = choose|j: int| 0 <= j < ps.len() && #[trigger] ps[j] == d as usize;
                assert(ps[j] == d as usize);
            }
        }
        true
    }

    /// The cell of the head.
    pub fn head(&self) -> (head: usize)
        ensures
            head == self@.head,
    {
        self.head
    }

    /// The cells of the body, from the segment next to the head to the
    /// tail.
    pub fn body(&self) -> (body: &Vec<usize>)
        ensures
            body@ == self@.body,
    {
        &self.body
    }

    /// The direction of travel, once one was accepted.
    pub fn direction(&self) -> (direction: Option<Direction>)
        ensures
            direction == self@.direction,
    {
        self.direction
    }

    /// Whether the snake may turn towards `new_direction`: it may unless
    /// that is the reverse of its current direction.
    pub fn assert_direction(&self, new_direction: Direction) -> (r: Result<(), SnekError>)
        ensures
            r == self@.turn_result(new_direction),
    {
        let direction = match self.direction {
            Some(d) => d,
            None => {
                return Ok(());
            },
        };
        proof {
            Direction::opposite_is_involutive(direction);
            Direction::opposite_is_involutive(new_direction);
        }
        if new_direction == direction.opposite() || new_direction.opposite() == direction {
            Err(SnekError::Motor(new_direction))
        } else {
            Ok(())
        }
    }

    /// Moves the mark of the snake from the cell `*at` to the cell `to`,
    /// and `*at` with it.
    fn update_pos(grid: &mut Grid, at: &mut usize, to: usize)
        requires
            *old(at) < old(grid)@.cells.len(),
            to < old(grid)@.cells.len(),
        ensures
            *final(at) == to,
            final(grid)@ == old(grid)@.with(*old(at), BlockType::Vacant).with(
                to,
                BlockType::OccupiedSnake,
            ),
    {
        grid.set_type(*at, BlockType::Vacant);
        *at = to;
        grid.set_type(*at, BlockType::OccupiedSnake);
    }

    /// Moves the snake one cell in its direction.
    ///
    /// The move is refused, and nothing changes, where the cell ahead is
    /// off the board or occupied by the snake; a snake without a direction
    /// stays on its own head and so collides. Else every segment moves up
    /// by one, and where the cell ahead held a fruit the snake grows by one
    /// segment: one step behind its tail, against the direction of travel,
    /// or, where that cell is off the board or not vacant, on the cell that
    /// the tail has just left.
    pub fn move_forward(&mut self, grid: &mut Grid) -> (r: Result<(), SnekError>)
        requires
            old(self).wf(old(grid)),
        ensures
            r == old(self)@.move_result(old(grid)@),
            r is Err ==> *final(self) == *old(self) && *final(grid) == *old(grid),
            r is Ok ==> final(self)@ == old(self)@.moved(old(grid)@, old(self)@.target(old(grid)@).unwrap()),
            r is Ok ==> final(grid)@ == old(self)@.moved_board(
                old(grid)@,
                old(self)@.target(old(grid)@).unwrap(),
            ),
            final(self).wf(final(grid)),
            final(grid)@.count(BlockType::OccupiedSnake) == 1 + final(self)@.body.len(),
            r is Ok ==> final(grid)@.count(BlockType::OccupiedSnake) == old(grid)@.count(
                BlockType::OccupiedSnake,
            ) + if old(self)@.eats(old(grid)@, old(self)@.target(old(grid)@).unwrap()) {
                1nat
            } else {
                0nat
            },
    {
        let ghost before = self@;
        let ghost board = grid@;
        let ghost ps = before.positions();
        proof {
            before.counted(board);
            assert(ps[0] == self.head);
        }
        let (h, v): (isize, isize) = match self.direction {
            Some(d) => d.to_coords(),
            None => (0, 0),
        };
        let new_pos = match grid.step(self.head, h, v) {
            Some(p) => p,
            None => {
                return Err(SnekError::OutOfBounds);
            },
        };
        if grid.kind(new_pos) == BlockType::OccupiedSnake {
            return Err(SnekError::Collision);
        }
        let fruit_occupied = grid.kind(new_pos) == BlockType::OccupiedFruit;
        let mut old_pos = self.head;
        Self::update_pos(grid, &mut self.head, new_pos);
        assert(grid@.cells =~= board.with(new_pos, BlockType::OccupiedSnake).with(
            old_pos,
            BlockType::Vacant,
        ).cells);
        let mut i: usize = 0;
        while i < self.body.len()
            invariant
                before.wf(board),
                ps == before.positions(),
                new_pos < board.cells.len(),
                board.cells[new_pos as int] != BlockType::OccupiedSnake,
                self.head == new_pos,
                self.direction == before.direction,
                i <= self.body@.len() == before.body.len(),
                old_pos == ps[i as int],
                forall|j: int| 0 <= j < i ==> self.body@[j] == ps[j],
                forall|j: int| i <= j < self.body@.len() ==> self.body@[j] == ps[j + 1],
                grid@ == board.with(new_pos, BlockType::OccupiedSnake).with(old_pos, BlockType::Vacant),
            decreases self.body@.len() - i,
        {
            let mut pos = self.body[i];
            let prior = pos;
            Self::update_pos(grid, &mut pos, old_pos);
            self.body.set(i, pos);
            assert(grid@.cells =~= board.with(new_pos, BlockType::OccupiedSnake).with(
                prior,
                BlockType::Vacant,
            ).cells);
            old_pos = prior;
            i += 1;
        }
        proof {
            assert(self.body@ =~= ps.drop_last());
            assert(self@.positions().last() < board.cells.len());
        }
        if fruit_occupied {
            self.add_body(grid, old_pos);
        }
        proof {
            before.move_keeps_wf(board, new_pos);
            self@.counted(grid@);
        }
        Ok(())
    }

    /// Adds a segment behind the tail: one step against the direction of
    /// travel, or on `fallback` where that cell is off the board or not
    /// vacant.
    fn add_body(&mut self, grid: &mut Grid, fallback: usize)
        requires
            old(grid).wf(),
            fallback < old(grid)@.cells.len(),
            old(self)@.positions().last() < old(grid)@.cells.len(),
        ensures
            final(self)@ == old(self)@.grown(old(grid)@, fallback),
            final(grid)@ == old(grid)@.with(
                old(self)@.growth_cell(old(grid)@, fallback),
                BlockType::OccupiedSnake,
            ),
    {
        let tail = if self.body.is_empty() {
            self.head
        } else {
            self.body[self.body.len() - 1]
        };
        let (h, v): (isize, isize) = match self.direction {
            Some(d) => d.to_coords(),
            None => (0, 0),
        };
        let cell = match grid.step(tail, -h, -v) {
            Some(g) => if grid.kind(g) == BlockType::Vacant {
                g
            } else {
                fallback
            },
            None => fallback,
        };
        grid.set_type(cell, BlockType::OccupiedSnake);
        self.body.push(cell);
    }

    /// Turns the snake towards `new`, unless that is the reverse of its
    /// current direction: then the turn is refused and nothing changes.
    /// The first direction is always accepted.
    pub fn set_direction(&mut self, new: Direction) -> (r: Result<(), SnekError>)
        ensures
            r == old(self)@.turn_result(new),
            old(self)@.direction is None ==> r is Ok,
            r is Err <==> old(self)@.direction is Some && new == old(self)@.direction.unwrap().opposite(),
            r is Ok ==> final(self)@ == old(self)@.turned(new),
            r is Err ==> *final(self) == *old(self),
    {
        match self.assert_direction(new) {
            Ok(()) => {
                self.direction = Some(new);
                Ok(())
            },
            Err(e) => Err(e),
        }
    }

    /// Whether a direction was accepted yet.
    pub fn has_direction(&self) -> (r: bool)
        ensures
            r == self@.direction is Some,
    {
        self.direction.is_some()
    }
}

} // verus!

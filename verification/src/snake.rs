//! The snake: an ordered body of cells, head first, with a heading.

use vstd::prelude::*;
use std::collections::VecDeque;
use crate::grid::{cell_at, cell_count, lemma_cell_at_in_grid, lemma_scan_index_of_grid_cell};
use crate::grid::{Direction, Key, Position, GRID_HEIGHT, GRID_WIDTH};

verus! {

/// What a snake is, mathematically: its cells from head to tail, its
/// heading, and whether a jump is pending for the next move.
pub struct SnakeModel {
    pub body: Seq<Position>,
    pub direction: Direction,
    pub has_jumped: bool,
}

impl SnakeModel {
    /// A snake always has at least one cell.
    pub open spec fn wf(self) -> bool {
        self.body.len() > 0
    }

    /// The snake a new game starts with.
    pub open spec fn initial() -> SnakeModel {
        SnakeModel {
            body: seq![
                Position { x: 5, y: 5 },
                Position { x: 5, y: 6 },
                Position { x: 5, y: 7 },
            ],
            direction: Direction::Right,
            has_jumped: false,
        }
    }

    pub open spec fn head(self) -> Position {
        self.body[0]
    }

    pub open spec fn tail(self) -> Position {
        self.body[self.body.len() - 1]
    }

    /// The cell the head enters on the next move.
    pub open spec fn next_head(self) -> Position {
        self.head().stepped(self.direction)
    }

    /// The snake after one move: the new head in front, the tail dropped
    /// unless a jump was pending, and no jump pending afterwards.
    pub open spec fn moved(self) -> SnakeModel {
        SnakeModel {
            body: seq![self.next_head()] + (if self.has_jumped {
                self.body
            } else {
                self.body.drop_last()
            }),
            direction: self.direction,
            has_jumped: false,
        }
    }

    /// The snake one cell longer: the tail cell is repeated at the end.
    pub open spec fn grown(self) -> SnakeModel {
        SnakeModel { body: self.body.push(self.tail()), ..self }
    }

    /// Whether a request to head in direction `d` is taken up: it is unless
    /// `d` is the current heading or its opposite.
    pub open spec fn accepts_turn(self, d: Direction) -> bool {
        d != self.direction && d != self.direction.spec_opposite()
    }

    /// The snake after a key press: an arrow key whose turn is accepted sets
    /// the heading; nothing else changes anything.
    pub open spec fn turned(self, key: Key) -> SnakeModel {
        match key.spec_direction() {
            Some(d) => if self.accepts_turn(d) {
                SnakeModel { direction: d, ..self }
            } else {
                self
            },
            None => self,
        }
    }

    /// The snake with a jump pending.
    pub open spec fn jumping(self) -> SnakeModel {
        SnakeModel { has_jumped: true, ..self }
    }

    /// Whether the head shares its cell with another segment.
    pub open spec fn hits_self(self) -> bool {
        exists|i: int| 1 <= i < self.body.len() && self.body[i] == self.head()
    }

    /// Whether the head lies off the grid.
    pub open spec fn hits_wall(self) -> bool {
        !self.head().in_grid()
    }

    /// Whether the head is on the cell `food`.
    pub open spec fn eats(self, food: Position) -> bool {
        self.head() == food
    }

    /// Whether some segment lies on `p`.
    pub open spec fn occupies(self, p: Position) -> bool {
        self.body.contains(p)
    }

    /// Whether `p` is a grid cell with no segment on it.
    pub open spec fn is_free(self, p: Position) -> bool {
        p.in_grid() && !self.occupies(p)
    }

    /// Whether no grid cell is free.
    pub open spec fn fills_grid(self) -> bool {
        forall|p: Position| !#[trigger] self.is_free(p)
    }

    /// Whether `p` is the free cell that a row-by-row scan from the top-left
    /// corner meets first.
    pub open spec fn is_first_free(self, p: Position) -> bool {
        &&& self.is_free(p)
        &&& forall|q: Position| #[trigger]
            self.is_free(q) ==> p.scan_index() <= q.scan_index()
    }
}

/// The snake of a running game.
pub struct Snake {
    body: VecDeque<Position>,
    direction: Direction,
    has_jumped: bool,
}

impl View for Snake {
    type V = SnakeModel;

    closed spec fn view(&self) -> SnakeModel {
        SnakeModel { body: self.body@, direction: self.direction, has_jumped: self.has_jumped }
    }
}

impl Snake {
    /// A snake always has at least one cell.
    pub open spec fn wf(&self) -> bool {
        self@.wf()
    }

    /// The starting snake: three cells in a column, head on top at (5, 5),
    /// heading right.
    pub fn new() -> (s: Snake)
        ensures
            s.wf(),
            s@ == SnakeModel::initial(),
    {
        let mut body: VecDeque<Position> = VecDeque::new();
        body.push_back(Position { x: 5, y: 5 });
        body.push_back(Position { x: 5, y: 6 });
        body.push_back(Position { x: 5, y: 7 });
        assert(body@ =~= SnakeModel::initial().body);
        Snake { body, direction: Direction::Right, has_jumped: false }
    }

    /// Moves one cell in the current heading. The tail is dropped unless a
    /// jump is pending; the pending jump is used up.
    pub fn move_forward(&mut self)
        requires
            old(self).wf(),
            old(self)@.head().can_step(old(self)@.direction),
        ensures
            final(self).wf(),
            final(self)@ == old(self)@.moved(),
    {
        let head: Position = self.body[0];
        let new_head = head.step(self.direction);
        if !self.has_jumped {
            self.body.pop_back();
        }
        self.body.push_front(new_head);
        self.has_jumped = false;
    }

    /// Grows by one cell: the tail cell is repeated at the end.
    pub fn grow(&mut self)
        requires
            old(self).wf(),
        ensures
            final(self).wf(),
            final(self)@ == old(self)@.grown(),
    {
        let tail: Position = self.body[self.body.len() - 1];
        self.body.push_back(tail);
    }

    /// Takes a key press. An arrow key sets the heading unless it names the
    /// current heading or its opposite; every other key is ignored.
    pub fn change_direction(&mut self, key: Key)
        ensures
            final(self)@ == old(self)@.turned(key),
    {
        match key.direction() {
            Some(direction) => {
                if direction != self.direction && direction != self.direction.opposite() {
                    self.direction = direction;
                }
            },
            None => {},
        }
    }

    /// Marks a jump as pending: the next move keeps the tail.
    pub fn jump(&mut self)
        ensures
            final(self)@ == old(self)@.jumping(),
    {
        self.has_jumped = true;
    }

    /// Whether the head shares its cell with another segment.
    pub fn collides_with_self(&self) -> (r: bool)
        requires
            self.wf(),
        ensures
            r == self@.hits_self(),
    {
        let head: Position = self.body[0];
        let n = self.body.len();
        let mut i: usize = 1;
        while i < n
            invariant
                1 <= i <= n,
                n == self.body@.len(),
                head == self.body@[0],
                forall|j: int| 1 <= j < i ==> self.body@[j] != head,
            decreases n - i,
        {
            if self.body[i] == head {
                assert(self@.body[i as int] == self@.head());
                return true;
            }
            i += 1;
        }
        false
    }

    /// Whether the head lies off the grid.
    pub fn collides_with_wall(&self) -> (r: bool)
        requires
            self.wf(),
        ensures
            r == self@.hits_wall(),
    {
        let head: Position = self.body[0];
        head.x < 0 || head.y < 0 || head.x >= GRID_WIDTH || head.y >= GRID_HEIGHT
    }

    /// Whether the head is on the cell `food`.
    pub fn eats_food(&self, food: Position) -> (r: bool)
        requires
            self.wf(),
        ensures
            r == self@.eats(food),
    {
        let head: Position = self.body[0];
        head == food
    }

    /// Whether some segment lies on `pos`.
    pub fn occupies(&self, pos: Position) -> (r: bool)
        ensures
            r == self@.occupies(pos),
    {
        let n = self.body.len();
        let mut i: usize = 0;
        while i < n
            invariant
                i <= n,
                n == self.body@.len(),
                forall|j: int| 0 <= j < i ==> self.body@[j] != pos,
            decreases n - i,
        {
            if self.body[i] == pos {
                return true;
            }
            i += 1;
        }
        false
    }

    /// The candidate cell (`x`, `y`) if it is a grid cell with no segment on
    /// it, and `None` otherwise.
    pub fn free_cell_at(&self, x: i32, y: i32) -> (r: Option<Position>)
        ensures
            r == (if self@.is_free(Position { x, y }) {
                Some(Position { x, y })
            } else {
                None
            }),
    {
        let p = Position { x, y };
        if p.is_in_grid() && !self.occupies(p) {
            Some(p)
        } else {
            None
        }
    }

    /// The first free cell of a row-by-row scan from the top-left corner, or
    /// `None` when the snake covers the whole grid.
    pub fn first_free_cell(&self) -> (r: Option<Position>)
        ensures
            match r {
                Some(p) => self@.is_first_free(p),
                None => self@.fills_grid(),
            },
    {
        let mut k: i32 = 0;
        while k < GRID_WIDTH * GRID_HEIGHT
            invariant
                0 <= k <= cell_count(),
                forall|j: int| 0 <= j < k ==> self@.occupies(cell_at(j)),
            decreases cell_count() - k,
        {
            let p = Position { x: k % GRID_WIDTH, y: k / GRID_WIDTH };
            assert(p == cell_at(k as int));
            if !self.occupies(p) {
                proof {
                    lemma_cell_at_in_grid(k as int);
                    assert forall|q: Position| #[trigger]
                        self@.is_free(q) implies p.scan_index() <= q.scan_index() by {
                        lemma_scan_index_of_grid_cell(q);
                    }
                }
                return Some(p);
            }
            k += 1;
        }
        proof {
            assert forall|q: Position| !#[trigger] self@.is_free(q) by {
                if q.in_grid() {
                    lemma_scan_index_of_grid_cell(q);
                }
            }
        }
        None
    }

    /// The heading.
    pub fn direction(&self) -> (d: Direction)
        ensures
            d == self@.direction,
    {
        self.direction
    }

    /// Whether a jump is pending.
    pub fn has_jumped(&self) -> (r: bool)
        ensures
            r == self@.has_jumped,
    {
        self.has_jumped
    }

    /// The head cell.
    pub fn head(&self) -> (p: Position)
        requires
            self.wf(),
        ensures
            p == self@.head(),
    {
        self.body[0]
    }

    /// Number of segments.
    pub fn len(&self) -> (n: usize)
        ensures
            n == self@.body.len(),
    {
        self.body.len()
    }

    /// The segments from head to tail.
    pub fn segments(&self) -> (v: Vec<Position>)
        ensures
            v@ == self@.body,
    {
        let n = self.body.len();
        let mut v: Vec<Position> = Vec::new();
        let mut i: usize = 0;
        while i < n
            invariant
                i <= n,
                n == self.body@.len(),
                v@ == self.body@.subrange(0, i as int),
            decreases n - i,
        {
            v.push(self.body[i]);
            assert(v@ =~= self.body@.subrange(0, i + 1));
            i += 1;
        }
        assert(v@ =~= self.body@);
        v
    }
}

} // verus!

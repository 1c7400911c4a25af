//! The snake itself: an ordered run of grid cells with a heading.

use vstd::prelude::*;

verus! {

/// One of the four ways a snake can face on the grid. The y axis grows
/// downwards, as on a screen.
#[derive(Clone, Copy, Debug, PartialEq, Eq, Structural)]
pub enum Direction {
    Up,
    Down,
    Left,
    Right,
}

impl Direction {
    /// The heading that points the other way.
    pub open spec fn reversed(self) -> Direction {
        match self {
            Direction::Up => Direction::Down,
            Direction::Down => Direction::Up,
            Direction::Left => Direction::Right,
            Direction::Right => Direction::Left,
        }
    }

    pub fn opposite(&self) -> (r: Direction)
        ensures
            r == self.reversed(),
    {
        match *self {
            Direction::Up => Direction::Down,
            Direction::Down => Direction::Up,
            Direction::Left => Direction::Right,
            Direction::Right => Direction::Left,
        }
    }
}

/// The cell next to `p` in direction `d`.
pub open spec fn neighbour(p: (int, int), d: Direction) -> (int, int) {
    match d {
        Direction::Up => (p.0, p.1 - 1),
        Direction::Down => (p.0, p.1 + 1),
        Direction::Left => (p.0 - 1, p.1),
        Direction::Right => (p.0 + 1, p.1),
    }
}

/// The heading a step takes: the requested one, or the current one when
/// nothing is requested.
pub open spec fn chosen(dir: Option<Direction>, heading: Direction) -> Direction {
    match dir {
        Some(d) => d,
        None => heading,
    }
}

/// The cells of a snake after one step onto `next`: the new head goes in
/// front, and the last cell is given up unless the snake is growing.
pub open spec fn stepped(cells: Seq<(int, int)>, next: (int, int), growing: bool) -> Seq<
    (int, int),
> {
    if growing {
        seq![next] + cells
    } else {
        seq![next] + cells.drop_last()
    }
}

/// A cell as a pair of mathematical integers.
pub open spec fn cell_of(p: (i32, i32)) -> (int, int) {
    (p.0 as int, p.1 as int)
}

pub struct Snake {
    direction: Direction,
    /// Head first, tail last.
    body: Vec<(i32, i32)>,
    /// Whether the next step keeps the tail.
    growing: bool,
}

impl Snake {
    /// The cells the snake covers, head first.
    pub closed spec fn cells(&self) -> Seq<(int, int)> {
        self.body@.map_values(|p: (i32, i32)| cell_of(p))
    }

    pub closed spec fn heading(&self) -> Direction {
        self.direction
    }

    /// Whether the next step keeps the tail, so that the snake gets longer.
    pub closed spec fn growth_pending(&self) -> bool {
        self.growing
    }

    /// A snake has at least a head, and every cell has a neighbour on each
    /// side that still is a cell of the grid's coordinate type.
    pub closed spec fn wf(&self) -> bool {
        &&& self.body@.len() >= 1
        &&& forall|i: int|
            0 <= i < self.body@.len() ==> i32::MIN < (#[trigger] self.body@[i]).0 < i32::MAX
                && i32::MIN < self.body@[i].1 < i32::MAX
    }

    pub open spec fn head(&self) -> (int, int) {
        self.cells()[0]
    }

    /// Where the head would be after a step in `dir`.
    pub open spec fn spec_next_head(&self, dir: Option<Direction>) -> (int, int) {
        neighbour(self.head(), chosen(dir, self.heading()))
    }

    /// What well-formedness means for the cells.
    pub proof fn lemma_wf(&self)
        requires
            self.wf(),
        ensures
            self.cells().len() >= 1,
            forall|i: int|
                0 <= i < self.cells().len() ==> i32::MIN < (#[trigger] self.cells()[i]).0
                    < i32::MAX && i32::MIN < self.cells()[i].1 < i32::MAX,
    {
    }

    /// A snake of two cells that faces right, with its head at `(x, y)`.
    pub fn new(x: i32, y: i32) -> (s: Snake)
        requires
            i32::MIN + 1 < x < i32::MAX,
            i32::MIN < y < i32::MAX,
        ensures
            s.wf(),
            s.cells() == seq![(x as int, y as int), (x - 1, y as int)],
            s.heading() == Direction::Right,
            !s.growth_pending(),
    {
        let mut body: Vec<(i32, i32)> = Vec::new();
        body.push((x, y));
        body.push((x - 1, y));
        let s = Snake { direction: Direction::Right, body, growing: false };
        assert(s.cells() =~= seq![(x as int, y as int), (x - 1, y as int)]);
        s
    }

    pub fn head_position(&self) -> (p: (i32, i32))
        requires
            self.wf(),
        ensures
            cell_of(p) == self.head(),
    {
        self.body[0]
    }

    pub fn head_direction(&self) -> (d: Direction)
        ensures
            d == self.heading(),
    {
        self.direction
    }

    /// The number of cells.
    pub fn len(&self) -> (n: usize)
        ensures
            n == self.cells().len(),
    {
        self.body.len()
    }

    /// The `i`-th cell, counted from the head.
    pub fn segment(&self, i: usize) -> (p: (i32, i32))
        requires
            i < self.cells().len(),
        ensures
            cell_of(p) == self.cells()[i as int],
    {
        self.body[i]
    }

    /// Where the head would be after a step in `dir`; the snake stays as it is.
    pub fn next_head(&self, dir: Option<Direction>) -> (p: (i32, i32))
        requires
            self.wf(),
        ensures
            cell_of(p) == self.spec_next_head(dir),
    {
        let (x, y): (i32, i32) = self.body[0];
        let d = match dir {
            Some(d) => d,
            None => self.direction,
        };
        match d {
            Direction::Up => (x, y - 1),
            Direction::Down => (x, y + 1),
            Direction::Left => (x - 1, y),
            Direction::Right => (x + 1, y),
        }
    }

    /// Whether `(x, y)` is one of the snake's cells, the tail included.
    pub fn overlap_tail(&self, x: i32, y: i32) -> (r: bool)
        ensures
            r == self.cells().contains((x as int, y as int)),
    {
        let mut i: usize = 0;
        while i < self.body.len()
            invariant
                i <= self.body@.len(),
                forall|j: int| 0 <= j < i ==> self.cells()[j] != (x as int, y as int),
            decreases self.body@.len() - i,
        {
            let (bx, by): (i32, i32) = self.body[i];
            if bx == x && by == y {
                assert(self.cells()[i as int] == (x as int, y as int));
                return true;
            }
            i += 1;
        }
        false
    }

    /// One step: the head moves to its neighbour in `dir` (or straight on),
    /// and the tail follows unless growth was pending, which is used up.
    pub fn move_forward(&mut self, dir: Option<Direction>)
        requires
            old(self).wf(),
            i32::MIN < old(self).spec_next_head(dir).0 < i32::MAX,
            i32::MIN < old(self).spec_next_head(dir).1 < i32::MAX,
        ensures
            final(self).wf(),
            final(self).heading() == chosen(dir, old(self).heading()),
            final(self).cells() == stepped(
                old(self).cells(),
                old(self).spec_next_head(dir),
                old(self).growth_pending(),
            ),
            !final(self).growth_pending(),
    {
        let next: (i32, i32) = self.next_head(dir);
        if let Some(d) = dir {
            self.direction = d;
        }
        self.body.insert(0, next);
        if !self.growing {
            self.body.pop();
        }
        self.growing = false;
        assert(self.cells() =~= stepped(
            old(self).cells(),
            old(self).spec_next_head(dir),
            old(self).growth_pending(),
        ));
    }

    /// Makes the next step keep the tail.
    pub fn restore_tail(&mut self)
        ensures
            final(self).growth_pending(),
            final(self).cells() == old(self).cells(),
            final(self).heading() == old(self).heading(),
            final(self).wf() == old(self).wf(),
    {
        self.growing = true;
    }
}

} // verus!

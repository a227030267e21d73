//! The grid engine: a rectangular cell buffer with toroidal neighbour
//! counting and the Conway transition rule, each operation specified against
//! the model in `model`.

use vstd::arithmetic::div_mod::{lemma_mod_sub_multiples_vanish, lemma_small_mod};
use vstd::prelude::*;

use crate::model::{
    all_dead, lemma_row_major_index, live_neighbor_count, neighbor_contrib, step, Cell,
};
use crate::random::{fresh_rng, gen_ratio};

verus! {

/// A toroidal Game of Life grid: `cells` is row-major, of length
/// `width * height`, and the cell at (row, col) sits at `row * width + col`.
pub struct GameOfLife {
    pub width: usize,
    pub height: usize,
    pub cells: Vec<Cell>,
}

/// `(x + d) % m`, computed without overflow for offsets `d <= m`.
fn wrap_add(x: usize, d: usize, m: usize) -> (r: usize)
    requires
        0 < m,
        x < m,
        d <= m,
    ensures
        r as int == (x as int + d as int) % (m as int),
        r < m,
{
    if d >= m - x {
        let r = d - (m - x);
        proof {
            lemma_mod_sub_multiples_vanish(x as int + d as int, m as int);
            lemma_small_mod(r as nat, m as nat);
        }
        r
    } else {
        let r = x + d;
        proof {
            lemma_small_mod(r as nat, m as nat);
        }
        r
    }
}

impl GameOfLife {
    /// The buffer has the advertised shape and neither dimension is zero.
    pub open spec fn wf(self) -> bool {
        1 <= self.width && 1 <= self.height && self.cells@.len() == self.width * self.height
    }

    /// Clamps both dimensions to at least 1 and allocates an all-dead buffer;
    /// nothing of any previous grid is carried over.
    pub fn new(width: usize, height: usize) -> (g: GameOfLife)
        requires
            (if width == 0 { 1int } else { width as int })
                * (if height == 0 { 1int } else { height as int }) <= usize::MAX,
        ensures
            g.wf(),
            g.width == (if width == 0 { 1usize } else { width }),
            g.height == (if height == 0 { 1usize } else { height }),
            all_dead(g.cells@),
    {
        let w: usize = if width == 0 { 1 } else { width };
        let h: usize = if height == 0 { 1 } else { height };
        let n: usize = w * h;
        let mut cells: Vec<Cell> = Vec::new();
        let mut i: usize = 0;
        while i < n
            invariant
                i <= n,
                cells@.len() == i,
                forall|j: int| 0 <= j < i ==> cells@[j] == Cell::Dead,
            decreases n - i,
        {
            cells.push(Cell::Dead);
            i = i + 1;
        }
        GameOfLife { width: w, height: h, cells }
    }

    /// The linear index of (row, col) in the row-major buffer.
    pub fn get_index(&self, row: usize, col: usize) -> (idx: usize)
        requires
            self.wf(),
            row < self.height,
            col < self.width,
        ensures
            idx == row * self.width + col,
            idx < self.cells@.len(),
    {
        let n = self.cells.len();
        proof {
            assert(row * self.width + col < self.height * self.width) by (nonlinear_arith)
                requires
                    row < self.height,
                    col < self.width,
                    0 < self.width,
            ;
            assert(self.height * self.width == self.width * self.height) by (nonlinear_arith);
        }
        row * self.width + col
    }

    /// One term of the neighbour scan: 1 if the cell at offset (dr, dc) from
    /// (row, col), wrapped toroidally, is alive; 0 for the skipped (0, 0)
    /// offset pair.
    fn neighbor_term(&self, row: usize, col: usize, dr: usize, dc: usize) -> (t: u8)
        requires
            self.wf(),
            row < self.height,
            col < self.width,
            dr <= self.height,
            dc <= self.width,
        ensures
            t as int == neighbor_contrib(
                self.cells@,
                self.width as int,
                self.height as int,
                row as int,
                col as int,
                dr as int,
                dc as int,
            ),
            t <= 1,
    {
        if dr == 0 && dc == 0 {
            0
        } else {
            let nr = wrap_add(row, dr, self.height);
            let nc = wrap_add(col, dc, self.width);
            let idx = self.get_index(nr, nc);
            if self.cells[idx] == Cell::Alive {
                1
            } else {
                0
            }
        }
    }

    /// Live cells among the eight toroidal Moore neighbours of (row, col),
    /// scanned with offsets {height-1, 0, 1} x {width-1, 0, 1} as the model
    /// prescribes; on a degenerate dimension a neighbour can be counted more
    /// than once.
    pub fn count_live_neighbors(&self, row: usize, col: usize) -> (count: u8)
        requires
            self.wf(),
            row < self.height,
            col < self.width,
        ensures
            count as int == live_neighbor_count(
                self.cells@,
                self.width as int,
                self.height as int,
                row as int,
                col as int,
            ),
    {
        let up = self.height - 1;
        let left = self.width - 1;
        let mut count: u8 = 0;
        count = count + self.neighbor_term(row, col, up, left);
        count = count + self.neighbor_term(row, col, up, 0);
        count = count + self.neighbor_term(row, col, up, 1);
        count = count + self.neighbor_term(row, col, 0, left);
        count = count + self.neighbor_term(row, col, 0, 0);
        count = count + self.neighbor_term(row, col, 0, 1);
        count = count + self.neighbor_term(row, col, 1, left);
        count = count + self.neighbor_term(row, col, 1, 0);
        count = count + self.neighbor_term(row, col, 1, 1);
        count
    }

    /// Advances the grid one generation. Every cell of the new buffer is the
    /// Conway rule applied to the cell's old state and its neighbour count in
    /// the old buffer, so the whole generation is computed from one snapshot.
    #[verifier::loop_isolation(false)]
    pub fn tick(&mut self)
        requires
            old(self).wf(),
        ensures
            final(self).wf(),
            final(self).width == old(self).width,
            final(self).height == old(self).height,
            final(self).cells@ == step(
                old(self).cells@,
                old(self).width as int,
                old(self).height as int,
            ),
    {
        let ghost w = self.width as int;
        let ghost h = self.height as int;
        let ghost prev = self.cells@;
        let mut next: Vec<Cell> = Vec::new();
        let mut row: usize = 0;
        while row < self.height
            invariant
                row <= self.height,
                next@.len() == row * w,
                forall|k: int| 0 <= k < next@.len() ==> next@[k] == step(prev, w, h)[k],
            decreases self.height - row,
        {
            let mut col: usize = 0;
            while col < self.width
                invariant
                    row < self.height,
                    col <= self.width,
                    next@.len() == row * w + col,
                    forall|k: int| 0 <= k < next@.len() ==> next@[k] == step(prev, w, h)[k],
                decreases self.width - col,
            {
                let idx = self.get_index(row, col);
                let live_neighbors = self.count_live_neighbors(row, col);
                let next_state = match (self.cells[idx], live_neighbors) {
                    (Cell::Alive, 2) | (Cell::Alive, 3) => Cell::Alive,
                    (Cell::Dead, 3) => Cell::Alive,
                    _ => Cell::Dead,
                };
                next.push(next_state);
                proof {
                    lemma_row_major_index(w, row as int, col as int);
                    assert(next@.last() == step(prev, w, h)[row * w + col]);
                }
                col = col + 1;
            }
            proof {
                assert(row * w + w == (row + 1) * w) by (nonlinear_arith);
            }
            row = row + 1;
        }
        proof {
            assert(h * w == w * h) by (nonlinear_arith);
            assert(next@ =~= step(prev, w, h));
        }
        self.cells = next;
    }

    /// Sets every cell to dead; the dimensions are unchanged.
    #[verifier::loop_isolation(false)]
    pub fn clear(&mut self)
        ensures
            final(self).width == old(self).width,
            final(self).height == old(self).height,
            final(self).cells@.len() == old(self).cells@.len(),
            all_dead(final(self).cells@),
    {
        let mut i: usize = 0;
        while i < self.cells.len()
            invariant
                i <= self.cells@.len(),
                self.width == old(self).width,
                self.height == old(self).height,
                self.cells@.len() == old(self).cells@.len(),
                forall|j: int| 0 <= j < i ==> self.cells@[j] == Cell::Dead,
            decreases self.cells@.len() - i,
        {
            self.cells.set(i, Cell::Dead);
            i = i + 1;
        }
    }

    /// Reseeds the whole grid: every cell is drawn afresh from the
    /// thread-local generator, alive with probability 3/10. No cell is
    /// skipped, and the dimensions and the buffer length are unchanged;
    /// which cells come out alive is left open, as the draws are random.
    #[verifier::loop_isolation(false)]
    pub fn randomize(&mut self)
        ensures
            final(self).width == old(self).width,
            final(self).height == old(self).height,
            final(self).cells@.len() == old(self).cells@.len(),
    {
        let mut rng = fresh_rng();
        let mut i: usize = 0;
        while i < self.cells.len()
            invariant
                i <= self.cells@.len(),
                self.width == old(self).width,
                self.height == old(self).height,
                self.cells@.len() == old(self).cells@.len(),
            decreases self.cells@.len() - i,
        {
            if gen_ratio(&mut rng, 3, 10) {
                self.cells.set(i, Cell::Alive);
            } else {
                self.cells.set(i, Cell::Dead);
            }
            i = i + 1;
        }
    }

    /// Sets the cell at (row, col) to `state` directly, bypassing the rule;
    /// an out-of-range request leaves the grid unchanged rather than failing.
    pub fn set_cell(&mut self, row: usize, col: usize, state: Cell)
        requires
            old(self).wf(),
        ensures
            final(self).wf(),
            final(self).width == old(self).width,
            final(self).height == old(self).height,
            row < old(self).height && col < old(self).width ==> final(self).cells@
                == old(self).cells@.update(row as int * old(self).width as int + col, state),
            !(row < old(self).height && col < old(self).width) ==> final(self).cells@
                == old(self).cells@,
    {
        if row < self.height && col < self.width {
            let idx = self.get_index(row, col);
            self.cells.set(idx, state);
        }
    }
}

} // verus!

//! The mathematical model of the automaton: cell states, toroidal neighbour
//! counting, the Conway rule, and the one-generation transform on a row-major
//! sequence of cells.

use vstd::prelude::*;

verus! {

/// The state of one grid position.
#[derive(Clone, Copy, PartialEq, Eq, Structural, Debug)]
pub enum Cell {
    Dead,
    Alive,
}

/// Whether the cell at (row, col) of a row-major buffer with the given width
/// is alive.
pub open spec fn alive_in(cells: Seq<Cell>, width: int, row: int, col: int) -> bool {
    cells[row * width + col] == Cell::Alive
}

/// The contribution of the neighbour at row offset `dr` and column offset
/// `dc`, both taken from {dimension - 1, 0, 1}. The pair whose components are
/// both zero contributes nothing: the scan skips the cell itself by the offset
/// values, so when a dimension is 1 the coinciding offsets are skipped too.
pub open spec fn neighbor_contrib(
    cells: Seq<Cell>,
    width: int,
    height: int,
    row: int,
    col: int,
    dr: int,
    dc: int,
) -> int {
    if dr == 0 && dc == 0 {
        0
    } else if alive_in(cells, width, (row + dr) % height, (col + dc) % width) {
        1
    } else {
        0
    }
}

/// Live cells in the Moore neighbourhood of (row, col) under toroidal
/// wraparound: the sum over row offsets {height-1, 0, 1} and column offsets
/// {width-1, 0, 1} of each neighbour's contribution. On a grid with a
/// dimension of 1 some offsets coincide, so one cell can be counted several
/// times; that is the engine's defined behaviour for degenerate grids.
pub open spec fn live_neighbor_count(
    cells: Seq<Cell>,
    width: int,
    height: int,
    row: int,
    col: int,
) -> int {
    let up = height - 1;
    let left = width - 1;
    neighbor_contrib(cells, width, height, row, col, up, left)
        + neighbor_contrib(cells, width, height, row, col, up, 0)
        + neighbor_contrib(cells, width, height, row, col, up, 1)
        + neighbor_contrib(cells, width, height, row, col, 0, left)
        + neighbor_contrib(cells, width, height, row, col, 0, 0)
        + neighbor_contrib(cells, width, height, row, col, 0, 1)
        + neighbor_contrib(cells, width, height, row, col, 1, left)
        + neighbor_contrib(cells, width, height, row, col, 1, 0)
        + neighbor_contrib(cells, width, height, row, col, 1, 1)
}

/// The Conway transition rule for one cell: a live cell survives on exactly
/// two or three live neighbours, a dead cell is born on exactly three.
pub open spec fn next_cell_alive(alive: bool, live_neighbors: int) -> bool {
    if alive {
        live_neighbors == 2 || live_neighbors == 3
    } else {
        live_neighbors == 3
    }
}

/// One generation: every cell of the new buffer is determined by its old
/// state and its live-neighbour count in the old buffer.
pub open spec fn step(cells: Seq<Cell>, width: int, height: int) -> Seq<Cell> {
    Seq::new(
        (width * height) as nat,
        |i: int|
            if next_cell_alive(
                alive_in(cells, width, i / width, i % width),
                live_neighbor_count(cells, width, height, i / width, i % width),
            ) {
                Cell::Alive
            } else {
                Cell::Dead
            },
    )
}

/// `n` generations in a row.
pub open spec fn step_iter(cells: Seq<Cell>, width: int, height: int, n: nat) -> Seq<Cell>
    decreases n,
{
    if n == 0 {
        cells
    } else {
        step(step_iter(cells, width, height, (n - 1) as nat), width, height)
    }
}

/// Row-major addressing is invertible: the cell stored at `r * w + c` is
/// read back as row `r`, column `c`.
pub proof fn lemma_row_major_index(w: int, r: int, c: int)
    requires
        0 < w,
        0 <= r,
        0 <= c < w,
    ensures
        (r * w + c) / w == r,
        (r * w + c) % w == c,
{
    vstd::arithmetic::div_mod::lemma_fundamental_div_mod_converse_div(r * w + c, w, r, c);
    vstd::arithmetic::div_mod::lemma_fundamental_div_mod_converse_mod(r * w + c, w, r, c);
}

/// Every cell of the buffer is dead.
pub open spec fn all_dead(cells: Seq<Cell>) -> bool {
    forall|i: int| 0 <= i < cells.len() ==> cells[i] == Cell::Dead
}

} // verus!

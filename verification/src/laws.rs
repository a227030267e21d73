//! The engine's general laws, each proved against the model: determinism of
//! the generation step, the birth and survival rules at a single cell, the
//! stillness of an all-dead grid, the stability of the 2x2 block, and the
//! period-two oscillation of the blinker.

use vstd::arithmetic::div_mod::{
    lemma_fundamental_div_mod, lemma_mod_bound, lemma_mod_sub_multiples_vanish, lemma_small_mod,
};
use vstd::prelude::*;

use crate::model::{
    alive_in, all_dead, lemma_row_major_index, live_neighbor_count, next_cell_alive, step,
    step_iter, Cell,
};

verus! {

/// A linear index into a `w`-by-`h` row-major buffer names the row `i / w`
/// and the column `i % w`, both in range.
pub proof fn lemma_index_to_coords(w: int, h: int, i: int)
    requires
        0 < w,
        0 < h,
        0 <= i < w * h,
    ensures
        0 <= i / w < h,
        0 <= i % w < w,
        i == (i / w) * w + (i % w),
{
    lemma_fundamental_div_mod(i, w);
    lemma_mod_bound(i, w);
    assert((i / w) * w == w * (i / w)) by (nonlinear_arith);
    assert(0 <= i / w < h) by (nonlinear_arith)
        requires
            0 < w,
            0 < h,
            0 <= i < w * h,
            i == w * (i / w) + (i % w),
            0 <= i % w < w,
    ;
}

/// What one generation does at a single position: the cell at (row, col) of
/// the stepped buffer is the Conway rule applied to the cell's old state and
/// its old neighbour count.
pub proof fn lemma_step_at(cells: Seq<Cell>, w: int, h: int, row: int, col: int)
    requires
        0 < w,
        0 < h,
        0 <= row < h,
        0 <= col < w,
    ensures
        step(cells, w, h)[row * w + col] == (if next_cell_alive(
            alive_in(cells, w, row, col),
            live_neighbor_count(cells, w, h, row, col),
        ) {
            Cell::Alive
        } else {
            Cell::Dead
        }),
{
    lemma_row_major_index(w, row, col);
    assert(0 <= row * w + col < w * h) by (nonlinear_arith)
        requires
            0 < w,
            0 < h,
            0 <= row < h,
            0 <= col < w,
    ;
}

/// Determinism: one generation is a function of the grid state alone, so two
/// identically-initialized grids step to identical buffers.
pub proof fn lemma_step_deterministic(a: Seq<Cell>, b: Seq<Cell>, w: int, h: int)
    requires
        a == b,
    ensures
        step(a, w, h) == step(b, w, h),
{
}

/// Birth rule: a dead cell with exactly three live neighbours is alive in the
/// next generation; with two or with four it stays dead.
pub proof fn lemma_birth_rule(cells: Seq<Cell>, w: int, h: int, row: int, col: int)
    requires
        0 < w,
        0 < h,
        0 <= row < h,
        0 <= col < w,
        !alive_in(cells, w, row, col),
    ensures
        live_neighbor_count(cells, w, h, row, col) == 3 ==> step(cells, w, h)[row * w + col]
            == Cell::Alive,
        live_neighbor_count(cells, w, h, row, col) != 3 ==> step(cells, w, h)[row * w + col]
            == Cell::Dead,
{
    lemma_step_at(cells, w, h, row, col);
}

/// Survival rule: a live cell with exactly two or three live neighbours stays
/// alive; with any other count it dies.
pub proof fn lemma_survival_rule(cells: Seq<Cell>, w: int, h: int, row: int, col: int)
    requires
        0 < w,
        0 < h,
        0 <= row < h,
        0 <= col < w,
        alive_in(cells, w, row, col),
    ensures
        (live_neighbor_count(cells, w, h, row, col) == 2 || live_neighbor_count(
            cells,
            w,
            h,
            row,
            col,
        ) == 3) ==> step(cells, w, h)[row * w + col] == Cell::Alive,
        !(live_neighbor_count(cells, w, h, row, col) == 2 || live_neighbor_count(
            cells,
            w,
            h,
            row,
            col,
        ) == 3) ==> step(cells, w, h)[row * w + col] == Cell::Dead,
{
    lemma_step_at(cells, w, h, row, col);
}

/// In an all-dead buffer of the right length no wrapped position is alive.
proof fn lemma_all_dead_not_alive(cells: Seq<Cell>, w: int, h: int, r: int, c: int)
    requires
        0 < w,
        0 < h,
        cells.len() == w * h,
        all_dead(cells),
        0 <= r < h,
        0 <= c < w,
    ensures
        !alive_in(cells, w, r, c),
{
    assert(0 <= r * w + c < w * h) by (nonlinear_arith)
        requires
            0 < w,
            0 < h,
            0 <= r < h,
            0 <= c < w,
    ;
}

/// A neighbour of a cell of an all-dead buffer contributes nothing to its
/// count, whatever the offset.
proof fn lemma_contrib_dead(cells: Seq<Cell>, w: int, h: int, r: int, c: int, dr: int, dc: int)
    requires
        0 < w,
        0 < h,
        cells.len() == w * h,
        all_dead(cells),
    ensures
        crate::model::neighbor_contrib(cells, w, h, r, c, dr, dc) == 0,
{
    if !(dr == 0 && dc == 0) {
        lemma_mod_bound(r + dr, h);
        lemma_mod_bound(c + dc, w);
        lemma_all_dead_not_alive(cells, w, h, (r + dr) % h, (c + dc) % w);
    }
}

/// A dead grid stays dead for one generation: no cell of an all-dead buffer
/// has a live neighbour, so none is born.
pub proof fn lemma_step_all_dead(cells: Seq<Cell>, w: int, h: int)
    requires
        0 < w,
        0 < h,
        cells.len() == w * h,
        all_dead(cells),
    ensures
        step(cells, w, h) == cells,
{
    assert forall|i: int| 0 <= i < w * h implies step(cells, w, h)[i] == cells[i] by {
        lemma_index_to_coords(w, h, i);
        let r = i / w;
        let c = i % w;
        lemma_step_at(cells, w, h, r, c);
        lemma_all_dead_not_alive(cells, w, h, r, c);
        lemma_contrib_dead(cells, w, h, r, c, h - 1, w - 1);
        lemma_contrib_dead(cells, w, h, r, c, h - 1, 0);
        lemma_contrib_dead(cells, w, h, r, c, h - 1, 1);
        lemma_contrib_dead(cells, w, h, r, c, 0, w - 1);
        lemma_contrib_dead(cells, w, h, r, c, 0, 0);
        lemma_contrib_dead(cells, w, h, r, c, 0, 1);
        lemma_contrib_dead(cells, w, h, r, c, 1, w - 1);
        lemma_contrib_dead(cells, w, h, r, c, 1, 0);
        lemma_contrib_dead(cells, w, h, r, c, 1, 1);
        assert(live_neighbor_count(cells, w, h, r, c) == 0);
    };
    assert(step(cells, w, h) =~= cells);
}

/// The two wrapped neighbours of a coordinate `x` in a dimension of size `m`:
/// offset `m - 1` steps back by one and offset `1` steps forward by one, each
/// wrapping at the edge; offset `0` stays put.
proof fn lemma_wrap_values(x: int, m: int)
    requires
        0 < m,
        0 <= x < m,
    ensures
        (x + (m - 1)) % m == (if x == 0 { m - 1 } else { x - 1 }),
        (x + 1) % m == (if x == m - 1 { 0 } else { x + 1 }),
        (x + 0) % m == x,
{
    lemma_small_mod(x as nat, m as nat);
    if x == 0 {
        lemma_small_mod((m - 1) as nat, m as nat);
    } else {
        lemma_mod_sub_multiples_vanish(x + (m - 1), m);
        lemma_small_mod((x - 1) as nat, m as nat);
    }
    if x == m - 1 {
        lemma_mod_sub_multiples_vanish(x + 1, m);
        lemma_small_mod(0nat, m as nat);
    } else {
        lemma_small_mod((x + 1) as nat, m as nat);
    }
}

/// The buffer holds exactly one 2x2 block of live cells whose top-left corner
/// is at (r0, c0), the block not wrapping an edge.
pub open spec fn is_block(cells: Seq<Cell>, w: int, h: int, r0: int, c0: int) -> bool {
    &&& cells.len() == w * h
    &&& 0 <= r0 && r0 + 1 < h
    &&& 0 <= c0 && c0 + 1 < w
    &&& forall|r: int, c: int|
        0 <= r < h && 0 <= c < w ==> (alive_in(cells, w, r, c) <==> ((r == r0 || r == r0 + 1) && (
        c == c0 || c == c0 + 1)))
}

/// One generation leaves each cell of a block grid unchanged: each of the
/// four block cells sees exactly three live neighbours, and no dead cell sees
/// more than two.
proof fn lemma_block_cell(cells: Seq<Cell>, w: int, h: int, r0: int, c0: int, r: int, c: int)
    requires
        4 <= w,
        4 <= h,
        is_block(cells, w, h, r0, c0),
        0 <= r < h,
        0 <= c < w,
    ensures
        step(cells, w, h)[r * w + c] == cells[r * w + c],
{
    lemma_wrap_values(r, h);
    lemma_wrap_values(c, w);
    lemma_step_at(cells, w, h, r, c);
}

/// Stable still-life: a 2x2 block on a grid of at least 4x4 is unchanged by
/// one generation.
pub proof fn lemma_block_step(cells: Seq<Cell>, w: int, h: int, r0: int, c0: int)
    requires
        4 <= w,
        4 <= h,
        is_block(cells, w, h, r0, c0),
    ensures
        step(cells, w, h) == cells,
{
    assert forall|i: int| 0 <= i < w * h implies step(cells, w, h)[i] == cells[i] by {
        lemma_index_to_coords(w, h, i);
        lemma_block_cell(cells, w, h, r0, c0, i / w, i % w);
    };
    assert(step(cells, w, h) =~= cells);
}

/// Stable still-life: a 2x2 block on a grid of at least 4x4 is unchanged by
/// any number of generations.
pub proof fn lemma_block_is_still(cells: Seq<Cell>, w: int, h: int, r0: int, c0: int, n: nat)
    requires
        4 <= w,
        4 <= h,
        is_block(cells, w, h, r0, c0),
    ensures
        step_iter(cells, w, h, n) == cells,
    decreases n,
{
    if n > 0 {
        lemma_block_is_still(cells, w, h, r0, c0, (n - 1) as nat);
        lemma_block_step(cells, w, h, r0, c0);
    }
}

/// The buffer holds exactly three live cells in a row: (r0, c0) through
/// (r0, c0 + 2), away from the edges by one row above and below.
pub open spec fn is_horizontal_blinker(cells: Seq<Cell>, w: int, h: int, r0: int, c0: int) -> bool {
    &&& cells.len() == w * h
    &&& 1 <= r0 && r0 + 1 < h
    &&& 0 <= c0 && c0 + 2 < w
    &&& forall|r: int, c: int|
        0 <= r < h && 0 <= c < w ==> (alive_in(cells, w, r, c) <==> (r == r0 && (c == c0 || c == c0
            + 1 || c == c0 + 2)))
}

/// The buffer holds exactly three live cells in a column: (rc - 1, cc)
/// through (rc + 1, cc), away from the edges by one column left and right.
pub open spec fn is_vertical_blinker(cells: Seq<Cell>, w: int, h: int, rc: int, cc: int) -> bool {
    &&& cells.len() == w * h
    &&& 1 <= rc && rc + 1 < h
    &&& 1 <= cc && cc + 1 < w
    &&& forall|r: int, c: int|
        0 <= r < h && 0 <= c < w ==> (alive_in(cells, w, r, c) <==> (c == cc && (r == rc - 1 || r
            == rc || r == rc + 1)))
}

/// What one generation does to a single cell of a horizontal blinker grid:
/// the bar's middle survives, its ends die, and the cells directly above and
/// below the middle are born.
proof fn lemma_blinker_h_cell(cells: Seq<Cell>, w: int, h: int, r0: int, c0: int, r: int, c: int)
    requires
        4 <= w,
        4 <= h,
        is_horizontal_blinker(cells, w, h, r0, c0),
        0 <= r < h,
        0 <= c < w,
    ensures
        alive_in(step(cells, w, h), w, r, c) <==> (c == c0 + 1 && (r == r0 - 1 || r == r0 || r
            == r0 + 1)),
{
    lemma_wrap_values(r, h);
    lemma_wrap_values(c, w);
    lemma_step_at(cells, w, h, r, c);
}

/// What one generation does to a single cell of a vertical blinker grid: the
/// bar's middle survives, its ends die, and the cells directly left and right
/// of the middle are born.
proof fn lemma_blinker_v_cell(cells: Seq<Cell>, w: int, h: int, rc: int, cc: int, r: int, c: int)
    requires
        4 <= w,
        4 <= h,
        is_vertical_blinker(cells, w, h, rc, cc),
        0 <= r < h,
        0 <= c < w,
    ensures
        alive_in(step(cells, w, h), w, r, c) <==> (r == rc && (c == cc - 1 || c == cc || c == cc
            + 1)),
{
    lemma_wrap_values(r, h);
    lemma_wrap_values(c, w);
    lemma_step_at(cells, w, h, r, c);
}

/// One generation turns the horizontal blinker into the vertical one, stood
/// on the bar's middle cell.
pub proof fn lemma_blinker_h_to_v(cells: Seq<Cell>, w: int, h: int, r0: int, c0: int)
    requires
        4 <= w,
        4 <= h,
        is_horizontal_blinker(cells, w, h, r0, c0),
    ensures
        is_vertical_blinker(step(cells, w, h), w, h, r0, c0 + 1),
{
    let s = step(cells, w, h);
    assert forall|r: int, c: int| 0 <= r < h && 0 <= c < w implies (alive_in(s, w, r, c) <==> (c
        == c0 + 1 && (r == r0 - 1 || r == r0 || r == r0 + 1))) by {
        lemma_blinker_h_cell(cells, w, h, r0, c0, r, c);
    };
}

/// One generation turns the vertical blinker back into the horizontal one.
pub proof fn lemma_blinker_v_to_h(cells: Seq<Cell>, w: int, h: int, rc: int, cc: int)
    requires
        4 <= w,
        4 <= h,
        is_vertical_blinker(cells, w, h, rc, cc),
    ensures
        is_horizontal_blinker(step(cells, w, h), w, h, rc, cc - 1),
{
    let s = step(cells, w, h);
    assert forall|r: int, c: int| 0 <= r < h && 0 <= c < w implies (alive_in(s, w, r, c) <==> (r
        == rc && (c == cc - 1 || c == cc || c == cc + 1))) by {
        lemma_blinker_v_cell(cells, w, h, rc, cc, r, c);
    };
}

/// Two buffers of the same shape whose live cells agree position by position
/// are equal.
proof fn lemma_same_live_cells(a: Seq<Cell>, b: Seq<Cell>, w: int, h: int)
    requires
        0 < w,
        0 < h,
        a.len() == w * h,
        b.len() == w * h,
        forall|r: int, c: int|
            0 <= r < h && 0 <= c < w ==> (alive_in(a, w, r, c) <==> alive_in(b, w, r, c)),
    ensures
        a == b,
{
    assert forall|i: int| 0 <= i < w * h implies a[i] == b[i] by {
        lemma_index_to_coords(w, h, i);
        let r = i / w;
        let c = i % w;
        assert(alive_in(a, w, r, c) <==> alive_in(b, w, r, c));
        assert(a[i] is Alive || a[i] is Dead);
        assert(b[i] is Alive || b[i] is Dead);
    };
    assert(a =~= b);
}

/// Oscillator: the blinker has period two. One generation turns the
/// horizontal bar into the vertical one, and a second generation restores
/// the original buffer exactly.
pub proof fn lemma_blinker_period_two(cells: Seq<Cell>, w: int, h: int, r0: int, c0: int)
    requires
        4 <= w,
        4 <= h,
        is_horizontal_blinker(cells, w, h, r0, c0),
    ensures
        is_vertical_blinker(step(cells, w, h), w, h, r0, c0 + 1),
        step(step(cells, w, h), w, h) == cells,
{
    lemma_blinker_h_to_v(cells, w, h, r0, c0);
    lemma_blinker_v_to_h(step(cells, w, h), w, h, r0, c0 + 1);
    lemma_same_live_cells(step(step(cells, w, h), w, h), cells, w, h);
}

/// Clear idempotence: once every cell is dead, any number of further
/// generations leaves the buffer exactly as it is.
pub proof fn lemma_all_dead_stays_dead(cells: Seq<Cell>, w: int, h: int, n: nat)
    requires
        0 < w,
        0 < h,
        cells.len() == w * h,
        all_dead(cells),
    ensures
        step_iter(cells, w, h, n) == cells,
    decreases n,
{
    if n > 0 {
        lemma_all_dead_stays_dead(cells, w, h, (n - 1) as nat);
        lemma_step_all_dead(cells, w, h);
    }
}

} // verus!

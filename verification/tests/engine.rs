use game_of_life::grid::GameOfLife;
use game_of_life::model::Cell;

fn make_grid(width: usize, height: usize, live: &[(usize, usize)]) -> GameOfLife {
    let mut g = GameOfLife::new(width, height);
    for &(r, c) in live {
        g.set_cell(r, c, Cell::Alive);
    }
    g
}

fn live_count(g: &GameOfLife) -> usize {
    g.cells.iter().filter(|&&c| c == Cell::Alive).count()
}

#[test]
fn new_clamps_zero_dimensions() {
    let g = GameOfLife::new(0, 5);
    assert_eq!(g.width, 1);
    assert_eq!(g.height, 5);
    assert_eq!(g.cells.len(), 5);
    assert!(g.cells.iter().all(|&c| c == Cell::Dead));

    let g = GameOfLife::new(0, 0);
    assert_eq!((g.width, g.height), (1, 1));
    assert_eq!(g.cells, vec![Cell::Dead]);
}

#[test]
fn new_starts_all_dead() {
    let g = GameOfLife::new(7, 3);
    assert_eq!(g.cells.len(), 21);
    assert!(g.cells.iter().all(|&c| c == Cell::Dead));
}

#[test]
fn get_index_is_row_major() {
    let g = GameOfLife::new(4, 3);
    assert_eq!(g.get_index(0, 0), 0);
    assert_eq!(g.get_index(1, 2), 6);
    assert_eq!(g.get_index(2, 3), 11);
}

#[test]
fn resize_discards_state() {
    let old = make_grid(4, 4, &[(0, 0), (1, 1), (2, 2), (3, 3)]);
    assert_eq!(live_count(&old), 4);
    let fresh = GameOfLife::new(6, 3);
    assert_eq!(fresh.cells.len(), 18);
    assert!(fresh.cells.iter().all(|&c| c == Cell::Dead));
}

#[test]
fn tick_is_deterministic() {
    let live = [(1, 2), (2, 2), (3, 2), (3, 3), (0, 7), (5, 1)];
    let mut a = make_grid(8, 8, &live);
    let mut b = make_grid(8, 8, &live);
    a.tick();
    b.tick();
    assert_eq!(a.cells, b.cells);
    a.tick();
    b.tick();
    assert_eq!(a.cells, b.cells);
}

#[test]
fn corner_cell_is_seen_across_edges() {
    let g = make_grid(3, 3, &[(0, 0)]);
    // On a 3x3 torus the live corner is a neighbour of every other cell.
    assert_eq!(g.count_live_neighbors(2, 2), 1);
    assert_eq!(g.count_live_neighbors(2, 0), 1);
    assert_eq!(g.count_live_neighbors(0, 2), 1);
    assert_eq!(g.count_live_neighbors(2, 1), 1);
    assert_eq!(g.count_live_neighbors(1, 1), 1);
    // The cell itself is skipped by the scan.
    assert_eq!(g.count_live_neighbors(0, 0), 0);
}

#[test]
fn block_is_still_life() {
    let start = make_grid(6, 6, &[(2, 2), (2, 3), (3, 2), (3, 3)]);
    let mut g = make_grid(6, 6, &[(2, 2), (2, 3), (3, 2), (3, 3)]);
    for _ in 0..5 {
        g.tick();
        assert_eq!(g.cells, start.cells);
    }
}

#[test]
fn block_in_corner_is_still_life_on_torus() {
    let start = make_grid(4, 4, &[(0, 0), (0, 1), (1, 0), (1, 1)]);
    let mut g = make_grid(4, 4, &[(0, 0), (0, 1), (1, 0), (1, 1)]);
    for _ in 0..3 {
        g.tick();
        assert_eq!(g.cells, start.cells);
    }
}

#[test]
fn blinker_oscillates_with_period_two() {
    let horizontal = make_grid(5, 5, &[(2, 1), (2, 2), (2, 3)]);
    let vertical = make_grid(5, 5, &[(1, 2), (2, 2), (3, 2)]);
    let mut g = make_grid(5, 5, &[(2, 1), (2, 2), (2, 3)]);
    g.tick();
    assert_eq!(g.cells, vertical.cells);
    g.tick();
    assert_eq!(g.cells, horizontal.cells);
}

#[test]
fn dead_cell_with_three_neighbors_is_born() {
    let mut g = make_grid(5, 5, &[(1, 1), (1, 2), (1, 3)]);
    g.tick();
    assert_eq!(g.cells[g.get_index(2, 2)], Cell::Alive);
}

#[test]
fn dead_cell_with_two_or_four_neighbors_stays_dead() {
    let mut g = make_grid(5, 5, &[(1, 1), (1, 3)]);
    assert_eq!(g.count_live_neighbors(2, 2), 2);
    g.tick();
    assert_eq!(g.cells[g.get_index(2, 2)], Cell::Dead);

    let mut g = make_grid(5, 5, &[(1, 1), (1, 3), (3, 1), (3, 3)]);
    assert_eq!(g.count_live_neighbors(2, 2), 4);
    g.tick();
    assert_eq!(g.cells[g.get_index(2, 2)], Cell::Dead);
}

#[test]
fn live_cell_with_two_or_three_neighbors_survives() {
    // The middle of a blinker has two live neighbours.
    let mut g = make_grid(5, 5, &[(2, 1), (2, 2), (2, 3)]);
    assert_eq!(g.count_live_neighbors(2, 2), 2);
    g.tick();
    assert_eq!(g.cells[g.get_index(2, 2)], Cell::Alive);

    // Every cell of a block has three live neighbours.
    let mut g = make_grid(5, 5, &[(1, 1), (1, 2), (2, 1), (2, 2)]);
    assert_eq!(g.count_live_neighbors(1, 1), 3);
    g.tick();
    assert_eq!(g.cells[g.get_index(1, 1)], Cell::Alive);
}

#[test]
fn live_cell_with_too_few_or_too_many_neighbors_dies() {
    // Lone cell: zero neighbours.
    let mut g = make_grid(5, 5, &[(2, 2)]);
    assert_eq!(g.count_live_neighbors(2, 2), 0);
    g.tick();
    assert_eq!(g.cells[g.get_index(2, 2)], Cell::Dead);

    // Pair: one neighbour each.
    let mut g = make_grid(5, 5, &[(2, 2), (2, 3)]);
    assert_eq!(g.count_live_neighbors(2, 2), 1);
    g.tick();
    assert!(g.cells.iter().all(|&c| c == Cell::Dead));

    // Centre of a plus sign: four neighbours.
    let mut g = make_grid(5, 5, &[(2, 2), (1, 2), (3, 2), (2, 1), (2, 3)]);
    assert_eq!(g.count_live_neighbors(2, 2), 4);
    g.tick();
    assert_eq!(g.cells[g.get_index(2, 2)], Cell::Dead);
}

#[test]
fn cleared_grid_stays_dead_under_ticks() {
    let mut g = GameOfLife::new(10, 10);
    g.randomize();
    g.clear();
    assert!(g.cells.iter().all(|&c| c == Cell::Dead));
    for _ in 0..5 {
        g.tick();
        assert!(g.cells.iter().all(|&c| c == Cell::Dead));
    }
}

#[test]
fn randomize_density_is_near_three_tenths() {
    for _ in 0..3 {
        let mut g = GameOfLife::new(100, 100);
        g.randomize();
        assert_eq!(g.cells.len(), 10_000);
        let fraction = live_count(&g) as f64 / 10_000.0;
        assert!(
            (fraction - 0.3).abs() <= 0.05,
            "live fraction {} is not within 0.05 of 0.3",
            fraction
        );
    }
}

#[test]
fn randomize_keeps_dimensions() {
    let mut g = GameOfLife::new(9, 4);
    g.randomize();
    assert_eq!((g.width, g.height), (9, 4));
    assert_eq!(g.cells.len(), 36);
}

#[test]
fn set_cell_out_of_range_is_a_no_op() {
    let mut g = make_grid(3, 3, &[(1, 1)]);
    let before = g.cells.clone();
    g.set_cell(3, 0, Cell::Alive);
    g.set_cell(0, 3, Cell::Alive);
    g.set_cell(10, 10, Cell::Alive);
    assert_eq!(g.cells, before);
}

#[test]
fn set_cell_writes_and_erases() {
    let mut g = GameOfLife::new(4, 4);
    g.set_cell(2, 1, Cell::Alive);
    assert_eq!(g.cells[g.get_index(2, 1)], Cell::Alive);
    g.set_cell(2, 1, Cell::Dead);
    assert!(g.cells.iter().all(|&c| c == Cell::Dead));
}

#[test]
fn degenerate_one_by_one_grid_wraps_onto_itself() {
    // On a 1x1 torus the scan sees the cell itself five times.
    let mut g = make_grid(1, 1, &[(0, 0)]);
    assert_eq!(g.count_live_neighbors(0, 0), 5);
    g.tick();
    assert_eq!(g.cells, vec![Cell::Dead]);
}

#[test]
fn degenerate_single_row_wraps_onto_itself() {
    // Width 3, height 1, one live cell in the middle: the row neighbours are
    // each scanned three times, so both ends see three and are born, while
    // the live cell sees only itself once and dies.
    let mut g = make_grid(3, 1, &[(0, 1)]);
    assert_eq!(g.count_live_neighbors(0, 0), 3);
    assert_eq!(g.count_live_neighbors(0, 1), 1);
    assert_eq!(g.count_live_neighbors(0, 2), 3);
    g.tick();
    assert_eq!(g.cells, vec![Cell::Alive, Cell::Dead, Cell::Alive]);
}

use bahyway::ishum::clearance::clearance_transform;
use bahyway::ishum::connectivity::connected_where_walkable;
use bahyway::ishum::severance::{disconnect_width_bisection, disconnect_width_linear_scan};
use bahyway::ishum::Grid;

fn open_grid(w: usize, h: usize) -> Grid {
    Grid::new(w, h)
}

/// The clearances as floats, infinite where nothing is blocked.
fn clearance_f64(grid: &Grid) -> Vec<f64> {
    clearance_transform(grid)
        .into_iter()
        .map(|d| match d {
            Some(v) => v as f64,
            None => f64::INFINITY,
        })
        .collect()
}

/// A traveller of width `w` passes through cells whose clearance is at
/// least `w / 2`.
fn connected_at_width(grid: &Grid, clearance: &[f64], a: (usize, usize), b: (usize, usize), w: f64) -> bool {
    let req = w / 2.0;
    let walkable: Vec<bool> = clearance.iter().map(|&c| c >= req).collect();
    connected_where_walkable(grid, &walkable, a, b)
}

#[test]
fn l1_monotone_severance() {
    let mut grid = open_grid(10, 3);
    for y in 0..3usize {
        if y != 1 {
            grid.set_blocked(5, y);
        }
    }
    let clearance = clearance_f64(&grid);
    let a = (0, 1);
    let b = (9, 1);
    let widths = [0.5, 1.0, 1.5, 2.0, 3.0];
    let mut seen_disconnect = false;
    for &w in &widths {
        let connected = connected_at_width(&grid, &clearance, a, b, w);
        if !connected {
            seen_disconnect = true;
        } else {
            assert!(!seen_disconnect, "connectivity must not return after being severed (w={w})");
        }
    }
    assert!(seen_disconnect, "the scripted grid must sever at some tested width");
}

#[test]
fn l2_buffers_block() {
    let mut grid = open_grid(5, 5);
    grid.set_blocked(2, 2);
    let clearance = clearance_f64(&grid);
    assert_eq!(clearance[2 * 5 + 2], 0.0);
    assert!(!connected_at_width(&grid, &clearance, (2, 2), (2, 2), 0.1));
}

#[test]
fn clearance_is_chessboard_distance_to_the_nearest_blocked_cell() {
    let mut grid = open_grid(4, 3);
    grid.set_blocked(0, 0);
    grid.set_blocked(3, 2);
    let d = clearance_transform(&grid);
    let expected: Vec<Option<u64>> = vec![
        Some(0), Some(1), Some(2), Some(2),
        Some(1), Some(1), Some(1), Some(1),
        Some(2), Some(2), Some(1), Some(0),
    ];
    assert_eq!(d, expected);
}

#[test]
fn a_blocked_centre_is_one_king_move_from_every_other_cell() {
    let mut grid = open_grid(3, 3);
    grid.set_blocked(1, 1);
    assert_eq!(clearance_f64(&grid), vec![1.0, 1.0, 1.0, 1.0, 0.0, 1.0, 1.0, 1.0, 1.0]);
}

#[test]
fn clearance_reaches_across_both_diagonals() {
    let mut grid = open_grid(5, 5);
    grid.set_blocked(4, 0);
    let d = clearance_transform(&grid);
    assert_eq!(d[4 * 5], Some(4));
    assert_eq!(d[2 * 5 + 2], Some(2));
    assert_eq!(d[4 * 5 + 4], Some(4));
}

#[test]
fn clearance_of_an_open_grid_is_infinite() {
    let grid = open_grid(3, 2);
    let d = clearance_transform(&grid);
    assert_eq!(d, vec![None; 6]);
}

#[test]
fn clearance_of_an_empty_grid_is_empty() {
    let grid = open_grid(0, 4);
    assert!(clearance_transform(&grid).is_empty());
}

#[test]
fn clearance_of_a_blocked_cell_is_zero_and_grows_along_a_row() {
    let mut grid = open_grid(6, 1);
    grid.set_blocked(2, 0);
    let d = clearance_transform(&grid);
    assert_eq!(d, vec![Some(2), Some(1), Some(0), Some(1), Some(2), Some(3)]);
}

fn width_bisection(grid: &Grid, clearance: &[f64], a: (usize, usize), b: (usize, usize), widths: &[f64]) -> Option<f64> {
    disconnect_width_bisection(widths.len(), |i: usize| !connected_at_width(grid, clearance, a, b, widths[i]))
        .map(|i| widths[i])
}

fn width_linear_scan(grid: &Grid, clearance: &[f64], a: (usize, usize), b: (usize, usize), widths: &[f64]) -> Option<f64> {
    disconnect_width_linear_scan(widths.len(), |i: usize| !connected_at_width(grid, clearance, a, b, widths[i]))
        .map(|i| widths[i])
}

#[test]
fn l3_bisection_matches_scan() {
    let mut grid = open_grid(12, 3);
    for y in 0..3usize {
        if y != 1 {
            grid.set_blocked(6, y);
        }
    }
    let clearance = clearance_f64(&grid);
    let a = (0, 1);
    let b = (11, 1);
    let widths = [0.2, 0.6, 1.0, 1.4, 1.8, 2.2, 2.6, 3.0];
    assert_eq!(
        width_bisection(&grid, &clearance, a, b, &widths),
        width_linear_scan(&grid, &clearance, a, b, &widths)
    );
}

#[test]
fn searches_find_the_first_severed_candidate() {
    let severed_from = |k: usize| move |i: usize| i >= k;
    for k in 0..=6usize {
        let expected = if k < 6 { Some(k) } else { None };
        assert_eq!(disconnect_width_bisection(6, severed_from(k)), expected);
        assert_eq!(disconnect_width_linear_scan(6, severed_from(k)), expected);
    }
    assert_eq!(disconnect_width_bisection(0, |_i: usize| true), None);
    assert_eq!(disconnect_width_linear_scan(0, |_i: usize| true), None);
}

#[test]
fn linear_scan_finds_the_first_even_without_monotonicity() {
    let answers = [false, true, false, true];
    assert_eq!(disconnect_width_linear_scan(4, |i: usize| answers[i]), Some(1));
}

#[test]
fn the_gap_of_the_scripted_wall_severs_above_width_two() {
    let mut grid = open_grid(12, 3);
    for y in 0..3usize {
        if y != 1 {
            grid.set_blocked(6, y);
        }
    }
    let clearance = clearance_f64(&grid);
    let widths = [0.2, 0.6, 1.0, 1.4, 1.8, 2.2, 2.6, 3.0];
    assert_eq!(width_bisection(&grid, &clearance, (0, 1), (11, 1), &widths), Some(2.2));
}

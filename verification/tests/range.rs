//! The reachability grid: radius bound, blocked-tile masking, and the
//! clamped neighbour helpers.

use tactics::a_star::{
    calculate_max_value, calculate_min_value, calculate_range, get_neighbours,
};

fn room_6x5() -> Vec<Vec<u8>> {
    // Five rows of six columns, all plain floor.
    (0..5).map(|_| vec![0u8; 6]).collect()
}

#[test]
fn radius_one_reaches_exactly_the_cross() {
    // Pawn at column 2, row 2 of a 6-wide, 5-tall room, radius 1: the
    // origin plus its four neighbours.
    let room = room_6x5();
    let grid = calculate_range((2, 2), 1, &room);
    assert_eq!(grid.len(), 5);
    for (j, row) in grid.iter().enumerate() {
        assert_eq!(row.len(), 6);
        for (i, &reachable) in row.iter().enumerate() {
            let expected = matches!(
                (i, j),
                (2, 2) | (1, 2) | (3, 2) | (2, 1) | (2, 3)
            );
            assert_eq!(reachable, expected, "cell ({}, {})", i, j);
        }
    }
}

#[test]
fn blocked_tile_is_never_reachable() {
    // The blocked code 20 right next to the pawn stays unreachable even
    // though it is within the radius.
    let mut room = room_6x5();
    room[2][3] = 20;
    let grid = calculate_range((2, 2), 1, &room);
    assert!(!grid[2][3]);
    // The other neighbours are untouched.
    assert!(grid[2][1] && grid[1][2] && grid[3][2] && grid[2][2]);
}

#[test]
fn cells_beyond_the_radius_squared_are_never_reachable() {
    let room = room_6x5();
    let radius: u16 = 2;
    let grid = calculate_range((2, 2), radius, &room);
    for (j, row) in grid.iter().enumerate() {
        for (i, &reachable) in row.iter().enumerate() {
            let dx = (i as i64) - 2;
            let dy = (j as i64) - 2;
            let dist2 = dx * dx + dy * dy;
            if dist2 > (radius as i64) * (radius as i64) {
                assert!(!reachable, "cell ({}, {}) lies beyond the radius", i, j);
            } else {
                assert!(reachable);
            }
        }
    }
}

#[test]
fn whole_room_reachable_with_a_large_radius() {
    let room = room_6x5();
    let grid = calculate_range((0, 0), 10, &room);
    assert!(grid.iter().all(|row| row.iter().all(|&c| c)));
}

#[test]
fn neighbours_are_clamped() {
    // Interior cell: plain one-step neighbours.
    let n = get_neighbours((5, 6), (2, 2));
    assert_eq!(n, vec![(1, 2), (2, 1), (2, 3), (3, 2)]);

    // Top-left corner: up and left floor at zero.
    let n = get_neighbours((5, 6), (0, 0));
    assert_eq!(n, vec![(0, 0), (0, 0), (0, 1), (1, 0)]);

    // Bottom-right corner: down and right stop at the last cell.
    let n = get_neighbours((5, 6), (4, 5));
    assert_eq!(n, vec![(3, 5), (4, 4), (4, 5), (4, 5)]);

    assert_eq!(calculate_min_value(0), 0);
    assert_eq!(calculate_min_value(7), 6);
    assert_eq!(calculate_max_value(5, 1), 2);
    // The step from the last cell stays on the grid.
    assert_eq!(calculate_max_value(5, 4), 4);
    assert_eq!(calculate_max_value(5, 5), 4);
}

//! Reachability on the room grid: from a pawn's cell, every cell within a
//! squared Euclidean distance of the radius squared is in range, and the
//! impassable tile code is masked out of the result.

use vstd::prelude::*;

verus! {

/// The tile code of an impassable cell: never walkable, never targetable.
pub const BLOCKED_TILE: u8 = 20;

/// Squared Euclidean distance between two cells.
pub open spec fn spec_dist_squared(x1: int, y1: int, x2: int, y2: int) -> int {
    (x1 - x2) * (x1 - x2) + (y1 - y2) * (y1 - y2)
}

/// A room grid is well formed when it has at least one row, all rows have
/// the same width, at least one column, and both dimensions fit a u16, as
/// every grid coordinate of the game does.
pub open spec fn spec_room_wf(room: Seq<Seq<u8>>) -> bool {
    &&& room.len() > 0
    &&& room[0].len() > 0
    &&& room.len() <= u16::MAX
    &&& room[0].len() <= u16::MAX
    &&& forall|j: int| 0 <= j < room.len() ==> #[trigger] room[j].len() == room[0].len()
}

/// The view of a room as a sequence of rows of tile codes.
pub open spec fn room_view(room: &Vec<Vec<u8>>) -> Seq<Seq<u8>> {
    Seq::new(room@.len(), |j: int| room@[j]@)
}

/// The view of a reachability grid as a sequence of rows of flags.
pub open spec fn bool_grid_view(grid: &Vec<Vec<bool>>) -> Seq<Seq<bool>> {
    Seq::new(grid@.len(), |j: int| grid@[j]@)
}

/// Whether the cell in column `i` of row `j` is reachable from
/// `pawn_position` with the given radius: within the squared distance
/// bound and not the blocked tile.
pub open spec fn spec_reachable(
    room: Seq<Seq<u8>>,
    pawn_position: (u16, u16),
    range: u16,
    i: int,
    j: int,
) -> bool {
    &&& spec_dist_squared(i, j, pawn_position.0 as int, pawn_position.1 as int) <= range * range
    &&& room[j][i] != BLOCKED_TILE
}

/// The boolean reachability grid used to constrain both walking
/// destinations and attack targets: same shape as the room, true exactly on
/// the cells within the radius whose tile is not blocked.
pub fn calculate_range(pawn_position: (u16, u16), range: u16, room: &Vec<Vec<u8>>) -> (r: Vec<
    Vec<bool>,
>)
    requires
        spec_room_wf(room_view(room)),
    ensures
        r@.len() == room@.len(),
        forall|j: int| 0 <= j < r@.len() ==> #[trigger] r@[j]@.len() == room@[0]@.len(),
        forall|j: int, i: int|
            0 <= j < r@.len() && 0 <= i < r@[j]@.len() ==> #[trigger] r@[j]@[i]
                == spec_reachable(room_view(room), pawn_position, range, i, j),
{
    let rows = room.len();
    let cols = room[0].len();
    proof {
        assert((range as u64) * (range as u64) <= 0xFFFF_FFFF_FFFF_FFFF) by (nonlinear_arith)
            requires
                range <= 65535,
        ;
    }
    let radius_squared: u64 = (range as u64) * (range as u64);

    let mut result: Vec<Vec<bool>> = Vec::new();
    let mut j: usize = 0;
    while j < rows
        invariant
            spec_room_wf(room_view(room)),
            rows == room@.len(),
            cols == room@[0]@.len(),
            radius_squared == range * range,
            j <= rows,
            result@.len() == j,
            forall|b: int| 0 <= b < j ==> #[trigger] result@[b]@.len() == cols,
            forall|b: int, a: int|
                0 <= b < j && 0 <= a < cols ==> #[trigger] result@[b]@[a] == spec_reachable(
                    room_view(room),
                    pawn_position,
                    range,
                    a,
                    b,
                ),
        decreases rows - j,
    {
        let mut row: Vec<bool> = Vec::new();
        let mut i: usize = 0;
        while i < cols
            invariant
                spec_room_wf(room_view(room)),
                rows == room@.len(),
                cols == room@[0]@.len(),
                radius_squared == range * range,
                j < rows,
                i <= cols,
                row@.len() == i,
                forall|a: int|
                    0 <= a < i ==> #[trigger] row@[a] == spec_reachable(
                        room_view(room),
                        pawn_position,
                        range,
                        a,
                        j as int,
                    ),
            decreases cols - i,
        {
            let dx: u64 = if (i as u64) >= (pawn_position.0 as u64) {
                (i as u64) - (pawn_position.0 as u64)
            } else {
                (pawn_position.0 as u64) - (i as u64)
            };
            let dy: u64 = if (j as u64) >= (pawn_position.1 as u64) {
                (j as u64) - (pawn_position.1 as u64)
            } else {
                (pawn_position.1 as u64) - (j as u64)
            };
            proof {
                assert(dx <= 65535 && dy <= 65535);
                assert(dx * dx + dy * dy <= 0xFFFF_FFFF_FFFF_FFFF) by (nonlinear_arith)
                    requires
                        dx <= 65535,
                        dy <= 65535,
                ;
                assert(dx * dx + dy * dy == spec_dist_squared(
                    i as int,
                    j as int,
                    pawn_position.0 as int,
                    pawn_position.1 as int,
                )) by (nonlinear_arith)
                    requires
                        dx == if i >= pawn_position.0 {
                            i - pawn_position.0
                        } else {
                            pawn_position.0 - i
                        },
                        dy == if j >= pawn_position.1 {
                            j - pawn_position.1
                        } else {
                            pawn_position.1 - j
                        },
                ;
            }
            let dist_squared: u64 = dx * dx + dy * dy;
            proof {
                assert(room@[j as int]@ == room_view(room)[j as int]);
                assert(room_view(room)[j as int].len() == room_view(room)[0].len());
                assert(room@[j as int]@.len() == cols);
            }
            let reachable = dist_squared <= radius_squared && room[j][i] != BLOCKED_TILE;
            row.push(reachable);
            i = i + 1;
        }
        result.push(row);
        j = j + 1;
    }
    result
}

/// A cell strictly beyond the radius is never reachable, and the blocked
/// tile code is never reachable even within the radius.
pub proof fn lemma_range_excludes_far_and_blocked(
    room: Seq<Seq<u8>>,
    pawn_position: (u16, u16),
    range: u16,
    i: int,
    j: int,
)
    ensures
        spec_dist_squared(i, j, pawn_position.0 as int, pawn_position.1 as int) > range * range
            ==> !spec_reachable(room, pawn_position, range, i, j),
        room[j][i] == BLOCKED_TILE ==> !spec_reachable(room, pawn_position, range, i, j),
{
}

/// The four axis-aligned neighbours of a cell, clamped to the grid: up
/// and left floor at 0, down and right stop at the last cell.
pub fn get_neighbours(room_size: (u16, u16), position: (u16, u16)) -> (r: Vec<(u16, u16)>)
    requires
        room_size.0 >= 1,
        room_size.1 >= 1,
        position.0 < u16::MAX,
        position.1 < u16::MAX,
    ensures
        r@.len() == 4,
        r@[0] == (spec_min_value(position.0), position.1),
        r@[1] == (position.0, spec_min_value(position.1)),
        r@[2] == (position.0, spec_max_value(room_size.1, position.1)),
        r@[3] == (spec_max_value(room_size.0, position.0), position.1),
{
    let up = calculate_min_value(position.0);
    let left = calculate_min_value(position.1);

    let down = calculate_max_value(room_size.0, position.0);
    let right = calculate_max_value(room_size.1, position.1);

    let mut result: Vec<(u16, u16)> = Vec::new();
    result.push((up, position.1));
    result.push((position.0, left));
    result.push((position.0, right));
    result.push((down, position.1));
    result
}

/// One step down or right, clamped to the last cell of the room.
pub open spec fn spec_max_value(room_size_max: u16, position: u16) -> u16 {
    if position + 1 > room_size_max - 1 {
        (room_size_max - 1) as u16
    } else {
        (position + 1) as u16
    }
}

/// One step up or left, floored at zero.
pub open spec fn spec_min_value(position: u16) -> u16 {
    if position == 0 {
        0u16
    } else {
        (position - 1) as u16
    }
}

pub fn calculate_max_value(room_size_max: u16, position: u16) -> (r: u16)
    requires
        room_size_max >= 1,
        position < u16::MAX,
    ensures
        r == spec_max_value(room_size_max, position),
        r < room_size_max,
{
    if position + 1 > room_size_max - 1 {
        room_size_max - 1
    } else {
        position + 1
    }
}

pub fn calculate_min_value(position: u16) -> (r: u16)
    ensures
        r == spec_min_value(position),
{
    if position == 0 {
        0
    } else {
        position - 1
    }
}

} // verus!

//! The round engine's computable parts: turn order by dexterity, the
//! sprite snapshot of a room, and the creature roster line. The loop
//! itself waits on human answers, so it runs outside the library and
//! feeds these functions.

use vstd::prelude::*;
use crate::pawn::Pawn;
use crate::sprite::{Layer, ObjectToSprite, Sprite};

verus! {

pub struct GameLoop {}

/// The background sprites of the first `n` rows of a room: one per cell,
/// the tile code as texture, the column as x and the row as y.
pub open spec fn spec_room_tile_sprites(room: Seq<Seq<u8>>, n: int) -> Seq<Sprite>
    decreases n,
{
    if n <= 0 {
        Seq::empty()
    } else {
        spec_room_tile_sprites(room, n - 1) + Seq::new(
            room[n - 1].len(),
            |j: int|
                Sprite {
                    texture_id: room[n - 1][j],
                    pos_x: j as i32,
                    pos_y: (n - 1) as i32,
                    layer: Layer::BACKGROUND,
                },
        )
    }
}

/// The names of the non-playable creatures among the first `n` pawns.
pub open spec fn spec_creature_names(pawns: Seq<Pawn>, n: int) -> Seq<Seq<char>>
    decreases n,
{
    if n <= 0 {
        Seq::empty()
    } else {
        spec_creature_names(pawns, n - 1) + (if !pawns[n - 1].playable {
            seq![pawns[n - 1].name@]
        } else {
            Seq::empty()
        })
    }
}

/// The sprites of the first `n` pawns, in pawn order.
pub open spec fn spec_pawn_sprites(pawns: Seq<Pawn>, n: int) -> Seq<Sprite>
    decreases n,
{
    if n <= 0 {
        Seq::empty()
    } else {
        spec_pawn_sprites(pawns, n - 1) + pawns[n - 1].spec_world_origin()
    }
}

impl GameLoop {
    /// The turn order of a round: the pawn indices, sorted by ascending
    /// dexterity. The result is a permutation of all indices.
    pub fn order_pawns(pawns: &Vec<Pawn>) -> (r: Vec<usize>)
        ensures
            r@.len() == pawns@.len(),
            forall|j: int| 0 <= j < r@.len() ==> (#[trigger] r@[j]) < pawns@.len(),
            forall|a: int, b: int|
                0 <= a < b < r@.len() ==> pawns@[r@[a] as int].characteristics.dexterity
                    <= pawns@[r@[b] as int].characteristics.dexterity,
            forall|a: int, b: int|
                0 <= a < b < r@.len() && pawns@[r@[a] as int].characteristics.dexterity
                    == pawns@[r@[b] as int].characteristics.dexterity ==> r@[a] < r@[b],
            forall|i: usize| i < pawns@.len() ==> r@.contains(i),
            r@.no_duplicates(),
    {
        let mut result: Vec<usize> = Vec::new();
        let mut n: usize = 0;
        while n < pawns.len()
            invariant
                n <= pawns@.len(),
                result@.len() == n,
                forall|j: int| 0 <= j < result@.len() ==> (#[trigger] result@[j]) < n,
                forall|a: int, b: int|
                    0 <= a < b < result@.len() ==> pawns@[result@[a] as int].characteristics.dexterity
                        <= pawns@[result@[b] as int].characteristics.dexterity,
                forall|a: int, b: int|
                    0 <= a < b < result@.len() && pawns@[result@[a] as int].characteristics.dexterity
                        == pawns@[result@[b] as int].characteristics.dexterity ==> result@[a]
                        < result@[b],
                forall|i: usize| i < n ==> result@.contains(i),
                result@.no_duplicates(),
            decreases pawns@.len() - n,
        {
            let ghost before = result@;
            let dex_n = pawns[n].characteristics.dexterity;
            let p = insertion_point(pawns, &result, dex_n);
            result.insert(p, n);
            proof {
                assert(result@ == before.insert(p as int, n as usize));
                assert forall|a: int, b: int|
                    0 <= a < b < result@.len() implies pawns@[result@[a] as int].characteristics.dexterity
                    <= pawns@[result@[b] as int].characteristics.dexterity by {
                    if b < p {
                        assert(result@[a] == before[a] && result@[b] == before[b]);
                    } else if a > p {
                        assert(result@[a] == before[a - 1] && result@[b] == before[b - 1]);
                    } else if a == p && b > p {
                        assert(result@[b] == before[b - 1]);
                        assert(pawns@[before[b - 1] as int].characteristics.dexterity > dex_n);
                    } else if b == p && a < p {
                        assert(result@[a] == before[a]);
                    } else if a < p && b > p {
                        assert(result@[a] == before[a] && result@[b] == before[b - 1]);
                        if p < before.len() {
                            assert(pawns@[before[p as int] as int].characteristics.dexterity
                                > dex_n);
                        }
                        if b - 1 > p - 1 && b - 1 < before.len() && a < b - 1 {
                            assert(pawns@[before[a] as int].characteristics.dexterity
                                <= pawns@[before[b - 1] as int].characteristics.dexterity);
                        }
                    }
                }
                assert forall|a: int, b: int|
                    0 <= a < b < result@.len() && pawns@[result@[a] as int].characteristics.dexterity
                        == pawns@[result@[b] as int].characteristics.dexterity implies result@[a]
                    < result@[b] by {
                    if b < p {
                        assert(result@[a] == before[a] && result@[b] == before[b]);
                    } else if a > p {
                        assert(result@[a] == before[a - 1] && result@[b] == before[b - 1]);
                    } else if a == p && b > p {
                        assert(result@[b] == before[b - 1]);
                        if b - 1 > p {
                            assert(pawns@[before[p as int] as int].characteristics.dexterity
                                <= pawns@[before[b - 1] as int].characteristics.dexterity);
                        }
                        assert(pawns@[before[b - 1] as int].characteristics.dexterity > dex_n);
                    } else if b == p {
                        assert(result@[a] == before[a]);
                        assert(before[a] < n);
                    } else {
                        assert(result@[a] == before[a] && result@[b] == before[b - 1]);
                    }
                }
                assert forall|i: usize| i < n + 1 implies result@.contains(i) by {
                    if i < n {
                        assert(before.contains(i));
                        let k = choose|k: int| 0 <= k < before.len() && before[k] == i;
                        assert(before[k] == i);
                        if k < p {
                            assert(result@[k] == i);
                        } else {
                            assert(result@[k + 1] == i);
                        }
                    } else {
                        assert(result@[p as int] == i);
                    }
                }
                assert forall|a: int, b: int|
                    0 <= a < result@.len() && 0 <= b < result@.len() && a != b implies result@[a]
                    != result@[b] by {
                    let av: usize = result@[a];
                    let bv: usize = result@[b];
                    if a == p && b != p {
                        assert(av == n as usize);
                        assert(bv == (if b < p {
                            before[b]
                        } else {
                            before[b - 1]
                        }));
                        assert(bv < n);
                    } else if b == p && a != p {
                        assert(bv == n as usize);
                        assert(av < n);
                    } else if a != p && b != p {
                        let ai = if a < p {
                            a
                        } else {
                            a - 1
                        };
                        let bi = if b < p {
                            b
                        } else {
                            b - 1
                        };
                        assert(av == before[ai] && bv == before[bi]);
                        assert(ai != bi);
                    }
                }
            }
            n = n + 1;
        }
        result
    }

    /// The background sprites of a room, cell by cell.
    pub fn room_sprites(room: &Vec<Vec<u8>>) -> (r: Vec<Sprite>)
        ensures
            r@ == spec_room_tile_sprites(
                Seq::new(room@.len(), |j: int| room@[j]@),
                room@.len() as int,
            ),
    {
        let ghost rows = Seq::new(room@.len(), |j: int| room@[j]@);
        let mut result: Vec<Sprite> = Vec::new();
        let mut i: usize = 0;
        while i < room.len()
            invariant
                rows == Seq::new(room@.len(), |j: int| room@[j]@),
                i <= room@.len(),
                result@ == spec_room_tile_sprites(rows, i as int),
            decreases room@.len() - i,
        {
            let cols = room[i].len();
            let mut j: usize = 0;
            while j < cols
                invariant
                    rows == Seq::new(room@.len(), |jj: int| room@[jj]@),
                    i < room@.len(),
                    cols == room@[i as int]@.len(),
                    j <= cols,
                    result@ == spec_room_tile_sprites(rows, i as int) + Seq::new(
                        j as nat,
                        |jj: int|
                            Sprite {
                                texture_id: rows[i as int][jj],
                                pos_x: jj as i32,
                                pos_y: i as i32,
                                layer: Layer::BACKGROUND,
                            },
                    ),
                decreases cols - j,
            {
                let tile = room[i][j];
                proof {
                    assert(rows[i as int] == room@[i as int]@);
                }
                result.push(Sprite::new(tile, j as i32, i as i32, Layer::BACKGROUND));
                proof {
                    assert(result@ =~= spec_room_tile_sprites(rows, i as int) + Seq::new(
                        (j + 1) as nat,
                        |jj: int|
                            Sprite {
                                texture_id: rows[i as int][jj],
                                pos_x: jj as i32,
                                pos_y: i as i32,
                                layer: Layer::BACKGROUND,
                            },
                    ));
                }
                j = j + 1;
            }
            proof {
                assert(result@ =~= spec_room_tile_sprites(rows, i + 1));
            }
            i = i + 1;
        }
        result
    }

    /// The sprite snapshot the simulation publishes each round: every
    /// pawn's sprite, then the room's background tiles.
    pub fn round_sprites(pawns: &Vec<Pawn>, room: &Vec<Vec<u8>>) -> (r: Vec<Sprite>)
        ensures
            r@ == spec_pawn_sprites(pawns@, pawns@.len() as int) + spec_room_tile_sprites(
                Seq::new(room@.len(), |j: int| room@[j]@),
                room@.len() as int,
            ),
    {
        let mut result: Vec<Sprite> = Vec::new();
        let mut i: usize = 0;
        while i < pawns.len()
            invariant
                i <= pawns@.len(),
                result@ == spec_pawn_sprites(pawns@, i as int),
            decreases pawns@.len() - i,
        {
            let mut sprites = pawns[i].get_world_origin();
            result.append(&mut sprites);
            proof {
                assert(result@ =~= spec_pawn_sprites(pawns@, i + 1));
            }
            i = i + 1;
        }
        let mut tiles = Self::room_sprites(room);
        result.append(&mut tiles);
        result
    }

    /// The names of the creatures (the non-playable pawns) in the place.
    pub fn creature_names(pawns: &Vec<Pawn>) -> (r: Vec<String>)
        ensures
            r@.map_values(|s: String| s@) == spec_creature_names(pawns@, pawns@.len() as int),
    {
        let mut result: Vec<String> = Vec::new();
        let mut i: usize = 0;
        while i < pawns.len()
            invariant
                i <= pawns@.len(),
                result@.map_values(|s: String| s@) == spec_creature_names(pawns@, i as int),
            decreases pawns@.len() - i,
        {
            if !pawns[i].playable {
                result.push(pawns[i].name.clone());
            }
            proof {
                assert(result@.map_values(|s: String| s@) =~= spec_creature_names(pawns@, i + 1));
            }
            i = i + 1;
        }
        result
    }
}

/// The position a new index sorts into: the first entry whose dexterity
/// strictly exceeds the new pawn's keeps the sort stable.
fn insertion_point(pawns: &Vec<Pawn>, result: &Vec<usize>, dex_n: u8) -> (p: usize)
    requires
        forall|j: int| 0 <= j < result@.len() ==> (#[trigger] result@[j]) < pawns@.len(),
    ensures
        p <= result@.len(),
        forall|q: int|
            0 <= q < p ==> pawns@[result@[q] as int].characteristics.dexterity <= dex_n,
        p < result@.len() ==> pawns@[result@[p as int] as int].characteristics.dexterity > dex_n,
{
    let mut p: usize = 0;
    while p < result.len()
        invariant
            forall|j: int| 0 <= j < result@.len() ==> (#[trigger] result@[j]) < pawns@.len(),
            p <= result@.len(),
            forall|q: int|
                0 <= q < p ==> pawns@[result@[q] as int].characteristics.dexterity <= dex_n,
        decreases result@.len() - p,
    {
        if pawns[result[p]].characteristics.dexterity > dex_n {
            return p;
        }
        p = p + 1;
    }
    p
}

} // verus!

//! The world: named places with a weather, a tile grid and the pawns that
//! stand in it.

use vstd::prelude::*;
use crate::pawn::Pawn;

verus! {

pub struct World {
    pub name: String,
    pub places: Vec<Place>,
    pub day: u32,
}

impl World {
    /// One more day has passed.
    pub fn add_day(&mut self)
        requires
            old(self).day < u32::MAX,
        ensures
            *final(self) == (World { day: (old(self).day + 1) as u32, ..*old(self) }),
    {
        self.day = self.day + 1;
    }
}

#[derive(Debug)]
pub struct Weather {
    pub name: String,
    pub temperature: i8,
    pub humidity: u8,
    pub visibility: u8,
    pub wind: u8,
}

impl Weather {
    /// An independent copy equal to this weather, field for field.
    pub fn duplicate(&self) -> (r: Weather)
        ensures
            r == *self,
    {
        Weather {
            name: self.name.clone(),
            temperature: self.temperature,
            humidity: self.humidity,
            visibility: self.visibility,
            wind: self.wind,
        }
    }
}

/// A named area: its weather, its tile grid, the ids of the adjacent
/// places (whose tile codes double as door tiles), and the pawns standing
/// in it. A place owns its pawns; everything else refers to them by id.
pub struct Place {
    pub id: u8,
    pub name: String,
    pub weather: Weather,
    pub time: String,
    pub light: u8,
    pub adjacent_places: Vec<u8>,
    pub pawns: Vec<Pawn>,
    pub room: Vec<Vec<u8>>,
}

/// The selector sprites of the first `n` rows of a room, row by row: one
/// per cell, texture 1, on the movables layer, carrying the row index as
/// x and the column index as y, as the room renderer expects them.
pub open spec fn spec_place_sprites(room: Seq<Seq<u8>>, n: int) -> Seq<crate::sprite::Sprite>
    decreases n,
{
    if n <= 0 {
        Seq::empty()
    } else {
        spec_place_sprites(room, n - 1) + Seq::new(
            room[n - 1].len(),
            |j: int|
                crate::sprite::Sprite {
                    texture_id: 1,
                    pos_x: (n - 1) as i32,
                    pos_y: j as i32,
                    layer: crate::sprite::Layer::MOVABLES,
                },
        )
    }
}

impl crate::sprite::ObjectToSprite for Place {
    /// One selector sprite per room cell.
    open spec fn spec_world_origin(&self) -> Seq<crate::sprite::Sprite> {
        spec_place_sprites(
            Seq::new(self.room@.len(), |j: int| self.room@[j]@),
            self.room@.len() as int,
        )
    }

    fn get_world_origin(&self) -> (r: Vec<crate::sprite::Sprite>)
    {
        let ghost rows = Seq::new(self.room@.len(), |j: int| self.room@[j]@);
        let mut result: Vec<crate::sprite::Sprite> = Vec::new();
        let mut i: usize = 0;
        while i < self.room.len()
            invariant
                rows == Seq::new(self.room@.len(), |j: int| self.room@[j]@),
                i <= self.room@.len(),
                result@ == spec_place_sprites(rows, i as int),
            decreases self.room@.len() - i,
        {
            let cols = self.room[i].len();
            let mut j: usize = 0;
            while j < cols
                invariant
                    rows == Seq::new(self.room@.len(), |jj: int| self.room@[jj]@),
                    i < self.room@.len(),
                    cols == self.room@[i as int]@.len(),
                    j <= cols,
                    result@ == spec_place_sprites(rows, i as int) + Seq::new(
                        j as nat,
                        |jj: int|
                            crate::sprite::Sprite {
                                texture_id: 1,
                                pos_x: i as i32,
                                pos_y: jj as i32,
                                layer: crate::sprite::Layer::MOVABLES,
                            },
                    ),
                decreases cols - j,
            {
                result.push(
                    crate::sprite::Sprite::new(
                        1,
                        i as i32,
                        j as i32,
                        crate::sprite::Layer::MOVABLES,
                    ),
                );
                proof {
                    assert(result@ =~= spec_place_sprites(rows, i as int) + Seq::new(
                        (j + 1) as nat,
                        |jj: int|
                            crate::sprite::Sprite {
                                texture_id: 1,
                                pos_x: i as i32,
                                pos_y: jj as i32,
                                layer: crate::sprite::Layer::MOVABLES,
                            },
                    ));
                }
                j = j + 1;
            }
            proof {
                assert(rows[i as int] == self.room@[i as int]@);
                assert(result@ =~= spec_place_sprites(rows, i + 1));
            }
            i = i + 1;
        }
        result
    }
}

} // verus!

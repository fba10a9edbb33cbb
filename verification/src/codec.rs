//! The wire protocol of the bus topics: little-endian fixed-width
//! integers, length-prefixed lists, one byte per boolean. Every encoder
//! states its exact byte layout, and the decoders return exactly the
//! values whose encoding the bytes are.

use vstd::prelude::*;
use vstd::string::StringExecFns;
use crate::a_star::bool_grid_view;
use crate::actions::Actions;
use crate::item::DamageTypeEnum;
use crate::messaging::MessageContent;
use crate::sprite::{Layer, Sprite};

verus! {

pub open spec fn spec_u16_le(x: u16) -> Seq<u8> {
    seq![(x & 0xff) as u8, ((x >> 8) & 0xff) as u8]
}

pub open spec fn spec_u32_le(x: u32) -> Seq<u8> {
    seq![
        (x & 0xff) as u8,
        ((x >> 8) & 0xff) as u8,
        ((x >> 16) & 0xff) as u8,
        ((x >> 24) & 0xff) as u8,
    ]
}

pub open spec fn spec_u64_le(x: u64) -> Seq<u8> {
    seq![
        (x & 0xff) as u8,
        ((x >> 8) & 0xff) as u8,
        ((x >> 16) & 0xff) as u8,
        ((x >> 24) & 0xff) as u8,
        ((x >> 32) & 0xff) as u8,
        ((x >> 40) & 0xff) as u8,
        ((x >> 48) & 0xff) as u8,
        ((x >> 56) & 0xff) as u8,
    ]
}

pub open spec fn spec_i64_le(x: i64) -> Seq<u8> {
    spec_u64_le(x as u64)
}

pub open spec fn spec_i32_le(x: i32) -> Seq<u8> {
    spec_u32_le(x as u32)
}

/// A clicked cell on the wire: both coordinates, little endian.
pub open spec fn spec_pair_u16(x: u16, y: u16) -> Seq<u8> {
    spec_u16_le(x) + spec_u16_le(y)
}

fn push_u16_le(out: &mut Vec<u8>, x: u16)
    ensures
        final(out)@ == old(out)@ + spec_u16_le(x),
{
    out.push((x & 0xff) as u8);
    out.push(((x >> 8) & 0xff) as u8);
    proof {
        assert(final(out)@ =~= old(out)@ + spec_u16_le(x));
    }
}

fn push_u32_le(out: &mut Vec<u8>, x: u32)
    ensures
        final(out)@ == old(out)@ + spec_u32_le(x),
{
    out.push((x & 0xff) as u8);
    out.push(((x >> 8) & 0xff) as u8);
    out.push(((x >> 16) & 0xff) as u8);
    out.push(((x >> 24) & 0xff) as u8);
    proof {
        assert(final(out)@ =~= old(out)@ + spec_u32_le(x));
    }
}

fn push_u64_le(out: &mut Vec<u8>, x: u64)
    ensures
        final(out)@ == old(out)@ + spec_u64_le(x),
{
    out.push((x & 0xff) as u8);
    out.push(((x >> 8) & 0xff) as u8);
    out.push(((x >> 16) & 0xff) as u8);
    out.push(((x >> 24) & 0xff) as u8);
    out.push(((x >> 32) & 0xff) as u8);
    out.push(((x >> 40) & 0xff) as u8);
    out.push(((x >> 48) & 0xff) as u8);
    out.push(((x >> 56) & 0xff) as u8);
    proof {
        assert(final(out)@ =~= old(out)@ + spec_u64_le(x));
    }
}

/// Encode a clicked cell as the `info` topic carries it.
pub fn encode_pair_u16(x: u16, y: u16) -> (r: Vec<u8>)
    ensures
        r@ == spec_pair_u16(x, y),
{
    let mut out: Vec<u8> = Vec::new();
    push_u16_le(&mut out, x);
    push_u16_le(&mut out, y);
    proof {
        assert(out@ =~= spec_pair_u16(x, y));
    }
    out
}

/// Decode a clicked cell: exactly four bytes, which are then the encoding
/// of the returned pair.
pub fn decode_pair_u16(bytes: &Vec<u8>) -> (r: Option<(u16, u16)>)
    ensures
        bytes@.len() != 4 ==> r is None,
        bytes@.len() == 4 ==> (r matches Some(p) && bytes@ == spec_pair_u16(p.0, p.1)),
{
    if bytes.len() != 4 {
        return None;
    }
    let b0 = bytes[0];
    let b1 = bytes[1];
    let b2 = bytes[2];
    let b3 = bytes[3];
    let x: u16 = (b0 as u16) | ((b1 as u16) << 8u16);
    let y: u16 = (b2 as u16) | ((b3 as u16) << 8u16);
    proof {
        assert((x & 0xff) as u8 == b0 && ((x >> 8) & 0xff) as u8 == b1) by (bit_vector)
            requires
                x == ((b0 as u16) | ((b1 as u16) << 8u16)),
        ;
        assert((y & 0xff) as u8 == b2 && ((y >> 8) & 0xff) as u8 == b3) by (bit_vector)
            requires
                y == ((b2 as u16) | ((b3 as u16) << 8u16)),
        ;
        assert(bytes@ =~= spec_pair_u16(x, y));
    }
    Some((x, y))
}

/// Decode a length or index as the `select_response` topic carries it:
/// exactly eight bytes, which are then the encoding of the returned value.
pub fn decode_u64_le(bytes: &Vec<u8>) -> (r: Option<u64>)
    ensures
        bytes@.len() != 8 ==> r is None,
        bytes@.len() == 8 ==> (r matches Some(v) && bytes@ == spec_u64_le(v)),
{
    if bytes.len() != 8 {
        return None;
    }
    let b0 = bytes[0];
    let b1 = bytes[1];
    let b2 = bytes[2];
    let b3 = bytes[3];
    let b4 = bytes[4];
    let b5 = bytes[5];
    let b6 = bytes[6];
    let b7 = bytes[7];
    let v: u64 = (b0 as u64) | ((b1 as u64) << 8u64) | ((b2 as u64) << 16u64) | ((b3 as u64)
        << 24u64) | ((b4 as u64) << 32u64) | ((b5 as u64) << 40u64) | ((b6 as u64) << 48u64) | ((
    b7 as u64) << 56u64);
    proof {
        assert((v & 0xff) as u8 == b0 && ((v >> 8) & 0xff) as u8 == b1 && ((v >> 16) & 0xff) as u8
            == b2 && ((v >> 24) & 0xff) as u8 == b3 && ((v >> 32) & 0xff) as u8 == b4 && ((v >> 40)
            & 0xff) as u8 == b5 && ((v >> 48) & 0xff) as u8 == b6 && ((v >> 56) & 0xff) as u8 == b7)
            by (bit_vector)
            requires
                v == ((b0 as u64) | ((b1 as u64) << 8u64) | ((b2 as u64) << 16u64) | ((b3 as u64)
                    << 24u64) | ((b4 as u64) << 32u64) | ((b5 as u64) << 40u64) | ((b6 as u64)
                    << 48u64) | ((b7 as u64) << 56u64)),
        ;
        assert(bytes@ =~= spec_u64_le(v));
    }
    Some(v)
}

/// The wire tag of an action, as a unit-variant index.
pub open spec fn spec_action_index(a: Actions) -> u32 {
    match a {
        Actions::OPEN => 0u32,
        Actions::ATTACK => 1u32,
        Actions::WALK_TO => 2u32,
        Actions::WATCH => 3u32,
        Actions::USE => 4u32,
        Actions::EQUIP => 5u32,
    }
}

/// The wire tag of a damage type, as a unit-variant index.
pub open spec fn spec_damage_type_index(d: DamageTypeEnum) -> u32 {
    match d {
        DamageTypeEnum::PIERCING => 0u32,
        DamageTypeEnum::SLASHING => 1u32,
        DamageTypeEnum::BLUNT => 2u32,
        DamageTypeEnum::ELECTRIC => 3u32,
        DamageTypeEnum::FIRE => 4u32,
        DamageTypeEnum::ICE => 5u32,
        DamageTypeEnum::HEAL => 6u32,
    }
}

/// The wire tag of a sprite layer, as a unit-variant index.
pub open spec fn spec_layer_index(l: Layer) -> u32 {
    match l {
        Layer::BACKGROUND => 0u32,
        Layer::MOVABLES => 1u32,
        Layer::UI => 2u32,
        Layer::PARTICLE => 3u32,
    }
}

fn action_index(a: &Actions) -> (r: u32)
    ensures
        r == spec_action_index(*a),
{
    match a {
        Actions::OPEN => 0,
        Actions::ATTACK => 1,
        Actions::WALK_TO => 2,
        Actions::WATCH => 3,
        Actions::USE => 4,
        Actions::EQUIP => 5,
    }
}

fn damage_type_index(d: &DamageTypeEnum) -> (r: u32)
    ensures
        r == spec_damage_type_index(*d),
{
    match d {
        DamageTypeEnum::PIERCING => 0,
        DamageTypeEnum::SLASHING => 1,
        DamageTypeEnum::BLUNT => 2,
        DamageTypeEnum::ELECTRIC => 3,
        DamageTypeEnum::FIRE => 4,
        DamageTypeEnum::ICE => 5,
        DamageTypeEnum::HEAL => 6,
    }
}

fn layer_index(l: &Layer) -> (r: u32)
    ensures
        r == spec_layer_index(*l),
{
    match l {
        Layer::BACKGROUND => 0,
        Layer::MOVABLES => 1,
        Layer::UI => 2,
        Layer::PARTICLE => 3,
    }
}

/// One row of the reachability grid on the wire: its length, then one
/// byte per cell.
pub open spec fn spec_row_bytes(row: Seq<bool>) -> Seq<u8> {
    spec_u64_le(row.len() as u64) + Seq::new(
        row.len(),
        |i: int|
            if row[i] {
                1u8
            } else {
                0u8
            },
    )
}

/// The first `n` rows of the grid on the wire, row after row.
pub open spec fn spec_grid_rows_bytes(grid: Seq<Seq<bool>>, n: int) -> Seq<u8>
    decreases n,
{
    if n <= 0 {
        Seq::empty()
    } else {
        spec_grid_rows_bytes(grid, n - 1) + spec_row_bytes(grid[n - 1])
    }
}

/// The whole reachability grid on the wire: the row count, then the rows.
pub open spec fn spec_grid_bytes(grid: Seq<Seq<bool>>) -> Seq<u8> {
    spec_u64_le(grid.len() as u64) + spec_grid_rows_bytes(grid, grid.len() as int)
}

/// Encode a reachability grid as the `targetable` topic carries it.
pub fn encode_grid(grid: &Vec<Vec<bool>>) -> (r: Vec<u8>)
    ensures
        r@ == spec_grid_bytes(bool_grid_view(grid)),
{
    let ghost rows = bool_grid_view(grid);
    let mut out: Vec<u8> = Vec::new();
    push_u64_le(&mut out, grid.len() as u64);
    proof {
        assert(out@ =~= spec_u64_le(rows.len() as u64) + spec_grid_rows_bytes(rows, 0));
    }
    let mut i: usize = 0;
    while i < grid.len()
        invariant
            rows == bool_grid_view(grid),
            i <= grid@.len(),
            out@ == spec_u64_le(rows.len() as u64) + spec_grid_rows_bytes(rows, i as int),
        decreases grid@.len() - i,
    {
        let cols = grid[i].len();
        push_u64_le(&mut out, cols as u64);
        let mut j: usize = 0;
        while j < cols
            invariant
                rows == bool_grid_view(grid),
                i < grid@.len(),
                cols == grid@[i as int]@.len(),
                j <= cols,
                out@ == spec_u64_le(rows.len() as u64) + spec_grid_rows_bytes(rows, i as int)
                    + spec_u64_le(cols as u64) + Seq::new(
                    j as nat,
                    |jj: int|
                        if rows[i as int][jj] {
                            1u8
                        } else {
                            0u8
                        },
                ),
            decreases cols - j,
        {
            let cell: u8 = if grid[i][j] {
                1
            } else {
                0
            };
            proof {
                assert(rows[i as int] == grid@[i as int]@);
            }
            out.push(cell);
            proof {
                assert(out@ =~= spec_u64_le(rows.len() as u64) + spec_grid_rows_bytes(
                    rows,
                    i as int,
                ) + spec_u64_le(cols as u64) + Seq::new(
                    (j + 1) as nat,
                    |jj: int|
                        if rows[i as int][jj] {
                            1u8
                        } else {
                            0u8
                        },
                ));
            }
            j = j + 1;
        }
        proof {
            assert(rows[i as int] == grid@[i as int]@);
            assert(spec_row_bytes(rows[i as int]) =~= spec_u64_le(cols as u64) + Seq::new(
                cols as nat,
                |jj: int|
                    if rows[i as int][jj] {
                        1u8
                    } else {
                        0u8
                    },
            ));
            assert(out@ =~= spec_u64_le(rows.len() as u64) + spec_grid_rows_bytes(rows, i + 1));
        }
        i = i + 1;
    }
    out
}

/// One sprite on the wire: its texture, both coordinates and its layer
/// tag.
pub open spec fn spec_sprite_bytes(s: Sprite) -> Seq<u8> {
    seq![s.texture_id] + spec_i32_le(s.pos_x) + spec_i32_le(s.pos_y) + spec_u32_le(
        spec_layer_index(s.layer),
    )
}

/// The first `n` sprites on the wire, one after the other.
pub open spec fn spec_sprites_bytes(ss: Seq<Sprite>, n: int) -> Seq<u8>
    decreases n,
{
    if n <= 0 {
        Seq::empty()
    } else {
        spec_sprites_bytes(ss, n - 1) + spec_sprite_bytes(ss[n - 1])
    }
}

/// Encode a sprite list as the `sprite` topic carries it: the count, then
/// each sprite.
pub fn encode_sprites(sprites: &Vec<Sprite>) -> (r: Vec<u8>)
    ensures
        r@ == spec_u64_le(sprites@.len() as u64) + spec_sprites_bytes(
            sprites@,
            sprites@.len() as int,
        ),
{
    let mut out: Vec<u8> = Vec::new();
    push_u64_le(&mut out, sprites.len() as u64);
    let mut i: usize = 0;
    while i < sprites.len()
        invariant
            i <= sprites@.len(),
            out@ == spec_u64_le(sprites@.len() as u64) + spec_sprites_bytes(sprites@, i as int),
        decreases sprites@.len() - i,
    {
        let s = sprites[i];
        out.push(s.texture_id);
        push_u32_le(&mut out, s.pos_x as u32);
        push_u32_le(&mut out, s.pos_y as u32);
        let layer = layer_index(&s.layer);
        push_u32_le(&mut out, layer);
        proof {
            assert(out@ =~= spec_u64_le(sprites@.len() as u64) + spec_sprites_bytes(
                sprites@,
                i + 1,
            ));
        }
        i = i + 1;
    }
    out
}

/// The end-of-turn marker on the wire: the marker text with its length,
/// then the acting pawn's id.
pub open spec fn spec_end_turn_bytes(pawn_id: i64) -> Seq<u8> {
    spec_u64_le(10) + seq![
        101u8,
        110u8,
        100u8,
        95u8,
        97u8,
        116u8,
        116u8,
        97u8,
        99u8,
        107u8,
    ] + spec_i64_le(pawn_id)
}

/// The `current_player` message: whose turn begins.
pub fn current_player_message(pawn_id: i64) -> (r: MessageContent)
    ensures
        r.topic@ == "current_player"@,
        r.content@ == spec_i64_le(pawn_id),
{
    let mut content: Vec<u8> = Vec::new();
    push_u64_le(&mut content, pawn_id as u64);
    MessageContent { topic: String::from_str("current_player"), content }
}

/// The `gameplay_state` message: which action phase the UI should switch
/// to.
pub fn gameplay_state_message(action: &Actions) -> (r: MessageContent)
    ensures
        r.topic@ == "gameplay_state"@,
        r.content@ == spec_u32_le(spec_action_index(*action)),
{
    let mut content: Vec<u8> = Vec::new();
    let index = action_index(action);
    push_u32_le(&mut content, index);
    MessageContent { topic: String::from_str("gameplay_state"), content }
}

/// The `end_turn` message: the end-of-turn marker with the acting pawn's
/// id.
pub fn end_turn_message(pawn_id: i64) -> (r: MessageContent)
    ensures
        r.topic@ == "end_turn"@,
        r.content@ == spec_end_turn_bytes(pawn_id),
{
    let mut content: Vec<u8> = Vec::new();
    push_u64_le(&mut content, 10);
    content.push(101);
    content.push(110);
    content.push(100);
    content.push(95);
    content.push(97);
    content.push(116);
    content.push(116);
    content.push(97);
    content.push(99);
    content.push(107);
    push_u64_le(&mut content, pawn_id as u64);
    proof {
        assert(content@ =~= spec_end_turn_bytes(pawn_id));
    }
    MessageContent { topic: String::from_str("end_turn"), content }
}

/// The `targetable` message: the reachability grid the UI highlights.
pub fn targetable_message(grid: &Vec<Vec<bool>>) -> (r: MessageContent)
    ensures
        r.topic@ == "targetable"@,
        r.content@ == spec_grid_bytes(bool_grid_view(grid)),
{
    let content = encode_grid(grid);
    MessageContent { topic: String::from_str("targetable"), content }
}

/// The `show_damage` message: where damage landed and of which type.
pub fn show_damage_message(position: (u16, u16), damage_type: &DamageTypeEnum) -> (r:
    MessageContent)
    ensures
        r.topic@ == "show_damage"@,
        r.content@ == spec_pair_u16(position.0, position.1) + spec_u32_le(
            spec_damage_type_index(*damage_type),
        ),
{
    let mut content: Vec<u8> = Vec::new();
    push_u16_le(&mut content, position.0);
    push_u16_le(&mut content, position.1);
    let index = damage_type_index(damage_type);
    push_u32_le(&mut content, index);
    proof {
        assert(content@ =~= spec_pair_u16(position.0, position.1) + spec_u32_le(
            spec_damage_type_index(*damage_type),
        ));
    }
    MessageContent { topic: String::from_str("show_damage"), content }
}

/// The `sprite` message: the render snapshot of the place.
pub fn sprite_message(sprites: &Vec<Sprite>) -> (r: MessageContent)
    ensures
        r.topic@ == "sprite"@,
        r.content@ == spec_u64_le(sprites@.len() as u64) + spec_sprites_bytes(
            sprites@,
            sprites@.len() as int,
        ),
{
    let content = encode_sprites(sprites);
    MessageContent { topic: String::from_str("sprite"), content }
}

/// The `info` message: a clicked cell, as the UI reports it.
pub fn info_message(position: (u16, u16)) -> (r: MessageContent)
    ensures
        r.topic@ == "info"@,
        r.content@ == spec_pair_u16(position.0, position.1),
{
    let content = encode_pair_u16(position.0, position.1);
    MessageContent { topic: String::from_str("info"), content }
}

} // verus!

//! The wire protocol: byte-for-byte agreement with the reference
//! serializer a presentation layer would decode with, and decoder
//! round trips.

use tactics::actions::Actions;
use tactics::codec::{
    current_player_message, decode_pair_u16, decode_u64_le, encode_pair_u16, end_turn_message,
    gameplay_state_message, info_message, show_damage_message, sprite_message, targetable_message,
};
use tactics::item::DamageTypeEnum;
use tactics::sprite::{Layer, Sprite};

#[test]
fn clicked_cell_matches_the_reference_serializer() {
    let ours = encode_pair_u16(3, 4);
    let reference = bincode::serialize(&(3u16, 4u16)).unwrap();
    assert_eq!(ours, reference);
}

#[test]
fn clicked_cell_round_trips() {
    let bytes = encode_pair_u16(65535, 0);
    assert_eq!(decode_pair_u16(&bytes), Some((65535, 0)));
    assert_eq!(decode_pair_u16(&vec![1, 2, 3]), None);
    assert_eq!(decode_pair_u16(&vec![7, 0, 9, 0]), Some((7, 9)));
}

#[test]
fn selected_option_round_trips_and_matches() {
    let reference = bincode::serialize(&42usize).unwrap();
    assert_eq!(decode_u64_le(&reference), Some(42));
    assert_eq!(decode_u64_le(&vec![0; 7]), None);
}

#[test]
fn gameplay_state_matches_the_reference_serializer() {
    // A unit enum variant goes on the wire as its u32 index.
    let m = gameplay_state_message(&Actions::ATTACK);
    assert_eq!(m.topic, "gameplay_state");
    assert_eq!(m.content, bincode::serialize(&1u32).unwrap());

    let m = gameplay_state_message(&Actions::WALK_TO);
    assert_eq!(m.content, bincode::serialize(&2u32).unwrap());
}

#[test]
fn end_turn_matches_the_reference_serializer() {
    let m = end_turn_message(7);
    assert_eq!(m.topic, "end_turn");
    assert_eq!(m.content, bincode::serialize(&("end_attack", 7i64)).unwrap());
}

#[test]
fn targetable_grid_matches_the_reference_serializer() {
    let grid = vec![vec![true, false], vec![false, true, true]];
    let m = targetable_message(&grid);
    assert_eq!(m.topic, "targetable");
    assert_eq!(m.content, bincode::serialize(&grid).unwrap());
}

#[test]
fn show_damage_matches_the_reference_serializer() {
    let m = show_damage_message((3, 4), &DamageTypeEnum::FIRE);
    assert_eq!(m.topic, "show_damage");
    // FIRE is the fifth variant: index 4.
    assert_eq!(m.content, bincode::serialize(&((3u16, 4u16), 4u32)).unwrap());
}

#[test]
fn current_player_matches_the_reference_serializer() {
    let m = current_player_message(-9);
    assert_eq!(m.topic, "current_player");
    assert_eq!(m.content, bincode::serialize(&(-9i64)).unwrap());
}

#[test]
fn sprites_match_the_reference_serializer() {
    let sprites = vec![
        Sprite::new(200, 4, 3, Layer::MOVABLES),
        Sprite::new(11, 2, 0, Layer::BACKGROUND),
    ];
    let m = sprite_message(&sprites);
    assert_eq!(m.topic, "sprite");
    // A sprite goes on the wire as its fields in order, the layer as its
    // u32 variant index.
    let reference =
        bincode::serialize(&vec![(200u8, 4i32, 3i32, 1u32), (11u8, 2i32, 0i32, 0u32)]).unwrap();
    assert_eq!(m.content, reference);
}

#[test]
fn info_click_message_carries_its_coordinates() {
    let m = info_message((5, 2));
    assert_eq!(m.topic, "info");
    assert_eq!(decode_pair_u16(&m.content), Some((5, 2)));
}

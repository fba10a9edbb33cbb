//! World setup, sprites, the round snapshot, and the watch texts.

use tactics::game_loop::GameLoop;
use tactics::initializer::Initializer;
use tactics::item::{PartToEquiEnum, Pocketable};
use tactics::pawn::{Characteristics, EquipablePart, Pawn, Position};
use tactics::sprite::{Layer, ObjectToSprite, Sprite};
use tactics::watch::{decimal, pick_distinct, reveal_characteristics, stats_text, Watch};
use tactics::dice::Dice;

fn player() -> Pawn {
    Pawn {
        id: 99,
        name: "Toto".to_string(),
        life: 100,
        mana: 100,
        characteristics: Characteristics {
            force: 3,
            dexterity: 3,
            constitution: 0,
            intelligence: 3,
            willpower: 0,
            charisma: 0,
        },
        inventory: Vec::new(),
        equipped: EquipablePart::default(),
        spell: Vec::new(),
        race: "human".to_string(),
        playable: true,
        ai: None,
        position: Position { x: 4, y: 3 },
    }
}

#[test]
fn weather_table_holds_the_four_weathers() {
    let weathers = Initializer::init_weather();
    assert_eq!(weathers.len(), 4);
    assert_eq!(weathers[0].name, "Sun");
    assert_eq!(weathers[0].temperature, 20);
    assert_eq!(weathers[1].name, "Windy");
    assert_eq!(weathers[1].wind, 100);
    assert_eq!(weathers[2].name, "Rain");
    assert_eq!(weathers[2].humidity, 90);
    assert_eq!(weathers[3].name, "Fog");
    assert_eq!(weathers[3].visibility, 32);
}

#[test]
fn starting_items_and_spells_carry_their_stats() {
    let items = Initializer::generate_items();
    assert_eq!(items.len(), 2);
    assert_eq!(items[0].name, "Basic iron sword");
    assert_eq!(items[0].requirements.force, 2);
    assert_eq!(items[0].requirements.dexterity, 1);
    assert_eq!(items[0].part_to_equip, PartToEquiEnum::RIGHT_HAND);
    assert_eq!(items[1].name, "Basic wood club");
    assert_eq!(items[1].requirements.force, 1);

    let spells = Initializer::generate_spells();
    assert_eq!(spells.len(), 1);
    assert_eq!(spells[0].name, "Fireball");
    assert_eq!(spells[0].mana, 20);
    assert_eq!(spells[0].requirements.intelligence, 2);
}

#[test]
fn the_world_starts_with_two_joined_places() {
    let weathers = Initializer::init_weather();
    let mut items = Initializer::generate_items();
    // The player pockets the sword first; the goblin is generated around
    // whatever leads the remaining list, the club.
    let mut hero = player();
    hero.inventory.push(items.remove(0));
    let world = Initializer::init(&weathers, hero, &mut items);

    assert_eq!(world.name, "totoland");
    assert_eq!(world.day, 0);
    assert_eq!(world.places.len(), 2);

    let first = &world.places[0];
    assert_eq!(first.id, 10);
    assert_eq!(first.name, "La comté");
    assert_eq!(first.adjacent_places, vec![11]);
    assert_eq!(first.room.len(), 5);
    assert_eq!(first.room[0], vec![0, 0, 11, 0, 0, 0]);
    assert_eq!(first.room[4], vec![0, 0, 0, 0, 0, 0]);
    assert_eq!(first.pawns.len(), 2);
    assert_eq!(first.pawns[0].name, "bad");
    assert!(!first.pawns[0].playable);
    assert_eq!(first.pawns[0].inventory[0].name, "Basic wood club");
    assert_eq!(
        first.pawns[0].equipped.right_hand.as_ref().unwrap().name,
        "Basic wood club"
    );
    assert_eq!(first.pawns[1].name, "Toto");
    assert_eq!(first.pawns[1].inventory[0].name, "Basic iron sword");

    let second = &world.places[1];
    assert_eq!(second.id, 11);
    assert_eq!(second.name, "Pays de Dun");
    assert_eq!(second.adjacent_places, vec![10]);
    assert_eq!(second.room[4], vec![0, 0, 10, 0, 0, 0]);
    assert!(second.pawns.is_empty());

    // The club left the item list for the goblin's pocket.
    assert!(items.is_empty());
}

#[test]
fn the_generated_goblin_can_use_its_club() {
    let weathers = Initializer::init_weather();
    let mut items = Initializer::generate_items();
    let mut hero = player();
    hero.inventory.push(items.remove(0));
    let world = Initializer::init(&weathers, hero, &mut items);

    // Force 5 against the club's requirement of 1 (margin 2): good use,
    // so the AI's attacks are never stopped by the usability gate.
    let goblin = &world.places[0].pawns[0];
    let club = Pocketable::Item(goblin.equipped.right_hand.clone().unwrap());
    assert_eq!(goblin.calculate_usability(&club), 255);
}

#[test]
fn days_pass_one_at_a_time() {
    let weathers = Initializer::init_weather();
    let mut items = Initializer::generate_items();
    let mut world = Initializer::init(&weathers, player(), &mut items);
    world.add_day();
    world.add_day();
    assert_eq!(world.day, 2);
}

#[test]
fn pawn_sprites_carry_the_race_texture() {
    let human = player();
    let sprites = human.get_world_origin();
    assert_eq!(sprites.len(), 1);
    assert_eq!(sprites[0], Sprite::new(200, 4, 3, Layer::MOVABLES));

    let mut goblin = player();
    goblin.race = "Goblin".to_string();
    let sprites = goblin.get_world_origin();
    assert_eq!(sprites[0].texture_id, 201);
}

#[test]
fn the_round_snapshot_draws_pawns_then_tiles() {
    let mut room: Vec<Vec<u8>> = vec![vec![0, 11], vec![20, 0]];
    room[0][0] = 10;
    let pawns = vec![player()];
    let sprites = GameLoop::round_sprites(&pawns, &room);
    assert_eq!(sprites.len(), 1 + 4);
    assert_eq!(sprites[0], Sprite::new(200, 4, 3, Layer::MOVABLES));
    assert_eq!(sprites[1], Sprite::new(10, 0, 0, Layer::BACKGROUND));
    assert_eq!(sprites[2], Sprite::new(11, 1, 0, Layer::BACKGROUND));
    assert_eq!(sprites[3], Sprite::new(20, 0, 1, Layer::BACKGROUND));
    assert_eq!(sprites[4], Sprite::new(0, 1, 1, Layer::BACKGROUND));
}

#[test]
fn the_roster_names_only_creatures() {
    let mut goblin = player();
    goblin.playable = false;
    goblin.name = "bad".to_string();
    let pawns = vec![player(), goblin];
    assert_eq!(GameLoop::creature_names(&pawns), vec!["bad"]);
}

#[test]
fn dice_stay_on_their_faces() {
    for _ in 0..100 {
        assert!((1..=20).contains(&Dice::roll_1d20()));
        assert!((1..=10).contains(&Dice::roll_1d10()));
        assert!((1..=100).contains(&Dice::roll_1d100()));
        assert!((1..=6).contains(&Dice::roll_1d6()));
        assert!((1..=4).contains(&Dice::roll_1d4()));
    }
}

#[test]
fn decimal_spells_bytes_out() {
    assert_eq!(decimal(0), "0");
    assert_eq!(decimal(7), "7");
    assert_eq!(decimal(42), "42");
    assert_eq!(decimal(100), "100");
    assert_eq!(decimal(255), "255");
}

#[test]
fn stat_card_spells_every_characteristic() {
    let c = Characteristics {
        force: 5,
        dexterity: 12,
        constitution: 0,
        intelligence: 3,
        willpower: 250,
        charisma: 9,
    };
    assert_eq!(
        stats_text(&c),
        "Stats : \n\tFOR: 5\n\tDEX: 12\n\tCON: 0\n\tINT: 3\n\tWIL: 250\n\tCHA: 9"
    );
}

#[test]
fn picks_are_distinct_and_within_the_domain() {
    for _ in 0..50 {
        let picks = pick_distinct(4, 6);
        assert_eq!(picks.len(), 4);
        for &p in &picks {
            assert!(p < 6);
        }
        let mut sorted = picks.clone();
        sorted.sort();
        sorted.dedup();
        assert_eq!(sorted.len(), 4);
    }
    // The domain caps the pick count.
    assert_eq!(pick_distinct(9, 4).len(), 4);
    assert_eq!(pick_distinct(0, 6).len(), 0);
}

#[test]
fn reveal_copies_only_the_picked_fields() {
    let source = Characteristics {
        force: 1,
        dexterity: 2,
        constitution: 3,
        intelligence: 4,
        willpower: 5,
        charisma: 6,
    };
    // Codes: 0 force, 1 intelligence, 2 willpower, 3 constitution,
    // 4 charisma, 5 dexterity.
    let revealed = reveal_characteristics(&source, &vec![0, 2, 4]);
    assert_eq!(revealed.force, 1);
    assert_eq!(revealed.willpower, 5);
    assert_eq!(revealed.charisma, 6);
    assert_eq!(revealed.intelligence, 0);
    assert_eq!(revealed.constitution, 0);
    assert_eq!(revealed.dexterity, 0);
}

#[test]
fn a_sharp_watcher_reads_the_full_sheet() {
    // Intelligence 30 makes the perception scale reach its top whatever
    // the roll, so every field is revealed.
    let watcher = Characteristics {
        force: 0,
        dexterity: 0,
        constitution: 0,
        intelligence: 30,
        willpower: 0,
        charisma: 0,
    };
    let target = Characteristics {
        force: 5,
        dexterity: 1,
        constitution: 1,
        intelligence: 0,
        willpower: 0,
        charisma: 0,
    };
    let card = target.to_string(&watcher, 1);
    assert_eq!(card, "Stats : \n\tFOR: 5\n\tDEX: 1\n\tCON: 1\n\tINT: 0\n\tWIL: 0\n\tCHA: 0");
}

#[test]
fn a_sharp_watcher_reads_the_full_watch_card() {
    let mut watcher = player();
    watcher.characteristics.intelligence = 30;
    let mut target = player();
    target.race = "Goblin".to_string();
    target.name = "bad".to_string();
    target.life = 100;
    target.mana = 0;
    target.characteristics = Characteristics {
        force: 5,
        dexterity: 1,
        constitution: 1,
        intelligence: 0,
        willpower: 0,
        charisma: 0,
    };

    let card = watcher.try_watch(&target);
    assert_eq!(
        card,
        "race: Goblin\nequipped: \nStats : \n\tFOR: 5\n\tDEX: 1\n\tCON: 1\n\tINT: 0\n\tWIL: 0\n\tCHA: 0\nLife: 100\nMana: 0"
    );
}

#[test]
fn equipment_slots_list_in_fixed_order() {
    let e = EquipablePart::default();
    let props = e.get_all_props();
    assert_eq!(props.len(), 6);
    assert_eq!(props[0].0, PartToEquiEnum::BODY);
    assert_eq!(props[1].0, PartToEquiEnum::RIGHT_HAND);
    assert_eq!(props[2].0, PartToEquiEnum::LEFT_HAND);
    assert_eq!(props[3].0, PartToEquiEnum::HEAD);
    assert_eq!(props[4].0, PartToEquiEnum::LEGS);
    assert_eq!(props[5].0, PartToEquiEnum::FEET);
    assert!(props.iter().all(|(_, slot)| slot.is_none()));
}

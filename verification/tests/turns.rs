//! Turn handling: ordering, dispatch, walking, equipping, watching and
//! the full attack action.

use tactics::actions::{
    ActionInput, Actions, AttackOutcome, CombatEvent, EquipOutcome, TurnOutcome, WalkOutcome,
};
use tactics::ai::{let_ai_or_human_play, AI};
use tactics::game_loop::GameLoop;
use tactics::interactions::Attack;
use tactics::item::{
    DamageDice, DamageTypeEnum, Item, ItemAttackTypeEnum, PartToEquiEnum, Pocketable, Spell,
};
use tactics::pawn::{Characteristics, EquipablePart, Pawn, Position};

fn chars(force: u8, dexterity: u8) -> Characteristics {
    Characteristics {
        force,
        dexterity,
        constitution: 0,
        intelligence: 0,
        willpower: 0,
        charisma: 0,
    }
}

fn sword() -> Item {
    Item {
        name: "sword".to_string(),
        damages: DamageDice { rolls: 1, faces: 4 },
        requirements: chars(2, 1),
        resistances: None,
        power_up: None,
        damages_type: Some(DamageTypeEnum::SLASHING),
        part_to_equip: PartToEquiEnum::RIGHT_HAND,
        armor_point: 0,
        attack_type: Some(ItemAttackTypeEnum::CONTACT),
        range: Some(2),
    }
}

fn pawn(id: i64, name: &str, playable: bool, x: u16, y: u16) -> Pawn {
    Pawn {
        id,
        name: name.to_string(),
        life: 10,
        mana: 0,
        characteristics: chars(5, 5),
        inventory: Vec::new(),
        equipped: EquipablePart::default(),
        spell: Vec::new(),
        race: "human".to_string(),
        playable,
        ai: None,
        position: Position { x, y },
    }
}

fn room() -> Vec<Vec<u8>> {
    let mut room: Vec<Vec<u8>> = (0..5).map(|_| vec![0u8; 6]).collect();
    room[0][2] = 11; // door to the adjacent place
    room[3][3] = 20; // impassable
    room
}

#[test]
fn pawns_act_in_ascending_dexterity_order() {
    let mut quick = pawn(1, "quick", true, 0, 0);
    quick.characteristics.dexterity = 9;
    let mut slow = pawn(2, "slow", false, 1, 0);
    slow.characteristics.dexterity = 1;
    let mut middle = pawn(3, "middle", false, 2, 0);
    middle.characteristics.dexterity = 5;

    let pawns = vec![quick, slow, middle];
    let order = GameLoop::order_pawns(&pawns);
    assert_eq!(order, vec![1, 2, 0]);
}

#[test]
fn order_is_a_permutation_even_with_equal_keys() {
    let pawns = vec![
        pawn(1, "a", true, 0, 0),
        pawn(2, "b", true, 1, 0),
        pawn(3, "c", true, 2, 0),
    ];
    let mut order = GameLoop::order_pawns(&pawns);
    order.sort();
    assert_eq!(order, vec![0, 1, 2]);
}

#[test]
fn walking_moves_unless_the_tile_is_a_door() {
    let room = room();
    let places = vec![11u8];

    let mut walker = pawn(1, "walker", true, 2, 2);
    let outcome = Actions::walk_action(&room, &mut walker, &places, (4, 2));
    assert_eq!(outcome, WalkOutcome::Moved);
    assert_eq!(walker.position, Position { x: 4, y: 2 });

    // A door tile spends the turn without moving.
    let outcome = Actions::walk_action(&room, &mut walker, &places, (2, 0));
    assert_eq!(outcome, WalkOutcome::Door);
    assert_eq!(walker.position, Position { x: 4, y: 2 });
}

#[test]
fn the_walk_grid_never_offers_the_impassable_tile() {
    // Walking requires a reachable destination, and the walking-radius
    // grid already masks the blocked code out, so the impassable cell
    // can never be chosen.
    let room = room();
    let walker = pawn(1, "walker", true, 2, 2);
    let radius = Actions::walk_stats(&walker);
    let grid = Actions::calculate_range(&walker, &room, radius);
    assert!(!grid[3][3]);
    assert!(grid[2][4] && grid[0][2]);
}

#[test]
fn walk_radius_is_dexterity_plus_force_over_three() {
    let mut mover = pawn(1, "m", true, 0, 0);
    mover.characteristics.force = 5;
    mover.characteristics.dexterity = 4;
    assert_eq!(Actions::walk_stats(&mover), 3);
}

#[test]
fn equipping_dresses_the_named_slot_and_unequipping_clears_it() {
    let mut hero = pawn(1, "hero", true, 0, 0);
    hero.inventory.push(sword());

    // Picking entry 0 equips the sword on its slot.
    let outcome = Actions::equip_item(&mut hero, Some(0), None);
    assert_eq!(outcome, EquipOutcome::Equipped);
    assert_eq!(hero.equipped.right_hand.as_ref().unwrap().name, "sword");

    // The entry just past the inventory unequips; pick 3 names the
    // right hand.
    let outcome = Actions::equip_item(&mut hero, Some(1), Some(3));
    assert_eq!(outcome, EquipOutcome::UnEquipped(PartToEquiEnum::RIGHT_HAND));
    assert!(hero.equipped.right_hand.is_none());

    // No picks at all fall back to clearing the body slot.
    let outcome = Actions::equip_item(&mut hero, None, None);
    assert_eq!(outcome, EquipOutcome::UnEquipped(PartToEquiEnum::BODY));
}

#[test]
fn unequip_menu_indices_name_their_parts() {
    assert_eq!(Actions::part_from_index(Some(0)), PartToEquiEnum::HEAD);
    assert_eq!(Actions::part_from_index(Some(1)), PartToEquiEnum::FEET);
    assert_eq!(Actions::part_from_index(Some(2)), PartToEquiEnum::LEGS);
    assert_eq!(Actions::part_from_index(Some(3)), PartToEquiEnum::RIGHT_HAND);
    assert_eq!(Actions::part_from_index(Some(4)), PartToEquiEnum::LEFT_HAND);
    assert_eq!(Actions::part_from_index(Some(5)), PartToEquiEnum::BODY);
    assert_eq!(Actions::part_from_index(Some(9)), PartToEquiEnum::BODY);
    assert_eq!(Actions::part_from_index(None), PartToEquiEnum::BODY);
}

#[test]
fn action_menu_labels_and_indices_agree() {
    let labels = Actions::vec_string();
    assert_eq!(labels, vec!["Open", "Attack", "Walk to", "Watch", "Use", "Equip"]);
    assert_eq!(Actions::from(0usize), Actions::OPEN);
    assert_eq!(Actions::from(1usize), Actions::ATTACK);
    assert_eq!(Actions::from(2usize), Actions::WALK_TO);
    assert_eq!(Actions::from(3usize), Actions::WATCH);
    assert_eq!(Actions::from(4usize), Actions::USE);
    assert_eq!(Actions::from(5usize), Actions::EQUIP);
    assert_eq!(Actions::from(99usize), Actions::OPEN);
}

#[test]
fn human_and_ai_branches_are_told_apart() {
    let human = pawn(1, "h", true, 0, 0);
    let machine = pawn(2, "m", false, 0, 0);
    assert_eq!(let_ai_or_human_play(&human, || 1usize, || 2usize), 1);
    assert_eq!(let_ai_or_human_play(&machine, || 1usize, || 2usize), 2);
}

#[test]
fn weapon_and_spell_selection_follow_the_menu() {
    let mut hero = pawn(1, "hero", true, 0, 0);
    hero.equipped.right_hand = Some(sword());
    hero.spell.push(Spell {
        name: "fireball".to_string(),
        damages: DamageDice { rolls: 2, faces: 4 },
        mana: 20,
        passive: false,
        requirements: chars(0, 0),
        effect_time_turns: 0,
        resistances: None,
        power_up: None,
        damages_type: Some(DamageTypeEnum::FIRE),
        attack_type: Some(ItemAttackTypeEnum::MAGIC),
        range: Some(3),
    });

    match Attack::select_item_to_attack_with(&hero, Some(0), None) {
        Some(Pocketable::Item(i)) => assert_eq!(i.name, "sword"),
        other => panic!("expected the weapon, got {:?}", other),
    }
    match Attack::select_item_to_attack_with(&hero, Some(1), Some(0)) {
        Some(Pocketable::Spell(s)) => assert_eq!(s.name, "fireball"),
        other => panic!("expected the spell, got {:?}", other),
    }
    assert!(Attack::select_item_to_attack_with(&hero, Some(1), Some(7)).is_none());
    assert!(Attack::select_item_to_attack_with(&hero, Some(9), None).is_none());
    assert!(Attack::select_item_to_attack_with(&hero, None, None).is_none());
}

#[test]
fn attack_without_a_weapon_has_no_way_to_damage() {
    let mut pawns = vec![pawn(1, "a", true, 0, 0), pawn(2, "b", false, 1, 0)];
    let room = room();
    let outcome = Actions::attack_action(&mut pawns, 0, &room, Some(0), None, Some(0));
    assert_eq!(outcome, AttackOutcome::NoWayToDamage);
    assert_eq!(pawns[1].life, 10);
}

#[test]
fn attack_with_nobody_in_range_finds_nothing() {
    let mut attacker = pawn(1, "a", true, 0, 0);
    attacker.equipped.right_hand = Some(sword());
    // The only other pawn stands far outside the sword's range of 2.
    let mut pawns = vec![attacker, pawn(2, "b", false, 5, 4)];
    pawns[0].life = 0; // the attacker itself is down, so not even itself is a target
    let room = room();
    let outcome = Actions::attack_action(&mut pawns, 0, &room, Some(0), None, Some(0));
    assert_eq!(outcome, AttackOutcome::NothingToAttack);
}

#[test]
fn attack_without_the_required_stats_cannot_be_used() {
    let mut attacker = pawn(1, "a", true, 0, 0);
    attacker.characteristics = chars(2, 1); // exactly the requirement: not enough
    attacker.equipped.right_hand = Some(sword());
    let mut pawns = vec![attacker, pawn(2, "b", false, 1, 0)];
    let room = room();
    let outcome = Actions::attack_action(&mut pawns, 0, &room, Some(0), None, Some(0));
    assert_eq!(outcome, AttackOutcome::CannotUse);
    assert_eq!(pawns[1].life, 10);
}

#[test]
fn resolved_attack_touches_only_the_picked_target() {
    let mut attacker = pawn(1, "a", true, 0, 0);
    attacker.equipped.right_hand = Some(sword());
    let mut pawns = vec![attacker, pawn(2, "b", false, 1, 0), pawn(3, "c", false, 5, 4)];
    let room = room();
    // The attackable list holds the attacker (index 0) and the adjacent
    // pawn (index 1); pick entry 1 of that list.
    let outcome = Actions::attack_action(&mut pawns, 0, &room, Some(0), None, Some(1));
    match outcome {
        AttackOutcome::Resolved { target, event } => {
            assert_eq!(target, 1);
            match event {
                CombatEvent::Fumble => assert_eq!(pawns[1].life, 10),
                CombatEvent::Critical { damage } => {
                    assert!((1..=4).contains(&damage));
                    assert_eq!(pawns[1].life, 10 - damage);
                }
                CombatEvent::NormalHit { roll, damage } => {
                    assert!((2..=19).contains(&roll));
                    assert!((1..=4).contains(&damage));
                    assert_eq!(pawns[1].life, 10 - damage);
                }
                CombatEvent::NormalMiss { roll } => {
                    assert!((2..=19).contains(&roll));
                    assert_eq!(pawns[1].life, 10);
                }
            }
            assert_eq!(pawns[2].life, 10);
        }
        other => panic!("expected a resolved attack, got {:?}", other),
    }
}

#[test]
fn ai_attack_picks_a_human_controlled_prey() {
    let mut attacker = pawn(1, "goblin", false, 0, 0);
    attacker.equipped.right_hand = Some(sword());
    let mut pawns = vec![attacker, pawn(2, "human", true, 1, 0)];
    let room = room();
    let outcome = Actions::attack_action(&mut pawns, 0, &room, Some(0), None, None);
    match outcome {
        AttackOutcome::Resolved { target, .. } => assert_eq!(target, 1),
        other => panic!("expected a resolved attack, got {:?}", other),
    }
}

#[test]
fn dispatch_leaves_stubs_untouched_and_routes_the_rest() {
    let room = room();
    let places = vec![11u8];
    let mut pawns = vec![pawn(1, "a", true, 2, 2)];

    let outcome = Actions::handle_actions(
        &mut pawns,
        0,
        0,
        &ActionInput::NoInput,
        &room,
        &places,
    );
    assert_eq!(outcome, TurnOutcome::Opened);

    let outcome = Actions::handle_actions(
        &mut pawns,
        0,
        4,
        &ActionInput::NoInput,
        &room,
        &places,
    );
    assert_eq!(outcome, TurnOutcome::Used);

    let outcome = Actions::handle_actions(
        &mut pawns,
        0,
        2,
        &ActionInput::Walk { destination: (1, 1) },
        &room,
        &places,
    );
    assert_eq!(outcome, TurnOutcome::Walked(WalkOutcome::Moved));
    assert_eq!(pawns[0].position, Position { x: 1, y: 1 });
}

#[test]
fn ai_watch_remembers_what_it_saw() {
    let mut watcher = pawn(1, "goblin", false, 0, 0);
    watcher.ai = Some(AI {
        intelligence: 0,
        seen_target: Vec::new(),
        selected_target: None,
        name: "goblin".to_string(),
    });
    let mut pawns = vec![watcher, pawn(7, "human", true, 1, 0)];
    let room = room();
    let places = vec![11u8];

    let outcome = Actions::handle_actions(
        &mut pawns,
        0,
        3,
        &ActionInput::NoInput,
        &room,
        &places,
    );
    assert_eq!(outcome, TurnOutcome::Watched(Some(7)));
    assert_eq!(pawns[0].ai.as_ref().unwrap().seen_target, vec![7]);
}

#[test]
fn ai_with_nothing_seen_watches_then_attacks() {
    let mut ai = AI {
        intelligence: 0,
        seen_target: Vec::new(),
        selected_target: None,
        name: "g".to_string(),
    };
    let pawns = vec![pawn(1, "g", false, 0, 0), pawn(7, "human", true, 1, 0)];
    assert_eq!(ai.get_action(1, &pawns), 3);

    ai.add_target_to_watched_target(7);
    assert_eq!(ai.get_action(1, &pawns), 1);
    assert_eq!(ai.selected_target, Some(7));
}

#[test]
fn ai_prefers_an_affordable_spell() {
    let ai = AI {
        intelligence: 0,
        seen_target: Vec::new(),
        selected_target: None,
        name: "g".to_string(),
    };
    let mut caster = pawn(1, "g", false, 0, 0);
    caster.mana = 30;
    caster.spell.push(Spell {
        name: "fireball".to_string(),
        damages: DamageDice { rolls: 2, faces: 4 },
        mana: 20,
        passive: false,
        requirements: chars(0, 0),
        effect_time_turns: 0,
        resistances: None,
        power_up: None,
        damages_type: Some(DamageTypeEnum::FIRE),
        attack_type: Some(ItemAttackTypeEnum::MAGIC),
        range: Some(3),
    });
    assert_eq!(ai.select_weapon_or_spell(&caster), 1);

    // A spell costing exactly the pawn's mana is still affordable, in
    // step with the usability gate.
    caster.mana = 20;
    assert_eq!(ai.select_weapon_or_spell(&caster), 1);

    // One mana short: fall back to the weapon.
    caster.mana = 19;
    assert_eq!(ai.select_weapon_or_spell(&caster), 0);
}

#[test]
fn watch_helpers_see_the_room() {
    let pawns = vec![pawn(1, "a", true, 2, 2), pawn(2, "b", false, 1, 0)];
    assert_eq!(Actions::find_pawn_at(&pawns, 1, 0), Some(1));
    assert_eq!(Actions::find_pawn_at(&pawns, 4, 4), None);

    assert_eq!(Actions::tile_description(10), "Simple floor");
    assert_eq!(Actions::tile_description(11), "Path to First room");
    assert_eq!(Actions::tile_description(12), "Path to Second room");
    assert_eq!(Actions::tile_description(0), "");

    // Watchable targets: alive, someone else; the playable restriction
    // matters only to an AI.
    assert_eq!(Actions::watch_targets(&pawns, 0, false), vec![1]);
    assert_eq!(Actions::watch_targets(&pawns, 0, true), vec![]);
    assert_eq!(Actions::watch_targets(&pawns, 1, true), vec![0]);
}

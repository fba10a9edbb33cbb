//! The combat math: usability tiers, the mana gate, armor class, the
//! critical/fumble/normal branches, and the life clamp.

use tactics::actions::{Actions, CombatEvent};
use tactics::dice::RollDiceResult;
use tactics::item::{
    DamageDice, DamageTypeEnum, Item, ItemAttackTypeEnum, PartToEquiEnum, Pocketable, Spell,
};
use tactics::pawn::{Characteristics, EquipablePart, Pawn, Position};

fn chars(
    force: u8,
    dexterity: u8,
    constitution: u8,
    intelligence: u8,
    willpower: u8,
    charisma: u8,
) -> Characteristics {
    Characteristics { force, dexterity, constitution, intelligence, willpower, charisma }
}

fn sword(requirements: Characteristics) -> Item {
    Item {
        name: "sword".to_string(),
        damages: DamageDice { rolls: 1, faces: 4 },
        requirements,
        resistances: None,
        power_up: None,
        damages_type: Some(DamageTypeEnum::SLASHING),
        part_to_equip: PartToEquiEnum::RIGHT_HAND,
        armor_point: 0,
        attack_type: Some(ItemAttackTypeEnum::CONTACT),
        range: Some(1),
    }
}

fn pawn(characteristics: Characteristics, life: u8, mana: u8) -> Pawn {
    Pawn {
        id: 1,
        name: "p".to_string(),
        life,
        mana,
        characteristics,
        inventory: Vec::new(),
        equipped: EquipablePart::default(),
        spell: Vec::new(),
        race: "human".to_string(),
        playable: true,
        ai: None,
        position: Position { x: 0, y: 0 },
    }
}

fn fireball(mana: u8, requirements: Characteristics) -> Spell {
    Spell {
        name: "fireball".to_string(),
        damages: DamageDice { rolls: 2, faces: 4 },
        mana,
        passive: false,
        requirements,
        effect_time_turns: 0,
        resistances: None,
        power_up: None,
        damages_type: Some(DamageTypeEnum::FIRE),
        attack_type: Some(ItemAttackTypeEnum::MAGIC),
        range: Some(3),
    }
}

#[test]
fn unmet_requirement_forces_zero_usability() {
    // Requirement at or above the wielder's total characteristic: 0.
    let item = Pocketable::Item(sword(chars(5, 0, 0, 0, 0, 0)));
    assert_eq!(item.calculate_usability(&chars(5, 9, 9, 9, 9, 9), None), 0);
    assert_eq!(item.calculate_usability(&chars(4, 9, 9, 9, 9, 9), None), 0);

    // Any single failing characteristic short-circuits the whole sweep.
    let picky = Pocketable::Item(sword(chars(1, 1, 1, 1, 1, 1)));
    assert_eq!(picky.calculate_usability(&chars(9, 9, 9, 9, 9, 1), None), 0);
}

#[test]
fn mana_below_cost_forces_zero_usability() {
    let spell = fireball(20, chars(0, 0, 0, 2, 0, 0));
    let caster = pawn(chars(0, 0, 0, 9, 0, 0), 10, 10);
    assert_eq!(caster.calculate_usability(&Pocketable::Spell(spell.clone())), 0);

    // With mana covered, the stats alone decide.
    let rich = pawn(chars(0, 0, 0, 9, 0, 0), 10, 100);
    assert_eq!(rich.calculate_usability(&Pocketable::Spell(spell)), 255);
}

#[test]
fn usability_tiers_follow_the_margin() {
    let item = Pocketable::Item(sword(chars(2, 0, 0, 0, 0, 0)));
    // Strictly above the requirement but within the margin of 2: average.
    assert_eq!(item.calculate_usability(&chars(3, 0, 0, 0, 0, 0), None), 127);
    assert_eq!(item.calculate_usability(&chars(4, 0, 0, 0, 0, 0), None), 127);
    // Beyond the margin: good.
    assert_eq!(item.calculate_usability(&chars(5, 0, 0, 0, 0, 0), None), 255);
}

#[test]
fn usability_keeps_the_last_swept_tier() {
    // Charisma is swept first and earns 255; constitution is swept last
    // and only earns 127, which wins.
    let item = Pocketable::Item(sword(chars(0, 0, 2, 0, 0, 1)));
    let have = chars(0, 0, 3, 0, 0, 9);
    assert_eq!(item.calculate_usability(&have, None), 127);
}

#[test]
fn scenario_strong_attacker_usability_and_hit() {
    // Attacker force 5 against a weapon requiring force 2 (margin 2):
    // 2 + 2 < 5, and dexterity 5 against requirement 1 keeps the tier.
    let weapon = Pocketable::Item(sword(chars(2, 1, 0, 0, 0, 0)));
    let attacker = pawn(chars(5, 5, 0, 0, 0, 0), 10, 0);
    assert_eq!(attacker.calculate_usability(&weapon), 255);

    // Roll 15 with force modifier 5 beats an armor class of 10.
    let mut defender = pawn(chars(0, 0, 0, 0, 0, 0), 10, 0);
    assert_eq!(defender.calculate_armor_points(), 10);
    let (hit, damage) = Actions::normal(&attacker, &weapon, &mut defender, 15);
    assert!(hit);
    assert!((1..=4).contains(&damage));
    assert_eq!(defender.life, 10 - damage);
}

#[test]
fn critical_always_hits() {
    // A one-faced die makes the damage deterministic.
    let mut weapon_item = sword(chars(0, 0, 0, 0, 0, 0));
    weapon_item.damages = DamageDice { rolls: 1, faces: 1 };
    let weapon = Pocketable::Item(weapon_item);
    let attacker = pawn(chars(0, 0, 0, 0, 0, 0), 10, 0);
    // Even a defender with a towering armor class takes the hit.
    let mut defender = pawn(chars(0, 0, 0, 0, 0, 0), 10, 0);
    let mut mail = sword(chars(0, 0, 0, 0, 0, 0));
    mail.armor_point = 200;
    mail.part_to_equip = PartToEquiEnum::BODY;
    defender.equip(mail);
    assert_eq!(defender.calculate_armor_points(), 210);

    let event = Actions::resolve_roll(&attacker, &weapon, &mut defender, RollDiceResult::Critical);
    assert_eq!(event, CombatEvent::Critical { damage: 1 });
    assert_eq!(defender.life, 9);
}

#[test]
fn fumble_never_deals_damage() {
    let weapon = Pocketable::Item(sword(chars(0, 0, 0, 0, 0, 0)));
    let attacker = pawn(chars(9, 9, 9, 9, 9, 9), 10, 0);
    let mut defender = pawn(chars(0, 0, 0, 0, 0, 0), 10, 0);
    let event = Actions::resolve_roll(&attacker, &weapon, &mut defender, RollDiceResult::Fumble);
    assert_eq!(event, CombatEvent::Fumble);
    assert_eq!(defender.life, 10);
}

#[test]
fn normal_roll_hits_exactly_when_it_beats_the_armor_class() {
    let mut weapon_item = sword(chars(0, 0, 0, 0, 0, 0));
    weapon_item.damages = DamageDice { rolls: 1, faces: 1 };
    let weapon = Pocketable::Item(weapon_item);
    // Contact attack: the force modifier is added to the roll.
    let attacker = pawn(chars(3, 0, 0, 0, 0, 0), 10, 0);
    let mut defender = pawn(chars(0, 0, 0, 0, 0, 0), 10, 0);

    // Armor class 10, roll 7 + force 3 = 10: not strictly greater, miss.
    let event = Actions::resolve_roll(
        &attacker,
        &weapon,
        &mut defender,
        RollDiceResult::Normal(7),
    );
    assert_eq!(event, CombatEvent::NormalMiss { roll: 7 });
    assert_eq!(defender.life, 10);

    // Roll 8 + force 3 = 11 > 10: hit, one point of damage.
    let event = Actions::resolve_roll(
        &attacker,
        &weapon,
        &mut defender,
        RollDiceResult::Normal(8),
    );
    assert_eq!(event, CombatEvent::NormalHit { roll: 8, damage: 1 });
    assert_eq!(defender.life, 9);
}

#[test]
fn life_clamps_at_zero_instead_of_wrapping() {
    // Defender at 10 life suffering 15 damage ends at 0, not 245.
    let mut defender = pawn(chars(0, 0, 0, 0, 0, 0), 10, 0);
    let dealt = defender.take_hit(15);
    assert_eq!(dealt, 15);
    assert_eq!(defender.life, 0);
}

#[test]
fn armor_class_prefers_pure_armor_over_dexterity() {
    // An equipped item with armor points: 10 + armor sum.
    let mut armored = pawn(chars(0, 0, 0, 0, 0, 0), 10, 0);
    let mut mail = sword(chars(0, 0, 0, 0, 0, 0));
    mail.armor_point = 7;
    mail.part_to_equip = PartToEquiEnum::BODY;
    armored.equip(mail);
    assert_eq!(armored.calculate_armor_points(), 17);

    // No armor anywhere: 10 plus the dexterity power-up total.
    let mut nimble = pawn(chars(0, 0, 0, 0, 0, 0), 10, 0);
    let mut gloves = sword(chars(0, 0, 0, 0, 0, 0));
    gloves.power_up = Some(chars(0, 4, 0, 0, 0, 0));
    gloves.part_to_equip = PartToEquiEnum::LEFT_HAND;
    nimble.equip(gloves);
    assert_eq!(nimble.calculate_armor_points(), 14);
}

#[test]
fn power_up_totals_sum_over_all_slots() {
    let mut hero = pawn(chars(1, 1, 1, 1, 1, 1), 10, 0);
    let mut helm = sword(chars(0, 0, 0, 0, 0, 0));
    helm.power_up = Some(chars(1, 0, 2, 0, 0, 0));
    helm.part_to_equip = PartToEquiEnum::HEAD;
    let mut boots = sword(chars(0, 0, 0, 0, 0, 0));
    boots.power_up = Some(chars(0, 3, 0, 0, 0, 1));
    boots.part_to_equip = PartToEquiEnum::FEET;
    hero.equip(helm);
    hero.equip(boots);
    let total = hero.calculate_power_up().unwrap();
    assert_eq!(total, chars(1, 3, 2, 0, 0, 1));
}

#[test]
fn item_damage_stays_within_its_dice_bounds() {
    let item = sword(chars(0, 0, 0, 0, 0, 0));
    for _ in 0..50 {
        let d = item.get_damages();
        assert!((1..=4).contains(&d));
    }
    let spell = fireball(0, chars(0, 0, 0, 0, 0, 0));
    for _ in 0..50 {
        let d = spell.get_damages();
        assert!((2..=8).contains(&d));
    }
}

#[test]
fn getters_report_their_fields() {
    let item = sword(chars(2, 1, 0, 0, 0, 0));
    assert_eq!(item.get_name(), "sword");
    assert_eq!(item.get_requirements(), &chars(2, 1, 0, 0, 0, 0));
    assert_eq!(item.get_characteristics(), chars(2, 1, 0, 0, 0, 0));
    assert_eq!(item.get_resistance(), None);
    assert_eq!(item.get_power_up(), &None);
    assert_eq!(item.get_damage_type(), Some(DamageTypeEnum::SLASHING));
    assert!(matches!(item.get_attack_type(), Some(ItemAttackTypeEnum::CONTACT)));
    assert_eq!(item.get_range(), Some(1));

    let spell = fireball(20, chars(0, 0, 0, 2, 0, 0));
    assert_eq!(spell.get_name(), "fireball");
    assert_eq!(spell.get_requirements(), &chars(0, 0, 0, 2, 0, 0));
    assert_eq!(spell.get_damage_type(), Some(DamageTypeEnum::FIRE));
    assert!(matches!(spell.get_attack_type(), Some(ItemAttackTypeEnum::MAGIC)));
    assert_eq!(spell.get_range(), Some(3));
}

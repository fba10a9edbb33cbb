//! World setup: the weather table, the starting items and spells, and the
//! two-place world the encounter runs in.

use vstd::prelude::*;
use vstd::string::StringExecFns;
use crate::ai::AI;
use crate::item::{
    DamageDice, DamageTypeEnum, Item, ItemAttackTypeEnum, PartToEquiEnum, Spell,
};
use crate::pawn::{Characteristics, EquipablePart, Pawn, Position};
use crate::world::{Place, Weather, World};

verus! {

pub struct Initializer;

/// Relies on idgenerator's `IdInstance::next_id`: a fresh snowflake id
/// from the process-wide generator, usable with its default options;
/// nothing is promised of the value.
#[verifier::external_body]
fn next_pawn_id() -> i64 {
    idgenerator::IdInstance::next_id()
}

/// A fixed-width room row, spelled out tile by tile.
fn row6(a: u8, b: u8, c: u8, d: u8, e: u8, f: u8) -> (r: Vec<u8>)
    ensures
        r@ == seq![a, b, c, d, e, f],
{
    let mut row: Vec<u8> = Vec::new();
    row.push(a);
    row.push(b);
    row.push(c);
    row.push(d);
    row.push(e);
    row.push(f);
    proof {
        assert(row@ =~= seq![a, b, c, d, e, f]);
    }
    row
}

/// The deterministic shape of a generated non-player pawn: a goblin named
/// "bad" wielding the handed item; only its id comes from the generator.
pub open spec fn spec_is_generated_npc(p: Pawn, item: Item) -> bool {
    &&& p.name@ == "bad"@
    &&& p.life == 100
    &&& p.mana == 0
    &&& p.characteristics == (Characteristics {
        force: 5,
        dexterity: 1,
        constitution: 1,
        intelligence: 0,
        willpower: 0,
        charisma: 0,
    })
    &&& p.inventory@ == seq![item]
    &&& p.equipped.right_hand == Some(item)
    &&& p.equipped.head is None
    &&& p.equipped.left_hand is None
    &&& p.equipped.body is None
    &&& p.equipped.legs is None
    &&& p.equipped.feet is None
    &&& p.spell@.len() == 0
    &&& p.race@ == "Goblin"@
    &&& !p.playable
    &&& p.ai matches Some(a) && a.intelligence == 0 && a.seen_target@.len() == 0
        && a.selected_target is None && a.name@ == "bad"@
    &&& p.position == (Position { x: 4, y: 4 })
}

impl Initializer {
    /// The four weathers of the world.
    pub fn init_weather() -> (r: Vec<Weather>)
        ensures
            r@.len() == 4,
            r@[0].name@ == "Sun"@ && r@[0].temperature == 20 && r@[0].humidity == 30
                && r@[0].visibility == 255 && r@[0].wind == 0,
            r@[1].name@ == "Windy"@ && r@[1].temperature == 15 && r@[1].humidity == 30
                && r@[1].visibility == 255 && r@[1].wind == 100,
            r@[2].name@ == "Rain"@ && r@[2].temperature == 10 && r@[2].humidity == 90
                && r@[2].visibility == 127 && r@[2].wind == 20,
            r@[3].name@ == "Fog"@ && r@[3].temperature == 10 && r@[3].humidity == 90
                && r@[3].visibility == 32 && r@[3].wind == 0,
    {
        let mut result: Vec<Weather> = Vec::new();
        result.push(
            Weather {
                name: String::from_str("Sun"),
                temperature: 20,
                humidity: 30,
                visibility: 255,
                wind: 0,
            },
        );
        result.push(
            Weather {
                name: String::from_str("Windy"),
                temperature: 15,
                humidity: 30,
                visibility: 255,
                wind: 100,
            },
        );
        result.push(
            Weather {
                name: String::from_str("Rain"),
                temperature: 10,
                humidity: 90,
                visibility: 127,
                wind: 20,
            },
        );
        result.push(
            Weather {
                name: String::from_str("Fog"),
                temperature: 10,
                humidity: 90,
                visibility: 32,
                wind: 0,
            },
        );
        result
    }

    /// The starting items: an iron sword and a wood club, both one roll of
    /// a four-faced die, wielded in the right hand at contact range.
    pub fn generate_items() -> (r: Vec<Item>)
        ensures
            r@.len() == 2,
            r@[0].name@ == "Basic iron sword"@,
            r@[0].damages == (DamageDice { rolls: 1, faces: 4 }),
            r@[0].requirements == (Characteristics {
                force: 2,
                dexterity: 1,
                constitution: 0,
                intelligence: 0,
                willpower: 0,
                charisma: 0,
            }),
            r@[0].resistances is None && r@[0].power_up is None,
            r@[0].damages_type == Some(DamageTypeEnum::SLASHING),
            r@[0].part_to_equip == PartToEquiEnum::RIGHT_HAND,
            r@[0].armor_point == 0,
            r@[0].attack_type == Some(ItemAttackTypeEnum::CONTACT),
            r@[0].range == Some(1u16),
            r@[1].name@ == "Basic wood club"@,
            r@[1].damages == (DamageDice { rolls: 1, faces: 4 }),
            r@[1].requirements == (Characteristics {
                force: 1,
                dexterity: 0,
                constitution: 0,
                intelligence: 0,
                willpower: 0,
                charisma: 0,
            }),
            r@[1].resistances is None && r@[1].power_up is None,
            r@[1].damages_type == Some(DamageTypeEnum::BLUNT),
            r@[1].part_to_equip == PartToEquiEnum::RIGHT_HAND,
            r@[1].armor_point == 0,
            r@[1].attack_type == Some(ItemAttackTypeEnum::CONTACT),
            r@[1].range == Some(1u16),
    {
        let mut result: Vec<Item> = Vec::new();
        result.push(
            Item {
                name: String::from_str("Basic iron sword"),
                damages: DamageDice { rolls: 1, faces: 4 },
                requirements: Characteristics {
                    force: 2,
                    dexterity: 1,
                    constitution: 0,
                    intelligence: 0,
                    willpower: 0,
                    charisma: 0,
                },
                resistances: None,
                power_up: None,
                damages_type: Some(DamageTypeEnum::SLASHING),
                part_to_equip: PartToEquiEnum::RIGHT_HAND,
                armor_point: 0,
                attack_type: Some(ItemAttackTypeEnum::CONTACT),
                range: Some(1),
            },
        );
        result.push(
            Item {
                name: String::from_str("Basic wood club"),
                damages: DamageDice { rolls: 1, faces: 4 },
                requirements: Characteristics {
                    force: 1,
                    dexterity: 0,
                    constitution: 0,
                    intelligence: 0,
                    willpower: 0,
                    charisma: 0,
                },
                resistances: None,
                power_up: None,
                damages_type: Some(DamageTypeEnum::BLUNT),
                part_to_equip: PartToEquiEnum::RIGHT_HAND,
                armor_point: 0,
                attack_type: Some(ItemAttackTypeEnum::CONTACT),
                range: Some(1),
            },
        );
        result
    }

    /// The starting spell: a fireball of two four-faced dice.
    pub fn generate_spells() -> (r: Vec<Spell>)
        ensures
            r@.len() == 1,
            r@[0].name@ == "Fireball"@,
            r@[0].damages == (DamageDice { rolls: 2, faces: 4 }),
            r@[0].mana == 20,
            !r@[0].passive,
            r@[0].requirements == (Characteristics {
                force: 0,
                dexterity: 0,
                constitution: 0,
                intelligence: 2,
                willpower: 0,
                charisma: 0,
            }),
            r@[0].effect_time_turns == 0,
            r@[0].resistances is None && r@[0].power_up is None,
            r@[0].damages_type == Some(DamageTypeEnum::FIRE),
            r@[0].attack_type == Some(ItemAttackTypeEnum::MAGIC),
            r@[0].range == Some(3u16),
    {
        let mut result: Vec<Spell> = Vec::new();
        result.push(
            Spell {
                name: String::from_str("Fireball"),
                damages: DamageDice { rolls: 2, faces: 4 },
                mana: 20,
                passive: false,
                requirements: Characteristics {
                    force: 0,
                    dexterity: 0,
                    constitution: 0,
                    intelligence: 2,
                    willpower: 0,
                    charisma: 0,
                },
                effect_time_turns: 0,
                resistances: None,
                power_up: None,
                damages_type: Some(DamageTypeEnum::FIRE),
                attack_type: Some(ItemAttackTypeEnum::MAGIC),
                range: Some(3),
            },
        );
        result
    }

    /// One non-player goblin armed with the first handed item, which
    /// leaves the item list.
    fn generate_non_player_pawns(items: &mut Vec<Item>) -> (r: Vec<Pawn>)
        requires
            old(items)@.len() >= 1,
        ensures
            final(items)@ == old(items)@.drop_first(),
            r@.len() == 1,
            spec_is_generated_npc(r@[0], old(items)@[0]),
    {
        let item = items.remove(0);
        let wielded = item.duplicate();

        let mut pawn = Pawn {
            id: next_pawn_id(),
            name: String::from_str("bad"),
            life: 100,
            mana: 0,
            characteristics: Characteristics {
                force: 5,
                dexterity: 1,
                constitution: 1,
                intelligence: 0,
                willpower: 0,
                charisma: 0,
            },
            inventory: Vec::new(),
            equipped: EquipablePart::default(),
            spell: Vec::new(),
            race: String::from_str("Goblin"),
            playable: false,
            ai: Some(
                AI {
                    intelligence: 0,
                    seen_target: Vec::new(),
                    selected_target: None,
                    name: String::from_str("bad"),
                },
            ),
            position: Position { x: 4, y: 4 },
        };
        pawn.inventory.push(item);
        pawn.equipped.right_hand = Some(wielded);

        let mut result: Vec<Pawn> = Vec::new();
        result.push(pawn);
        proof {
            assert(result@[0].inventory@ =~= seq![old(items)@[0]]);
            assert(final(items)@ =~= old(items)@.drop_first());
        }
        result
    }

    /// The starting world: two places joined by doors, the first holding
    /// the generated goblin and the handed player.
    pub fn init(weathers: &Vec<Weather>, player: Pawn, items: &mut Vec<Item>) -> (r: World)
        requires
            weathers@.len() >= 1,
            old(items)@.len() >= 1,
        ensures
            final(items)@ == old(items)@.drop_first(),
            r.name@ == "totoland"@,
            r.day == 0,
            r.places@.len() == 2,
            ({
                let first = r.places@[0];
                &&& first.id == 10
                &&& first.name@ == "La comté"@
                &&& first.weather == weathers@[0]
                &&& first.time@ == "Day"@
                &&& first.light == 255
                &&& first.adjacent_places@ == seq![11u8]
                &&& first.pawns@.len() == 2
                &&& spec_is_generated_npc(first.pawns@[0], old(items)@[0])
                &&& first.pawns@[1] == player
                &&& first.room@.len() == 5
                &&& first.room@[0]@ == seq![0u8, 0, 11, 0, 0, 0]
                &&& first.room@[1]@ == seq![0u8, 0, 0, 0, 0, 0]
                &&& first.room@[2]@ == seq![0u8, 0, 0, 0, 0, 0]
                &&& first.room@[3]@ == seq![0u8, 0, 0, 0, 0, 0]
                &&& first.room@[4]@ == seq![0u8, 0, 0, 0, 0, 0]
            }),
            ({
                let second = r.places@[1];
                &&& second.id == 11
                &&& second.name@ == "Pays de Dun"@
                &&& second.weather == weathers@[0]
                &&& second.time@ == "Day"@
                &&& second.light == 255
                &&& second.adjacent_places@ == seq![10u8]
                &&& second.pawns@.len() == 0
                &&& second.room@.len() == 5
                &&& second.room@[0]@ == seq![0u8, 0, 0, 0, 0, 0]
                &&& second.room@[1]@ == seq![0u8, 0, 0, 0, 0, 0]
                &&& second.room@[2]@ == seq![0u8, 0, 0, 0, 0, 0]
                &&& second.room@[3]@ == seq![0u8, 0, 0, 0, 0, 0]
                &&& second.room@[4]@ == seq![0u8, 0, 10, 0, 0, 0]
            }),
    {
        let mut pawns = Self::generate_non_player_pawns(items);
        pawns.push(player);

        let mut adjacent_first: Vec<u8> = Vec::new();
        adjacent_first.push(11);
        let mut room_first: Vec<Vec<u8>> = Vec::new();
        room_first.push(row6(0, 0, 11, 0, 0, 0));
        room_first.push(row6(0, 0, 0, 0, 0, 0));
        room_first.push(row6(0, 0, 0, 0, 0, 0));
        room_first.push(row6(0, 0, 0, 0, 0, 0));
        room_first.push(row6(0, 0, 0, 0, 0, 0));

        let mut adjacent_second: Vec<u8> = Vec::new();
        adjacent_second.push(10);
        let mut room_second: Vec<Vec<u8>> = Vec::new();
        room_second.push(row6(0, 0, 0, 0, 0, 0));
        room_second.push(row6(0, 0, 0, 0, 0, 0));
        room_second.push(row6(0, 0, 0, 0, 0, 0));
        room_second.push(row6(0, 0, 0, 0, 0, 0));
        room_second.push(row6(0, 0, 10, 0, 0, 0));

        let mut places: Vec<Place> = Vec::new();
        places.push(
            Place {
                id: 10,
                name: String::from_str("La comté"),
                weather: weathers[0].duplicate(),
                time: String::from_str("Day"),
                light: 255,
                adjacent_places: adjacent_first,
                pawns,
                room: room_first,
            },
        );
        places.push(
            Place {
                id: 11,
                name: String::from_str("Pays de Dun"),
                weather: weathers[0].duplicate(),
                time: String::from_str("Day"),
                light: 255,
                adjacent_places: adjacent_second,
                pawns: Vec::new(),
                room: room_second,
            },
        );

        proof {
            assert(places@[0].adjacent_places@ =~= seq![11u8]);
            assert(places@[1].adjacent_places@ =~= seq![10u8]);
        }

        World { name: String::from_str("totoland"), places, day: 0 }
    }
}

} // verus!

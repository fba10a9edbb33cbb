//! Pawns: the creatures of an encounter, with their six characteristics,
//! their position on the room grid, and their equipment.

use vstd::prelude::*;
use vstd::string::StringExecFns;
use crate::ai::AI;
use crate::item::{Item, PartToEquiEnum, Pocketable, Spell};

verus! {

/// Base armor class every creature starts from.
pub const CA: u8 = 10;

/// The six characteristics a creature has and an item may require.
#[derive(Debug, PartialEq, Eq, Structural, Copy, Clone)]
pub struct Characteristics {
    pub force: u8,
    pub dexterity: u8,
    pub constitution: u8,
    pub intelligence: u8,
    pub willpower: u8,
    pub charisma: u8,
}

impl Default for Characteristics {
    /// All six characteristics at zero.
    fn default() -> (r: Self)
        ensures
            r == (Characteristics {
                force: 0,
                dexterity: 0,
                constitution: 0,
                intelligence: 0,
                willpower: 0,
                charisma: 0,
            }),
    {
        Characteristics {
            force: 0,
            dexterity: 0,
            constitution: 0,
            intelligence: 0,
            willpower: 0,
            charisma: 0,
        }
    }
}

impl Characteristics {
    /// Component-wise sum, as when an equipment power-up is applied on top
    /// of a creature's base characteristics.
    pub fn add(self, rhs: Self) -> (r: Self)
        requires
            self.force + rhs.force <= u8::MAX,
            self.dexterity + rhs.dexterity <= u8::MAX,
            self.constitution + rhs.constitution <= u8::MAX,
            self.intelligence + rhs.intelligence <= u8::MAX,
            self.willpower + rhs.willpower <= u8::MAX,
            self.charisma + rhs.charisma <= u8::MAX,
        ensures
            r == (Characteristics {
                force: (self.force + rhs.force) as u8,
                dexterity: (self.dexterity + rhs.dexterity) as u8,
                constitution: (self.constitution + rhs.constitution) as u8,
                intelligence: (self.intelligence + rhs.intelligence) as u8,
                willpower: (self.willpower + rhs.willpower) as u8,
                charisma: (self.charisma + rhs.charisma) as u8,
            }),
    {
        Characteristics {
            force: self.force + rhs.force,
            dexterity: self.dexterity + rhs.dexterity,
            constitution: self.constitution + rhs.constitution,
            intelligence: self.intelligence + rhs.intelligence,
            willpower: self.willpower + rhs.willpower,
            charisma: self.charisma + rhs.charisma,
        }
    }
}

/// A cell of the room grid: `x` is the column, `y` the row.
#[derive(Debug, PartialEq, Eq, Structural, Copy, Clone)]
pub struct Position {
    pub x: u16,
    pub y: u16,
}

/// The six body slots, each holding at most one equipped item.
#[derive(Debug, Clone)]
pub struct EquipablePart {
    pub head: Option<Item>,
    pub right_hand: Option<Item>,
    pub left_hand: Option<Item>,
    pub body: Option<Item>,
    pub legs: Option<Item>,
    pub feet: Option<Item>,
}

impl Default for EquipablePart {
    /// Nothing equipped on any slot.
    fn default() -> (r: Self)
        ensures
            r.head is None,
            r.right_hand is None,
            r.left_hand is None,
            r.body is None,
            r.legs is None,
            r.feet is None,
    {
        EquipablePart {
            head: None,
            right_hand: None,
            left_hand: None,
            body: None,
            legs: None,
            feet: None,
        }
    }
}

/// The power-up an equipped slot contributes: the item's power-up when the
/// slot holds an item that has one, zero otherwise.
pub open spec fn slot_power_up(slot: Option<Item>) -> Characteristics {
    match slot {
        Some(item) => match item.power_up {
            Some(p) => p,
            None => spec_zero_characteristics(),
        },
        None => spec_zero_characteristics(),
    }
}

pub open spec fn spec_zero_characteristics() -> Characteristics {
    Characteristics {
        force: 0,
        dexterity: 0,
        constitution: 0,
        intelligence: 0,
        willpower: 0,
        charisma: 0,
    }
}

/// The armor points an equipped slot contributes.
pub open spec fn slot_armor(slot: Option<Item>) -> int {
    match slot {
        Some(item) => item.armor_point as int,
        None => 0,
    }
}

impl EquipablePart {
    /// The six per-characteristic power-up totals over all equipped slots,
    /// in the order force, dexterity, constitution, intelligence, willpower,
    /// charisma.
    pub open spec fn spec_power_up_total(self) -> (int, int, int, int, int, int) {
        let h = slot_power_up(self.head);
        let r = slot_power_up(self.right_hand);
        let l = slot_power_up(self.left_hand);
        let b = slot_power_up(self.body);
        let g = slot_power_up(self.legs);
        let f = slot_power_up(self.feet);
        (
            h.force + r.force + l.force + b.force + g.force + f.force,
            h.dexterity + r.dexterity + l.dexterity + b.dexterity + g.dexterity + f.dexterity,
            h.constitution + r.constitution + l.constitution + b.constitution + g.constitution
                + f.constitution,
            h.intelligence + r.intelligence + l.intelligence + b.intelligence + g.intelligence
                + f.intelligence,
            h.willpower + r.willpower + l.willpower + b.willpower + g.willpower + f.willpower,
            h.charisma + r.charisma + l.charisma + b.charisma + g.charisma + f.charisma,
        )
    }

    /// The armor points of all equipped items, summed.
    pub open spec fn spec_pure_armor(self) -> int {
        slot_armor(self.head) + slot_armor(self.right_hand) + slot_armor(self.left_hand)
            + slot_armor(self.body) + slot_armor(self.legs) + slot_armor(self.feet)
    }

    /// Every slot with what it holds, keyed by the body part, in the fixed
    /// order body, right hand, left hand, head, legs, feet.
    pub fn get_all_props(&self) -> (r: Vec<(PartToEquiEnum, &Option<Item>)>)
        ensures
            r@.len() == 6,
            r@[0].0 == PartToEquiEnum::BODY && *r@[0].1 == self.body,
            r@[1].0 == PartToEquiEnum::RIGHT_HAND && *r@[1].1 == self.right_hand,
            r@[2].0 == PartToEquiEnum::LEFT_HAND && *r@[2].1 == self.left_hand,
            r@[3].0 == PartToEquiEnum::HEAD && *r@[3].1 == self.head,
            r@[4].0 == PartToEquiEnum::LEGS && *r@[4].1 == self.legs,
            r@[5].0 == PartToEquiEnum::FEET && *r@[5].1 == self.feet,
    {
        let mut result: Vec<(PartToEquiEnum, &Option<Item>)> = Vec::new();
        result.push((PartToEquiEnum::BODY, &self.body));
        result.push((PartToEquiEnum::RIGHT_HAND, &self.right_hand));
        result.push((PartToEquiEnum::LEFT_HAND, &self.left_hand));
        result.push((PartToEquiEnum::HEAD, &self.head));
        result.push((PartToEquiEnum::LEGS, &self.legs));
        result.push((PartToEquiEnum::FEET, &self.feet));
        result
    }
}

/// A playable or AI-controlled creature: identity, stats, inventory,
/// equipment, known spells and a grid position. Pawns are owned by their
/// place's pawn list and referred to everywhere else by their `id`.
#[derive(Debug, Clone)]
pub struct Pawn {
    pub id: i64,
    pub name: String,
    pub life: u8,
    pub mana: u8,
    pub characteristics: Characteristics,
    pub inventory: Vec<Item>,
    pub equipped: EquipablePart,
    pub spell: Vec<Spell>,
    pub race: String,
    pub playable: bool,
    pub ai: Option<AI>,
    pub position: Position,
}

/// Life after a blow: damage is subtracted but the counter floors at zero,
/// it never wraps around.
pub open spec fn spec_life_after_hit(life: u8, damage: u8) -> u8 {
    if life >= damage {
        (life - damage) as u8
    } else {
        0u8
    }
}

/// Where a dressed item lands: the equipment with the slot named by the
/// item's own `part_to_equip` replaced by the item.
pub open spec fn spec_equip(e: EquipablePart, item: Item) -> EquipablePart {
    match item.part_to_equip {
        PartToEquiEnum::HEAD => EquipablePart { head: Some(item), ..e },
        PartToEquiEnum::BODY => EquipablePart { body: Some(item), ..e },
        PartToEquiEnum::LEFT_HAND => EquipablePart { left_hand: Some(item), ..e },
        PartToEquiEnum::RIGHT_HAND => EquipablePart { right_hand: Some(item), ..e },
        PartToEquiEnum::LEGS => EquipablePart { legs: Some(item), ..e },
        PartToEquiEnum::FEET => EquipablePart { feet: Some(item), ..e },
    }
}

/// The equipment with one named slot cleared.
pub open spec fn spec_de_equip(e: EquipablePart, part: PartToEquiEnum) -> EquipablePart {
    match part {
        PartToEquiEnum::HEAD => EquipablePart { head: None, ..e },
        PartToEquiEnum::BODY => EquipablePart { body: None, ..e },
        PartToEquiEnum::LEFT_HAND => EquipablePart { left_hand: None, ..e },
        PartToEquiEnum::RIGHT_HAND => EquipablePart { right_hand: None, ..e },
        PartToEquiEnum::LEGS => EquipablePart { legs: None, ..e },
        PartToEquiEnum::FEET => EquipablePart { feet: None, ..e },
    }
}

impl Pawn {
    /// The wielder's total characteristics: base plus every equipped
    /// power-up. Meaningful when the sums fit the counters, which
    /// `power_up_fits` states.
    pub open spec fn spec_total_characteristics(self) -> Characteristics {
        let t = self.equipped.spec_power_up_total();
        Characteristics {
            force: (self.characteristics.force + t.0) as u8,
            dexterity: (self.characteristics.dexterity + t.1) as u8,
            constitution: (self.characteristics.constitution + t.2) as u8,
            intelligence: (self.characteristics.intelligence + t.3) as u8,
            willpower: (self.characteristics.willpower + t.4) as u8,
            charisma: (self.characteristics.charisma + t.5) as u8,
        }
    }

    /// The base characteristics plus the equipped power-up totals all fit
    /// their u8 counters.
    pub open spec fn power_up_fits(self) -> bool {
        let t = self.equipped.spec_power_up_total();
        &&& self.characteristics.force + t.0 <= u8::MAX
        &&& self.characteristics.dexterity + t.1 <= u8::MAX
        &&& self.characteristics.constitution + t.2 <= u8::MAX
        &&& self.characteristics.intelligence + t.3 <= u8::MAX
        &&& self.characteristics.willpower + t.4 <= u8::MAX
        &&& self.characteristics.charisma + t.5 <= u8::MAX
    }

    /// The armor sums stay within the u8 counters that hold them.
    pub open spec fn armor_fits(self) -> bool {
        &&& self.equipped.spec_pure_armor() + CA <= u8::MAX
        &&& self.equipped.spec_pure_armor() == 0 ==> self.equipped.spec_power_up_total().1 + CA
            <= u8::MAX
    }

    /// A pawn the combat math is defined on: its power-up and armor sums
    /// fit their counters, and whatever it could strike with rolls
    /// well-formed damage dice.
    pub open spec fn spec_pawn_wf(self) -> bool {
        &&& self.power_up_fits()
        &&& self.armor_fits()
        &&& self.equipped.right_hand matches Some(i) ==> i.damages.wf()
        &&& forall|k: int| 0 <= k < self.spell@.len() ==> (#[trigger] self.spell@[k]).damages.wf()
    }

    /// The armor class an attack roll must beat: 10 plus the equipped armor
    /// points when any item carries armor, else 10 plus the dexterity
    /// power-up total as a fallback.
    pub open spec fn spec_armor_class(self) -> int {
        if self.equipped.spec_pure_armor() > 0 {
            self.equipped.spec_pure_armor() + CA
        } else {
            self.equipped.spec_power_up_total().1 + CA
        }
    }

    /// Strike a target with a pocketable: rolls its damage dice and deals
    /// the damage, the target's life flooring at zero.
    pub fn hit(&self, item: &Pocketable, target: &mut Pawn) -> (r: u8)
        requires
            item.spec_damages().wf(),
        ensures
            item.spec_damages().rolls <= r <= item.spec_damages().rolls
                * item.spec_damages().faces,
            *final(target) == (Pawn {
                life: spec_life_after_hit(old(target).life, r),
                ..*old(target)
            }),
    {
        let damage = item.get_damages();
        target.take_hit(damage)
    }

    /// Suffer a blow: life decreases by the damage but floors at zero, and
    /// the damage is reported back.
    pub fn take_hit(&mut self, damage: u8) -> (r: u8)
        ensures
            *final(self) == (Pawn {
                life: spec_life_after_hit(old(self).life, damage),
                ..*old(self)
            }),
            r == damage,
    {
        self.life = if self.life >= damage {
            self.life - damage
        } else {
            0
        };
        damage
    }

    /// Dress an item on the slot its `part_to_equip` names.
    pub fn equip(&mut self, item: Item)
        ensures
            *final(self) == (Pawn { equipped: spec_equip(old(self).equipped, item), ..*old(self) }),
    {
        match item.part_to_equip {
            PartToEquiEnum::HEAD => self.equipped.head = Some(item),
            PartToEquiEnum::BODY => self.equipped.body = Some(item),
            PartToEquiEnum::LEFT_HAND => self.equipped.left_hand = Some(item),
            PartToEquiEnum::RIGHT_HAND => self.equipped.right_hand = Some(item),
            PartToEquiEnum::LEGS => self.equipped.legs = Some(item),
            PartToEquiEnum::FEET => self.equipped.feet = Some(item),
        }
    }

    /// Clear one equipment slot.
    pub fn de_equip(&mut self, part_to_unequip: PartToEquiEnum)
        ensures
            *final(self) == (Pawn {
                equipped: spec_de_equip(old(self).equipped, part_to_unequip),
                ..*old(self)
            }),
    {
        match part_to_unequip {
            PartToEquiEnum::HEAD => self.equipped.head = None,
            PartToEquiEnum::BODY => self.equipped.body = None,
            PartToEquiEnum::LEFT_HAND => self.equipped.left_hand = None,
            PartToEquiEnum::RIGHT_HAND => self.equipped.right_hand = None,
            PartToEquiEnum::LEGS => self.equipped.legs = None,
            PartToEquiEnum::FEET => self.equipped.feet = None,
        }
    }

    /// Sum the power-ups of every equipped item, component by component.
    pub fn calculate_power_up(&self) -> (r: Option<Characteristics>)
        requires
            self.equipped.spec_power_up_total().0 <= u8::MAX,
            self.equipped.spec_power_up_total().1 <= u8::MAX,
            self.equipped.spec_power_up_total().2 <= u8::MAX,
            self.equipped.spec_power_up_total().3 <= u8::MAX,
            self.equipped.spec_power_up_total().4 <= u8::MAX,
            self.equipped.spec_power_up_total().5 <= u8::MAX,
        ensures
            r matches Some(c) && c == (Characteristics {
                force: self.equipped.spec_power_up_total().0 as u8,
                dexterity: self.equipped.spec_power_up_total().1 as u8,
                constitution: self.equipped.spec_power_up_total().2 as u8,
                intelligence: self.equipped.spec_power_up_total().3 as u8,
                willpower: self.equipped.spec_power_up_total().4 as u8,
                charisma: self.equipped.spec_power_up_total().5 as u8,
            }),
    {
        let mut acc = slot_power_up_exec(&self.equipped.head);
        acc = acc.add(slot_power_up_exec(&self.equipped.right_hand));
        acc = acc.add(slot_power_up_exec(&self.equipped.left_hand));
        acc = acc.add(slot_power_up_exec(&self.equipped.body));
        acc = acc.add(slot_power_up_exec(&self.equipped.legs));
        acc = acc.add(slot_power_up_exec(&self.equipped.feet));
        Some(acc)
    }

    /// The usability score of a pocketable for this pawn, over its total
    /// characteristics; for a spell the pawn's mana must also cover the
    /// spell's cost, else the score is 0.
    pub fn calculate_usability(&self, damage_dealer_pocketable: &Pocketable) -> (r: u8)
        requires
            self.power_up_fits(),
        ensures
            r == damage_dealer_pocketable.spec_usability(
                self.spec_total_characteristics(),
                spec_mana_arg(*self, *damage_dealer_pocketable),
            ),
    {
        let power_up = self.calculate_power_up();
        let charac = match power_up {
            Some(p) => self.characteristics.add(p),
            None => self.characteristics,
        };

        let mana = match damage_dealer_pocketable {
            Pocketable::Spell(_) => Some(self.mana),
            Pocketable::Item(_) => None,
        };

        damage_dealer_pocketable.calculate_usability(&charac, mana)
    }

    /// The armor class, as `spec_armor_class` states it.
    pub fn calculate_armor_points(&self) -> (r: u8)
        requires
            self.armor_fits(),
        ensures
            r == self.spec_armor_class(),
    {
        let total_armor = self.pure_armor_points();

        if total_armor > 0 {
            total_armor + CA
        } else {
            self.dex_total() + CA
        }
    }

    /// The dexterity power-up total of the equipped items.
    pub fn dex_total(&self) -> (r: u8)
        requires
            self.equipped.spec_power_up_total().1 <= u8::MAX,
        ensures
            r == self.equipped.spec_power_up_total().1,
    {
        let mut dex: u8 = slot_power_up_exec(&self.equipped.head).dexterity;
        dex = dex + slot_power_up_exec(&self.equipped.right_hand).dexterity;
        dex = dex + slot_power_up_exec(&self.equipped.left_hand).dexterity;
        dex = dex + slot_power_up_exec(&self.equipped.body).dexterity;
        dex = dex + slot_power_up_exec(&self.equipped.legs).dexterity;
        dex = dex + slot_power_up_exec(&self.equipped.feet).dexterity;
        dex
    }

    /// The armor points of the equipped items, summed.
    pub fn pure_armor_points(&self) -> (r: u8)
        requires
            self.equipped.spec_pure_armor() <= u8::MAX,
        ensures
            r == self.equipped.spec_pure_armor(),
    {
        let mut total: u8 = slot_armor_exec(&self.equipped.head);
        total = total + slot_armor_exec(&self.equipped.right_hand);
        total = total + slot_armor_exec(&self.equipped.left_hand);
        total = total + slot_armor_exec(&self.equipped.body);
        total = total + slot_armor_exec(&self.equipped.legs);
        total = total + slot_armor_exec(&self.equipped.feet);
        total
    }
}

/// The mana handed to the usability computation: the wielder's mana for a
/// spell, nothing for an item.
pub open spec fn spec_mana_arg(pawn: Pawn, pocketable: Pocketable) -> Option<u8> {
    match pocketable {
        Pocketable::Spell(_) => Some(pawn.mana),
        Pocketable::Item(_) => None,
    }
}

/// A pawn whose mana is below a spell's cost can never use that spell,
/// whatever its characteristics and equipment.
pub proof fn lemma_pawn_cannot_cast_without_mana(pawn: Pawn, spell: Spell)
    requires
        pawn.mana < spell.mana,
    ensures
        Pocketable::Spell(spell).spec_usability(
            pawn.spec_total_characteristics(),
            spec_mana_arg(pawn, Pocketable::Spell(spell)),
        ) == 0,
{
    crate::item::lemma_mana_short_zero_usability(
        spell,
        pawn.spec_total_characteristics(),
        pawn.mana,
    );
}

/// The texture a race is drawn with: humans have their own, everything
/// else is drawn as a goblin.
pub open spec fn spec_race_texture(race: Seq<char>) -> u8 {
    if race == "human"@ {
        200u8
    } else {
        201u8
    }
}

impl crate::sprite::ObjectToSprite for Pawn {
    /// One sprite: the pawn's race texture at its position, on the
    /// movables layer.
    open spec fn spec_world_origin(&self) -> Seq<crate::sprite::Sprite> {
        seq![
            crate::sprite::Sprite {
                texture_id: spec_race_texture(self.race@),
                pos_x: self.position.x as i32,
                pos_y: self.position.y as i32,
                layer: crate::sprite::Layer::MOVABLES,
            },
        ]
    }

    fn get_world_origin(&self) -> (r: Vec<crate::sprite::Sprite>)
    {
        let human = String::from_str("human");
        let texture_id: u8 = if self.race == human {
            200
        } else {
            201
        };
        let mut result: Vec<crate::sprite::Sprite> = Vec::new();
        result.push(
            crate::sprite::Sprite::new(
                texture_id,
                self.position.x as i32,
                self.position.y as i32,
                crate::sprite::Layer::MOVABLES,
            ),
        );
        proof {
            assert(result@ =~= self.spec_world_origin());
        }
        result
    }
}

/// The executable counterpart of `slot_power_up`.
fn slot_power_up_exec(slot: &Option<Item>) -> (r: Characteristics)
    ensures
        r == slot_power_up(*slot),
{
    match slot {
        Some(item) => match item.power_up {
            Some(p) => p,
            None => Characteristics::default(),
        },
        None => Characteristics::default(),
    }
}

/// The executable counterpart of `slot_armor`.
fn slot_armor_exec(slot: &Option<Item>) -> (r: u8)
    ensures
        r == slot_armor(*slot),
{
    match slot {
        Some(item) => item.armor_point,
        None => 0,
    }
}

} // verus!

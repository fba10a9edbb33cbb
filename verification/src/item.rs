//! Items and spells: everything a pawn can pocket and use to deal damage,
//! together with the tiered usability score that says how well a wielder
//! can handle it.

use vstd::prelude::*;
use crate::pawn::Characteristics;
use crate::dice;

verus! {

/// The margin above a requirement within which use is merely average.
pub const ADJUSTMENT_VALUE: u8 = 2;

#[allow(non_camel_case_types)]
#[derive(Debug, PartialEq, Eq, Structural, Copy, Clone)]
pub enum DamageTypeEnum {
    PIERCING,
    SLASHING,
    BLUNT,
    ELECTRIC,
    FIRE,
    ICE,
    HEAL,
}

#[allow(non_camel_case_types)]
#[derive(Debug, PartialEq, Eq, Structural, Copy, Clone)]
pub enum ItemAttackTypeEnum {
    CONTACT,
    DISTANCE,
    MAGIC,
}

#[allow(non_camel_case_types)]
#[derive(Debug, PartialEq, Eq, Structural, Copy, Clone, Hash)]
pub enum PartToEquiEnum {
    HEAD,
    RIGHT_HAND,
    LEFT_HAND,
    BODY,
    LEGS,
    FEET,
}

/// The dice expression an item or spell rolls for damage: `rolls` throws of
/// a die with `faces` faces, summed.
#[derive(Debug, PartialEq, Eq, Structural, Copy, Clone)]
pub struct DamageDice {
    pub rolls: u8,
    pub faces: u8,
}

impl DamageDice {
    /// A dice expression makes sense when every die has at least one face
    /// and the largest possible sum still fits the damage counter.
    pub open spec fn wf(self) -> bool {
        &&& self.rolls >= 1
        &&& self.faces >= 1
        &&& self.rolls * self.faces <= u8::MAX
    }
}

#[derive(Debug, Clone)]
pub struct Item {
    pub name: String,
    pub damages: DamageDice,
    pub requirements: Characteristics,
    pub resistances: Option<DamageTypeEnum>,
    pub power_up: Option<Characteristics>,
    pub damages_type: Option<DamageTypeEnum>,
    pub part_to_equip: PartToEquiEnum,
    pub armor_point: u8,
    pub attack_type: Option<ItemAttackTypeEnum>,
    pub range: Option<u16>,
}

#[derive(Debug, Clone)]
pub struct Spell {
    pub name: String,
    pub damages: DamageDice,
    pub mana: u8,
    pub passive: bool,
    pub requirements: Characteristics,
    pub effect_time_turns: u8,
    pub resistances: Option<DamageTypeEnum>,
    pub power_up: Option<Characteristics>,
    pub damages_type: Option<DamageTypeEnum>,
    pub attack_type: Option<ItemAttackTypeEnum>,
    pub range: Option<u16>,
}

/// One step of the usability sweep. `None` means some requirement already
/// failed, which no later characteristic can repair; otherwise the tier of
/// the latest nonzero requirement wins.
pub open spec fn usability_step(requirement: u8, have: u8, prev: Option<u8>) -> Option<u8> {
    if prev is None {
        None
    } else if requirement == 0 {
        prev
    } else if have <= requirement {
        None
    } else if requirement + ADJUSTMENT_VALUE < have {
        Some(255u8)
    } else {
        Some(127u8)
    }
}

/// The tiered usability score of requirements `req` for a wielder whose
/// total characteristics are `have`: the characteristics are swept in the
/// fixed order charisma, intelligence, willpower, force, dexterity,
/// constitution; any unmet requirement forces 0, and otherwise the tier of
/// the last nonzero requirement swept is the score (0 when no requirement
/// is set at all).
pub open spec fn spec_usability_sweep(req: Characteristics, have: Characteristics) -> u8 {
    let outcome = usability_step(
        req.constitution,
        have.constitution,
        usability_step(
            req.dexterity,
            have.dexterity,
            usability_step(
                req.force,
                have.force,
                usability_step(
                    req.willpower,
                    have.willpower,
                    usability_step(
                        req.intelligence,
                        have.intelligence,
                        usability_step(req.charisma, have.charisma, Some(0u8)),
                    ),
                ),
            ),
        ),
    );
    match outcome {
        Some(v) => v,
        None => 0u8,
    }
}

/// Anything a pawn can pocket: a weapon-like item or a spell. The two share
/// one capability surface, so combat code needs no other distinction.
#[derive(Debug, Clone)]
pub enum Pocketable {
    Item(Item),
    Spell(Spell),
}

impl Pocketable {
    pub open spec fn spec_requirements(&self) -> Characteristics {
        match self {
            Pocketable::Item(i) => i.requirements,
            Pocketable::Spell(s) => s.requirements,
        }
    }

    pub open spec fn spec_damages(&self) -> DamageDice {
        match self {
            Pocketable::Item(i) => i.damages,
            Pocketable::Spell(s) => s.damages,
        }
    }

    pub open spec fn spec_attack_type(&self) -> Option<ItemAttackTypeEnum> {
        match self {
            Pocketable::Item(i) => i.attack_type,
            Pocketable::Spell(s) => s.attack_type,
        }
    }

    pub open spec fn spec_range(&self) -> Option<u16> {
        match self {
            Pocketable::Item(i) => i.range,
            Pocketable::Spell(s) => s.range,
        }
    }

    /// A spell is out of reach when the wielder's mana does not cover its
    /// cost; items never are.
    pub open spec fn mana_blocked(&self, mana: Option<u8>) -> bool {
        match (self, mana) {
            (Pocketable::Spell(s), Some(m)) => m < s.mana,
            _ => false,
        }
    }

    /// The full usability score: 0 whenever the mana cost is not covered,
    /// otherwise the sweep over the six characteristics.
    pub open spec fn spec_usability(&self, have: Characteristics, mana: Option<u8>) -> u8 {
        if self.mana_blocked(mana) {
            0u8
        } else {
            spec_usability_sweep(self.spec_requirements(), have)
        }
    }

    /// An independent copy equal to this pocketable.
    pub fn duplicate(&self) -> (r: Pocketable)
        ensures
            r == *self,
    {
        match self {
            Pocketable::Item(i) => Pocketable::Item(i.duplicate()),
            Pocketable::Spell(s) => Pocketable::Spell(s.duplicate()),
        }
    }

    pub fn get_name(&self) -> (r: &String)
        ensures
            r@ == match self {
                Pocketable::Item(i) => i.name@,
                Pocketable::Spell(s) => s.name@,
            },
    {
        match self {
            Pocketable::Item(i) => &i.name,
            Pocketable::Spell(s) => &s.name,
        }
    }

    pub fn get_requirements(&self) -> (r: &Characteristics)
        ensures
            *r == self.spec_requirements(),
    {
        match self {
            Pocketable::Item(i) => &i.requirements,
            Pocketable::Spell(s) => &s.requirements,
        }
    }

    pub fn get_attack_type(&self) -> (r: Option<ItemAttackTypeEnum>)
        ensures
            r == self.spec_attack_type(),
    {
        match self {
            Pocketable::Item(i) => i.attack_type,
            Pocketable::Spell(s) => s.attack_type,
        }
    }

    pub fn get_range(&self) -> (r: Option<u16>)
        ensures
            r == self.spec_range(),
    {
        match self {
            Pocketable::Item(i) => i.range,
            Pocketable::Spell(s) => s.range,
        }
    }

    pub fn get_damage_type(&self) -> (r: Option<DamageTypeEnum>)
        ensures
            r == match self {
                Pocketable::Item(i) => i.damages_type,
                Pocketable::Spell(s) => s.damages_type,
            },
    {
        match self {
            Pocketable::Item(i) => i.damages_type,
            Pocketable::Spell(s) => s.damages_type,
        }
    }

    /// Roll this pocketable's damage dice and return the summed damage.
    pub fn get_damages(&self) -> (r: u8)
        requires
            self.spec_damages().wf(),
        ensures
            self.spec_damages().rolls <= r <= self.spec_damages().rolls * self.spec_damages().faces,
    {
        match self {
            Pocketable::Item(i) => i.get_damages(),
            Pocketable::Spell(s) => s.get_damages(),
        }
    }

    /// The tiered usability score of this pocketable for a wielder with the
    /// given total characteristics; `mana` is the wielder's mana, handed in
    /// when a spell's cost must be covered.
    pub fn calculate_usability(&self, pawn_charac: &Characteristics, mana: Option<u8>) -> (r: u8)
        ensures
            r == self.spec_usability(*pawn_charac, mana),
    {
        if let Pocketable::Spell(s) = self {
            if let Some(m) = mana {
                if m < s.mana {
                    return 0;
                }
            }
        }
        usability_sweep(self.get_requirements(), pawn_charac)
    }
}

/// The executable usability sweep, matching `spec_usability_sweep` exactly.
pub fn usability_sweep(requirements: &Characteristics, pawn_charac: &Characteristics) -> (r: u8)
    ensures
        r == spec_usability_sweep(*requirements, *pawn_charac),
{
    let mut result: u8 = 0;

    let charisma = requirements.charisma;
    if charisma > 0 {
        if charisma < pawn_charac.charisma {
            if (charisma as u16) + (ADJUSTMENT_VALUE as u16) < (pawn_charac.charisma as u16) {
                result = 255;
            } else {
                result = 127;
            }
        } else {
            return 0;
        }
    }

    let intelligence = requirements.intelligence;
    if intelligence > 0 {
        if intelligence < pawn_charac.intelligence {
            if (intelligence as u16) + (ADJUSTMENT_VALUE as u16) < (pawn_charac.intelligence as u16) {
                result = 255;
            } else {
                result = 127;
            }
        } else {
            return 0;
        }
    }

    let willpower = requirements.willpower;
    if willpower > 0 {
        if willpower < pawn_charac.willpower {
            if (willpower as u16) + (ADJUSTMENT_VALUE as u16) < (pawn_charac.willpower as u16) {
                result = 255;
            } else {
                result = 127;
            }
        } else {
            return 0;
        }
    }

    let force = requirements.force;
    if force > 0 {
        if force < pawn_charac.force {
            if (force as u16) + (ADJUSTMENT_VALUE as u16) < (pawn_charac.force as u16) {
                result = 255;
            } else {
                result = 127;
            }
        } else {
            return 0;
        }
    }

    let dexterity = requirements.dexterity;
    if dexterity > 0 {
        if dexterity < pawn_charac.dexterity {
            if (dexterity as u16) + (ADJUSTMENT_VALUE as u16) < (pawn_charac.dexterity as u16) {
                result = 255;
            } else {
                result = 127;
            }
        } else {
            return 0;
        }
    }

    let constitution = requirements.constitution;
    if constitution > 0 {
        if constitution < pawn_charac.constitution {
            if (constitution as u16) + (ADJUSTMENT_VALUE as u16) < (pawn_charac.constitution as u16) {
                result = 255;
            } else {
                result = 127;
            }
        } else {
            return 0;
        }
    }

    result
}

/// A nonzero requirement that the wielder does not strictly exceed forces a
/// usability of 0, whichever of the six characteristics it is.
pub proof fn lemma_unmet_requirement_zero_usability(req: Characteristics, have: Characteristics)
    ensures
        req.charisma > 0 && have.charisma <= req.charisma ==> spec_usability_sweep(req, have) == 0,
        req.intelligence > 0 && have.intelligence <= req.intelligence ==> spec_usability_sweep(
            req,
            have,
        ) == 0,
        req.willpower > 0 && have.willpower <= req.willpower ==> spec_usability_sweep(req, have)
            == 0,
        req.force > 0 && have.force <= req.force ==> spec_usability_sweep(req, have) == 0,
        req.dexterity > 0 && have.dexterity <= req.dexterity ==> spec_usability_sweep(req, have)
            == 0,
        req.constitution > 0 && have.constitution <= req.constitution ==> spec_usability_sweep(
            req,
            have,
        ) == 0,
{
}

/// A spell whose mana cost exceeds the wielder's mana has usability 0,
/// regardless of every characteristic.
pub proof fn lemma_mana_short_zero_usability(spell: Spell, have: Characteristics, mana: u8)
    requires
        mana < spell.mana,
    ensures
        Pocketable::Spell(spell).spec_usability(have, Some(mana)) == 0,
{
}

impl Item {
    /// An independent copy equal to this item, field for field.
    pub fn duplicate(&self) -> (r: Item)
        ensures
            r == *self,
    {
        Item {
            name: self.name.clone(),
            damages: self.damages,
            requirements: self.requirements,
            resistances: self.resistances,
            power_up: self.power_up,
            damages_type: self.damages_type,
            part_to_equip: self.part_to_equip,
            armor_point: self.armor_point,
            attack_type: self.attack_type,
            range: self.range,
        }
    }

    /// Roll this item's damage dice and return the summed damage.
    pub fn get_damages(&self) -> (r: u8)
        requires
            self.damages.wf(),
        ensures
            self.damages.rolls <= r <= self.damages.rolls * self.damages.faces,
    {
        roll_damage_dice(self.damages)
    }

    pub fn get_resistance(&self) -> (r: Option<DamageTypeEnum>)
        ensures
            r == self.resistances,
    {
        self.resistances
    }

    pub fn get_name(&self) -> (r: &str)
        ensures
            r@ == self.name@,
    {
        self.name.as_str()
    }

    pub fn get_requirements(&self) -> (r: &Characteristics)
        ensures
            *r == self.requirements,
    {
        &self.requirements
    }

    pub fn get_power_up(&self) -> (r: &Option<Characteristics>)
        ensures
            *r == self.power_up,
    {
        &self.power_up
    }

    pub fn get_damage_type(&self) -> (r: Option<DamageTypeEnum>)
        ensures
            r == self.damages_type,
    {
        self.damages_type
    }

    pub fn get_attack_type(&self) -> (r: Option<ItemAttackTypeEnum>)
        ensures
            r == self.attack_type,
    {
        self.attack_type
    }

    pub fn get_characteristics(&self) -> (r: Characteristics)
        ensures
            r == self.requirements,
    {
        self.requirements
    }

    pub fn get_range(&self) -> (r: Option<u16>)
        ensures
            r == self.range,
    {
        self.range
    }
}

impl Spell {
    /// An independent copy equal to this spell, field for field.
    pub fn duplicate(&self) -> (r: Spell)
        ensures
            r == *self,
    {
        Spell {
            name: self.name.clone(),
            damages: self.damages,
            mana: self.mana,
            passive: self.passive,
            requirements: self.requirements,
            effect_time_turns: self.effect_time_turns,
            resistances: self.resistances,
            power_up: self.power_up,
            damages_type: self.damages_type,
            attack_type: self.attack_type,
            range: self.range,
        }
    }

    pub fn get_characteristics(&self) -> (r: Characteristics)
        ensures
            r == self.requirements,
    {
        self.requirements
    }

    /// Roll this spell's damage dice and return the summed damage.
    pub fn get_damages(&self) -> (r: u8)
        requires
            self.damages.wf(),
        ensures
            self.damages.rolls <= r <= self.damages.rolls * self.damages.faces,
    {
        roll_damage_dice(self.damages)
    }

    pub fn get_resistance(&self) -> (r: Option<DamageTypeEnum>)
        ensures
            r == self.resistances,
    {
        self.resistances
    }

    pub fn get_name(&self) -> (r: &str)
        ensures
            r@ == self.name@,
    {
        self.name.as_str()
    }

    pub fn get_power_up(&self) -> (r: &Option<Characteristics>)
        ensures
            *r == self.power_up,
    {
        &self.power_up
    }

    pub fn get_damage_type(&self) -> (r: Option<DamageTypeEnum>)
        ensures
            r == self.damages_type,
    {
        self.damages_type
    }

    pub fn get_attack_type(&self) -> (r: Option<ItemAttackTypeEnum>)
        ensures
            r == self.attack_type,
    {
        self.attack_type
    }

    pub fn get_requirements(&self) -> (r: &Characteristics)
        ensures
            *r == self.requirements,
    {
        &self.requirements
    }

    pub fn get_range(&self) -> (r: Option<u16>)
        ensures
            r == self.range,
    {
        self.range
    }
}

/// Throw a dice expression: `rolls` dice with `faces` faces, summed.
fn roll_damage_dice(dice: DamageDice) -> (r: u8)
    requires
        dice.wf(),
    ensures
        dice.rolls <= r <= dice.rolls * dice.faces,
{
    let mut sum: u8 = 0;
    let mut i: u8 = 0;
    while i < dice.rolls
        invariant
            dice.wf(),
            i <= dice.rolls,
            i <= sum,
            sum <= i * dice.faces,
        decreases dice.rolls - i,
    {
        proof {
            assert(i * dice.faces + dice.faces == (i + 1) * dice.faces) by (nonlinear_arith);
            assert((i + 1) * dice.faces <= dice.rolls * dice.faces) by (nonlinear_arith)
                requires
                    i < dice.rolls,
                    dice.faces >= 1,
            ;
        }
        let die = dice::roll_die(dice.faces);
        sum = sum + die;
        i = i + 1;
    }
    sum
}

} // verus!

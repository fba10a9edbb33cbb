//! Attack preliminaries: choosing what to strike with and classifying the
//! to-hit roll.

use vstd::prelude::*;
use crate::dice::{Dice, RollDiceResult};
use crate::item::Pocketable;
use crate::pawn::Pawn;

verus! {

pub struct Attack;

/// The weapon the attack falls back on: whatever is equipped on the right
/// hand.
pub open spec fn spec_weapon_of(player: Pawn) -> Option<Pocketable> {
    match player.equipped.right_hand {
        Some(i) => Some(Pocketable::Item(i)),
        None => None,
    }
}

/// The spell the attacker settled on: the chosen entry of the spell list,
/// or nothing when the list is empty or no valid choice was made.
pub open spec fn spec_spell_of(player: Pawn, choice: Option<usize>) -> Option<Pocketable> {
    if player.spell@.len() == 0 {
        None
    } else {
        match choice {
            Some(s) => if s < player.spell@.len() {
                Some(Pocketable::Spell(player.spell@[s as int]))
            } else {
                None
            },
            None => None,
        }
    }
}

/// What the attacker strikes with: choice 0 is the equipped weapon, choice
/// 1 a spell; anything else selects nothing.
pub open spec fn spec_selected_item(
    player: Pawn,
    action: Option<usize>,
    spell_choice: Option<usize>,
) -> Option<Pocketable> {
    match action {
        Some(a) => if a == 0 {
            spec_weapon_of(player)
        } else if a == 1 {
            spec_spell_of(player, spell_choice)
        } else {
            None
        },
        None => None,
    }
}

impl Attack {
    /// Resolve an attack-kind choice to the pocketable it names:
    /// 0 for the equipped weapon, 1 for the spell picked by `spell_choice`.
    pub fn select_item_to_attack_with(
        player: &Pawn,
        action: Option<usize>,
        spell_choice: Option<usize>,
    ) -> (r: Option<Pocketable>)
        ensures
            r == spec_selected_item(*player, action, spell_choice),
    {
        if let Some(act) = action {
            if act == 0 {
                Self::get_weapon(player)
            } else if act == 1 {
                Self::get_spell(player, spell_choice)
            } else {
                None
            }
        } else {
            None
        }
    }

    /// The equipped right-hand item, as a pocketable.
    pub fn get_weapon(player: &Pawn) -> (r: Option<Pocketable>)
        ensures
            r == spec_weapon_of(*player),
    {
        match &player.equipped.right_hand {
            Some(item) => Some(Pocketable::Item(item.duplicate())),
            None => None,
        }
    }

    /// The chosen spell of the attacker's spell list, if the list is not
    /// empty and the choice names an entry.
    pub fn get_spell(player: &Pawn, choice: Option<usize>) -> (r: Option<Pocketable>)
        ensures
            r == spec_spell_of(*player, choice),
    {
        if player.spell.len() == 0 {
            return None;
        }
        if let Some(s) = choice {
            if s < player.spell.len() {
                Some(Pocketable::Spell(player.spell[s].duplicate()))
            } else {
                None
            }
        } else {
            None
        }
    }

    /// How a d20 value resolves: 1 fumbles, 20 is a critical, everything
    /// else is a normal roll carrying its value.
    pub open spec fn spec_classify_roll(dice: u8) -> RollDiceResult {
        if dice == 1 {
            RollDiceResult::Fumble
        } else if dice == 20 {
            RollDiceResult::Critical
        } else {
            RollDiceResult::Normal(dice)
        }
    }

    /// The executable counterpart of `spec_classify_roll`.
    pub fn classify_roll(dice: u8) -> (r: RollDiceResult)
        ensures
            r == Self::spec_classify_roll(dice),
    {
        if dice == 1 {
            RollDiceResult::Fumble
        } else if dice == 20 {
            RollDiceResult::Critical
        } else {
            RollDiceResult::Normal(dice)
        }
    }

    /// Roll the to-hit d20 and classify it; a normal outcome always
    /// carries a value between 2 and 19.
    pub fn roll_attack() -> (r: RollDiceResult)
        ensures
            r matches RollDiceResult::Normal(d) ==> 2 <= d <= 19,
    {
        let dice = Dice::roll_1d20();
        Self::classify_roll(dice as u8)
    }
}

} // verus!

//! Watching another creature: a perception roll reveals only some of the
//! target's characteristics and derived fields, picked at random but
//! always distinct, and the revealed part is printed as a stat card.

use vstd::prelude::*;
use vstd::string::StringExecFns;
use crate::dice;
use crate::dice::Dice;
use crate::pawn::{Characteristics, Pawn};

verus! {

/// The characters of one decimal digit.
pub open spec fn spec_digit_chars(d: int) -> Seq<char> {
    if d == 0 {
        "0"@
    } else if d == 1 {
        "1"@
    } else if d == 2 {
        "2"@
    } else if d == 3 {
        "3"@
    } else if d == 4 {
        "4"@
    } else if d == 5 {
        "5"@
    } else if d == 6 {
        "6"@
    } else if d == 7 {
        "7"@
    } else if d == 8 {
        "8"@
    } else {
        "9"@
    }
}

/// The decimal spelling of a byte, without leading zeros.
pub open spec fn spec_decimal_u8(n: u8) -> Seq<char> {
    if n < 10 {
        spec_digit_chars(n as int)
    } else if n < 100 {
        spec_digit_chars(n as int / 10) + spec_digit_chars(n as int % 10)
    } else {
        spec_digit_chars(n as int / 100) + spec_digit_chars((n as int / 10) % 10)
            + spec_digit_chars(n as int % 10)
    }
}

fn digit_str(d: u8) -> (r: &'static str)
    requires
        d < 10,
    ensures
        r@ == spec_digit_chars(d as int),
{
    if d == 0 {
        "0"
    } else if d == 1 {
        "1"
    } else if d == 2 {
        "2"
    } else if d == 3 {
        "3"
    } else if d == 4 {
        "4"
    } else if d == 5 {
        "5"
    } else if d == 6 {
        "6"
    } else if d == 7 {
        "7"
    } else if d == 8 {
        "8"
    } else {
        "9"
    }
}

/// The decimal spelling of a byte.
pub fn decimal(n: u8) -> (r: String)
    ensures
        r@ == spec_decimal_u8(n),
{
    if n < 10 {
        let mut s = String::new();
        s.append(digit_str(n));
        s
    } else if n < 100 {
        let mut s = String::new();
        s.append(digit_str(n / 10));
        s.append(digit_str(n % 10));
        s
    } else {
        let mut s = String::new();
        s.append(digit_str(n / 100));
        s.append(digit_str((n / 10) % 10));
        s.append(digit_str(n % 10));
        s
    }
}

/// How many of the six characteristics a perception roll reveals: the
/// watcher's intelligence plus the d20 roll, scaled to the 0 to 6 range.
pub open spec fn spec_perception6(intelligence: u8, roll: u8) -> int {
    (intelligence + roll) * 6 / 30
}

/// How many of the four derived fields a perception roll reveals: the
/// same sum, scaled to the 0 to 4 range.
pub open spec fn spec_perception4(intelligence: u8, roll: u8) -> int {
    (intelligence + roll) * 4 / 30
}

/// A valid reveal pick list: as many picks as the perception grants,
/// capped by the field count, all distinct and all naming a field.
pub open spec fn spec_valid_picks(picks: Seq<u8>, count: int, domain: u8) -> bool {
    &&& picks.len() == (if count <= domain {
        count
    } else {
        domain as int
    })
    &&& forall|k: int| 0 <= k < picks.len() ==> (#[trigger] picks[k]) < domain
    &&& picks.no_duplicates()
}

/// The characteristics a pick list reveals; everything unpicked reads 0.
/// The codes follow the reveal order: 0 force, 1 intelligence,
/// 2 willpower, 3 constitution, 4 charisma, 5 dexterity.
pub open spec fn spec_reveal_stats(source: Characteristics, picks: Seq<u8>) -> Characteristics {
    Characteristics {
        force: if picks.contains(0u8) {
            source.force
        } else {
            0u8
        },
        intelligence: if picks.contains(1u8) {
            source.intelligence
        } else {
            0u8
        },
        willpower: if picks.contains(2u8) {
            source.willpower
        } else {
            0u8
        },
        constitution: if picks.contains(3u8) {
            source.constitution
        } else {
            0u8
        },
        charisma: if picks.contains(4u8) {
            source.charisma
        } else {
            0u8
        },
        dexterity: if picks.contains(5u8) {
            source.dexterity
        } else {
            0u8
        },
    }
}

/// The stat card of a characteristics sheet.
pub open spec fn spec_stats_text(c: Characteristics) -> Seq<char> {
    "Stats : \n\tFOR: "@ + spec_decimal_u8(c.force) + "\n\tDEX: "@ + spec_decimal_u8(c.dexterity)
        + "\n\tCON: "@ + spec_decimal_u8(c.constitution) + "\n\tINT: "@ + spec_decimal_u8(
        c.intelligence,
    ) + "\n\tWIL: "@ + spec_decimal_u8(c.willpower) + "\n\tCHA: "@ + spec_decimal_u8(c.charisma)
}

/// The name of the target's equipped weapon, or nothing.
pub open spec fn spec_weapon_name(p: Pawn) -> Seq<char> {
    match p.equipped.right_hand {
        Some(i) => i.name@,
        None => Seq::empty(),
    }
}

/// The watch card of a pawn, given which derived fields the picks reveal
/// (0 race, 1 equipped weapon, 2 life, 3 mana) and the already-built
/// stats part.
pub open spec fn spec_pawn_watch_text(p: Pawn, picks: Seq<u8>, stats_part: Seq<char>) -> Seq<
    char,
> {
    "race: "@ + (if picks.contains(0u8) {
        p.race@
    } else {
        Seq::empty()
    }) + "\nequipped: "@ + (if picks.contains(1u8) {
        spec_weapon_name(p)
    } else {
        Seq::empty()
    }) + "\n"@ + stats_part + "\nLife: "@ + (if picks.contains(2u8) {
        spec_decimal_u8(p.life)
    } else {
        Seq::empty()
    }) + "\nMana: "@ + (if picks.contains(3u8) {
        spec_decimal_u8(p.mana)
    } else {
        Seq::empty()
    })
}

/// Whether a field code appears among the picks.
fn contains_code(picks: &Vec<u8>, code: u8) -> (r: bool)
    ensures
        r == picks@.contains(code),
{
    let mut i: usize = 0;
    while i < picks.len()
        invariant
            i <= picks@.len(),
            forall|j: int| 0 <= j < i ==> picks@[j] != code,
        decreases picks@.len() - i,
    {
        if picks[i] == code {
            proof {
                assert(picks@.contains(code));
            }
            return true;
        }
        i = i + 1;
    }
    false
}

/// Draw `count` distinct field codes below `domain`, uniformly, capped at
/// the domain size.
pub fn pick_distinct(count: u8, domain: u8) -> (r: Vec<u8>)
    ensures
        spec_valid_picks(r@, count as int, domain),
{
    let mut candidates: Vec<u8> = Vec::new();
    let mut d: u8 = 0;
    while d < domain
        invariant
            d <= domain,
            candidates@.len() == d,
            forall|k: int| 0 <= k < candidates@.len() ==> (#[trigger] candidates@[k]) == k,
        decreases domain - d,
    {
        candidates.push(d);
        d = d + 1;
    }
    proof {
        assert forall|a: int, b: int|
            0 <= a < candidates@.len() && 0 <= b < candidates@.len() && a != b implies candidates@[a]
            != candidates@[b] by {}
    }

    let goal: u8 = if count <= domain {
        count
    } else {
        domain
    };
    let mut result: Vec<u8> = Vec::new();
    let mut taken: u8 = 0;
    while taken < goal
        invariant
            goal <= domain,
            taken <= goal,
            result@.len() == taken,
            candidates@.len() == domain - taken,
            forall|k: int| 0 <= k < result@.len() ==> (#[trigger] result@[k]) < domain,
            forall|k: int| 0 <= k < candidates@.len() ==> (#[trigger] candidates@[k]) < domain,
            result@.no_duplicates(),
            candidates@.no_duplicates(),
            forall|a: int, b: int|
                0 <= a < result@.len() && 0 <= b < candidates@.len() ==> result@[a]
                    != candidates@[b],
        decreases goal - taken,
    {
        let ghost old_candidates = candidates@;
        let ghost old_result = result@;
        let idx = dice::pick_index(candidates.len());
        let code = candidates.swap_remove(idx);
        result.push(code);
        proof {
            assert(code == old_candidates[idx as int]);
            assert forall|a: int, b: int|
                0 <= a < candidates@.len() && 0 <= b < candidates@.len() && a != b implies
                candidates@[a] != candidates@[b] by {}
            assert forall|a: int, b: int|
                0 <= a < result@.len() && 0 <= b < candidates@.len() implies result@[a]
                != candidates@[b] by {
                if a < old_result.len() {
                } else {
                    assert(result@[a] == code);
                }
            }
            assert forall|a: int, b: int|
                0 <= a < result@.len() && 0 <= b < result@.len() && a != b implies result@[a]
                != result@[b] by {
                if a < old_result.len() && b < old_result.len() {
                } else if a == old_result.len() as int {
                    assert(old_result[b] != old_candidates[idx as int]);
                } else if b == old_result.len() as int {
                    assert(old_result[a] != old_candidates[idx as int]);
                }
            }
        }
        taken = taken + 1;
    }
    result
}

/// Build the visible characteristics sheet from the picks.
pub fn reveal_characteristics(source: &Characteristics, picks: &Vec<u8>) -> (r: Characteristics)
    ensures
        r == spec_reveal_stats(*source, picks@),
{
    Characteristics {
        force: if contains_code(picks, 0) {
            source.force
        } else {
            0
        },
        intelligence: if contains_code(picks, 1) {
            source.intelligence
        } else {
            0
        },
        willpower: if contains_code(picks, 2) {
            source.willpower
        } else {
            0
        },
        constitution: if contains_code(picks, 3) {
            source.constitution
        } else {
            0
        },
        charisma: if contains_code(picks, 4) {
            source.charisma
        } else {
            0
        },
        dexterity: if contains_code(picks, 5) {
            source.dexterity
        } else {
            0
        },
    }
}

/// Spell a characteristics sheet as the stat card text.
pub fn stats_text(c: &Characteristics) -> (r: String)
    ensures
        r@ == spec_stats_text(*c),
{
    let mut s = String::new();
    s.append("Stats : \n\tFOR: ");
    let part = decimal(c.force);
    s.append(part.as_str());
    s.append("\n\tDEX: ");
    let part = decimal(c.dexterity);
    s.append(part.as_str());
    s.append("\n\tCON: ");
    let part = decimal(c.constitution);
    s.append(part.as_str());
    s.append("\n\tINT: ");
    let part = decimal(c.intelligence);
    s.append(part.as_str());
    s.append("\n\tWIL: ");
    let part = decimal(c.willpower);
    s.append(part.as_str());
    s.append("\n\tCHA: ");
    let part = decimal(c.charisma);
    s.append(part.as_str());
    s
}

/// What a watcher sees of a watched thing: the partial card text the
/// perception roll grants. Each implementation names its card through
/// `spec_watch_text_ok`.
pub trait Watch {
    spec fn spec_watch_text_ok(
        &self,
        characs: Characteristics,
        dice_1d20_roll: u8,
        text: Seq<char>,
    ) -> bool;

    fn to_string(&self, characs: &Characteristics, dice_1d20_roll: u8) -> (r: String)
        ensures
            self.spec_watch_text_ok(*characs, dice_1d20_roll, r@),
    ;
}

impl Watch for Characteristics {
    /// The text is a stat card whose fields come from some valid reveal.
    open spec fn spec_watch_text_ok(
        &self,
        characs: Characteristics,
        dice_1d20_roll: u8,
        text: Seq<char>,
    ) -> bool {
        exists|picks: Seq<u8>|
            #[trigger] spec_valid_picks(
                picks,
                spec_perception6(characs.intelligence, dice_1d20_roll),
                6,
            ) && text == spec_stats_text(spec_reveal_stats(*self, picks))
    }

    fn to_string(&self, characs: &Characteristics, dice_1d20_roll: u8) -> (r: String)
    {
        let scaled: u16 = ((characs.intelligence as u16) + (dice_1d20_roll as u16)) * 6 / 30;
        let count: u8 = scaled as u8;
        let picks = pick_distinct(count, 6);
        let revealed = reveal_characteristics(self, &picks);
        let text = stats_text(&revealed);
        proof {
            assert(count as int == spec_perception6(characs.intelligence, dice_1d20_roll));
            assert(spec_valid_picks(
                picks@,
                spec_perception6(characs.intelligence, dice_1d20_roll),
                6,
            ));
        }
        text
    }
}

impl Watch for Pawn {
    /// The text is a watch card whose derived fields come from one valid
    /// reveal and whose stats part comes from another.
    open spec fn spec_watch_text_ok(
        &self,
        characs: Characteristics,
        dice_1d20_roll: u8,
        text: Seq<char>,
    ) -> bool {
        exists|picks4: Seq<u8>, picks6: Seq<u8>|
            #[trigger] spec_valid_picks(
                picks4,
                spec_perception4(characs.intelligence, dice_1d20_roll),
                4,
            ) && #[trigger] spec_valid_picks(
                picks6,
                spec_perception6(characs.intelligence, dice_1d20_roll),
                6,
            ) && text == spec_pawn_watch_text(
                *self,
                picks4,
                spec_stats_text(spec_reveal_stats(self.characteristics, picks6)),
            )
    }

    fn to_string(&self, characs: &Characteristics, dice_1d20_roll: u8) -> (r: String)
    {
        let scaled: u16 = ((characs.intelligence as u16) + (dice_1d20_roll as u16)) * 4 / 30;
        let count: u8 = scaled as u8;
        let picks = pick_distinct(count, 4);

        let stats_part = self.characteristics.to_string(characs, dice_1d20_roll);
        let ghost picks6 = choose|p: Seq<u8>|
            #[trigger] spec_valid_picks(
                p,
                spec_perception6(characs.intelligence, dice_1d20_roll),
                6,
            ) && stats_part@ == spec_stats_text(spec_reveal_stats(self.characteristics, p));

        let mut s = String::new();
        s.append("race: ");
        if contains_code(&picks, 0) {
            s.append(self.race.as_str());
        }
        s.append("\nequipped: ");
        if contains_code(&picks, 1) {
            match &self.equipped.right_hand {
                Some(weapon) => {
                    s.append(weapon.name.as_str());
                },
                None => {},
            }
        }
        s.append("\n");
        s.append(stats_part.as_str());
        s.append("\nLife: ");
        if contains_code(&picks, 2) {
            let part = decimal(self.life);
            s.append(part.as_str());
        }
        s.append("\nMana: ");
        if contains_code(&picks, 3) {
            let part = decimal(self.mana);
            s.append(part.as_str());
        }
        proof {
            assert(count as int == spec_perception4(characs.intelligence, dice_1d20_roll));
            assert(spec_valid_picks(
                picks@,
                spec_perception4(characs.intelligence, dice_1d20_roll),
                4,
            ));
            assert(s@ =~= spec_pawn_watch_text(
                *self,
                picks@,
                spec_stats_text(spec_reveal_stats(self.characteristics, picks6)),
            ));
        }
        s
    }
}

impl Pawn {
    /// Watch a target: roll perception and return the partial card the
    /// roll grants.
    pub fn try_watch(&self, target: &Pawn) -> (r: String)
        ensures
            exists|roll: u8|
                1 <= roll <= 20 && #[trigger] target.spec_watch_text_ok(
                    self.characteristics,
                    roll,
                    r@,
                ),
    {
        let roll = Dice::roll_1d20();
        target.to_string(&self.characteristics, roll as u8)
    }
}

} // verus!

//! The minimal AI policy: watch until a target has been seen, then attack
//! the first seen target that is a living, human-controlled opponent.

use vstd::prelude::*;
use crate::pawn::Pawn;

verus! {

/// Per-pawn intelligence state: targets seen so far and the one currently
/// focused, both held as pawn ids looked up in the place's pawn list.
#[derive(Debug, Clone)]
pub struct AI {
    pub intelligence: i8,
    pub seen_target: Vec<i64>,
    pub selected_target: Option<i64>,
    pub name: String,
}

/// The action index the AI policy settles on: watch when nothing has been
/// seen yet, attack otherwise.
pub const AI_ACTION_WATCH: usize = 3;

pub const AI_ACTION_ATTACK: usize = 1;

/// A target id is worth attacking when it is not the acting pawn itself and
/// some pawn of the list carries that id and is human-controlled.
pub open spec fn spec_eligible_target(pawns: Seq<Pawn>, self_id: i64, target: i64) -> bool {
    target != self_id && exists|i: int|
        0 <= i < pawns.len() && pawns[i].id == target && pawns[i].playable
}

/// Run the human branch for a human-controlled pawn and the AI branch
/// otherwise; the result is whatever the chosen branch promises.
pub fn let_ai_or_human_play<Fh: Fn() -> T, Fa: Fn() -> T, T>(
    pawn: &Pawn,
    human_action: Fh,
    ai_action: Fa,
) -> (r: T)
    requires
        pawn.playable ==> call_requires(human_action, ()),
        !pawn.playable ==> call_requires(ai_action, ()),
    ensures
        pawn.playable ==> call_ensures(human_action, (), r),
        !pawn.playable ==> call_ensures(ai_action, (), r),
{
    if pawn.playable {
        human_action()
    } else {
        ai_action()
    }
}

/// Whether some pawn of the list makes `target` an eligible prey for
/// `self_id`, exactly as `spec_eligible_target` states it.
fn is_eligible_target(pawns: &Vec<Pawn>, self_id: i64, target: i64) -> (r: bool)
    ensures
        r == spec_eligible_target(pawns@, self_id, target),
{
    if target == self_id {
        return false;
    }
    let mut i: usize = 0;
    while i < pawns.len()
        invariant
            i <= pawns@.len(),
            target != self_id,
            forall|j: int| 0 <= j < i ==> !(pawns@[j].id == target && pawns@[j].playable),
        decreases pawns@.len() - i,
    {
        if pawns[i].id == target && pawns[i].playable {
            return true;
        }
        i = i + 1;
    }
    false
}

/// How focusing resolves: the watcher's fields stay put except that the
/// selected target becomes the first seen id that is still an eligible
/// prey.
pub open spec fn spec_target_selected(before: AI, after: AI, pawns: Seq<Pawn>, self_id: i64) -> bool {
    &&& after == (AI { selected_target: after.selected_target, ..before })
    &&& exists|k: int|
        0 <= k < before.seen_target@.len() && after.selected_target == Some(
            #[trigger] before.seen_target@[k],
        ) && spec_eligible_target(pawns, self_id, before.seen_target@[k]) && (forall|j: int|
            0 <= j < k ==> !spec_eligible_target(pawns, self_id, before.seen_target@[j]))
}

/// The position of the first seen id that is an eligible target.
fn first_eligible_index(pawns: &Vec<Pawn>, self_id: i64, seen: &Vec<i64>) -> (r: usize)
    requires
        exists|k: int|
            0 <= k < seen@.len() && spec_eligible_target(pawns@, self_id, seen@[k]),
    ensures
        r < seen@.len(),
        spec_eligible_target(pawns@, self_id, seen@[r as int]),
        forall|j: int| 0 <= j < r ==> !spec_eligible_target(pawns@, self_id, seen@[j]),
{
    let mut i: usize = 0;
    while i < seen.len()
        invariant
            i <= seen@.len(),
            forall|j: int| 0 <= j < i ==> !spec_eligible_target(pawns@, self_id, seen@[j]),
        decreases seen@.len() - i,
    {
        if is_eligible_target(pawns, self_id, seen[i]) {
            return i;
        }
        i = i + 1;
    }
    proof {
        let k = choose|k: int|
            0 <= k < seen@.len() && spec_eligible_target(pawns@, self_id, seen@[k]);
        assert(!spec_eligible_target(pawns@, self_id, seen@[k]));
        assert(false);
    }
    0
}

impl AI {
    /// Decide this pawn's action for the turn: watch when no target has
    /// been seen yet; otherwise focus on the first eligible seen target
    /// (when none is focused yet) and attack.
    pub fn get_action(&mut self, self_id: i64, pawns: &Vec<Pawn>) -> (r: usize)
        requires
            old(self).seen_target@.len() > 0 && old(self).selected_target is None ==> exists|k: int|
                0 <= k < old(self).seen_target@.len() && spec_eligible_target(
                    pawns@,
                    self_id,
                    old(self).seen_target@[k],
                ),
        ensures
            old(self).seen_target@.len() == 0 ==> r == AI_ACTION_WATCH && *final(self) == *old(self),
            old(self).seen_target@.len() > 0 ==> r == AI_ACTION_ATTACK
                && final(self).selected_target is Some,
            old(self).selected_target is Some ==> *final(self) == *old(self),
            old(self).seen_target@.len() > 0 && old(self).selected_target is None
                ==> spec_target_selected(*old(self), *final(self), pawns@, self_id),
    {
        if self.seen_target.len() == 0 {
            return AI_ACTION_WATCH;
        }
        if self.selected_target.is_none() {
            self.select_target(self_id, pawns);
        }
        AI_ACTION_ATTACK
    }

    /// Prefer a spell when any of the pawn's spells is affordable — its
    /// mana cost covered by the pawn's mana, the same bound the usability
    /// gate uses: 1 stands for the spell choice, 0 for the weapon.
    pub fn select_weapon_or_spell(&self, self_pawn: &Pawn) -> (r: usize)
        ensures
            r == 1 || r == 0,
            r == 1 <==> exists|k: int|
                0 <= k < self_pawn.spell@.len() && self_pawn.spell@[k].mana <= self_pawn.mana,
    {
        let mut i: usize = 0;
        while i < self_pawn.spell.len()
            invariant
                i <= self_pawn.spell@.len(),
                forall|j: int| 0 <= j < i ==> !(self_pawn.spell@[j].mana <= self_pawn.mana),
            decreases self_pawn.spell@.len() - i,
        {
            if self_pawn.spell[i].mana <= self_pawn.mana {
                return 1;
            }
            i = i + 1;
        }
        0
    }

    /// Remember one more seen target.
    pub fn add_target_to_watched_target(&mut self, target: i64)
        ensures
            *final(self) == (AI { seen_target: final(self).seen_target, ..*old(self) }),
            final(self).seen_target@ == old(self).seen_target@.push(target),
    {
        self.seen_target.push(target);
    }

    /// Focus on the first seen target that is still an eligible prey.
    pub fn select_target(&mut self, self_id: i64, pawns: &Vec<Pawn>)
        requires
            exists|k: int|
                0 <= k < old(self).seen_target@.len() && spec_eligible_target(
                    pawns@,
                    self_id,
                    old(self).seen_target@[k],
                ),
        ensures
            spec_target_selected(*old(self), *final(self), pawns@, self_id),
    {
        let i = first_eligible_index(pawns, self_id, &self.seen_target);
        let chosen = self.seen_target[i];
        self.selected_target = Some(chosen);
    }
}

} // verus!

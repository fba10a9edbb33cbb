//! The actions a pawn can take on its turn, and the dice-based resolution
//! of the attack action: usability gate, to-hit roll with critical and
//! fumble extremes, armor comparison and damage.

use vstd::prelude::*;
use vstd::string::StringExecFns;
use crate::a_star::{
    bool_grid_view, calculate_range, room_view, spec_reachable, spec_room_wf, BLOCKED_TILE,
};
use crate::dice;
use crate::dice::RollDiceResult;
use crate::interactions::{spec_selected_item, Attack};
use crate::item::{ItemAttackTypeEnum, PartToEquiEnum, Pocketable};
use crate::pawn::{spec_de_equip, spec_equip, spec_life_after_hit, spec_mana_arg, Pawn, Position};

verus! {

/// Everything a pawn can do with its turn.
#[allow(non_camel_case_types)]
#[derive(Debug, Clone, PartialEq, Eq, Structural, Copy)]
pub enum Actions {
    OPEN,
    ATTACK,
    WALK_TO,
    WATCH,
    USE,
    EQUIP,
}

/// The action a menu index names; anything out of range opens.
pub open spec fn spec_action_from_index(value: usize) -> Actions {
    if value == 0 {
        Actions::OPEN
    } else if value == 1 {
        Actions::ATTACK
    } else if value == 2 {
        Actions::WALK_TO
    } else if value == 3 {
        Actions::WATCH
    } else if value == 4 {
        Actions::USE
    } else if value == 5 {
        Actions::EQUIP
    } else {
        Actions::OPEN
    }
}

impl From<usize> for Actions {
    fn from(value: usize) -> (r: Self)
        ensures
            r == spec_action_from_index(value),
    {
        if value == 0 {
            Actions::OPEN
        } else if value == 1 {
            Actions::ATTACK
        } else if value == 2 {
            Actions::WALK_TO
        } else if value == 3 {
            Actions::WATCH
        } else if value == 4 {
            Actions::USE
        } else if value == 5 {
            Actions::EQUIP
        } else {
            Actions::OPEN
        }
    }
}

impl vstd::std_specs::convert::FromSpecImpl<usize> for Actions {
    open spec fn obeys_from_spec() -> bool {
        true
    }

    open spec fn from_spec(v: usize) -> Self {
        spec_action_from_index(v)
    }
}

impl Actions {
    /// The labels of the action menu, in the order the indices name them.
    pub fn vec_string() -> (r: Vec<String>)
        ensures
            r@.len() == 6,
            r@[0]@ == "Open"@,
            r@[1]@ == "Attack"@,
            r@[2]@ == "Walk to"@,
            r@[3]@ == "Watch"@,
            r@[4]@ == "Use"@,
            r@[5]@ == "Equip"@,
    {
        let mut result: Vec<String> = Vec::new();
        result.push(String::from_str("Open"));
        result.push(String::from_str("Attack"));
        result.push(String::from_str("Walk to"));
        result.push(String::from_str("Watch"));
        result.push(String::from_str("Use"));
        result.push(String::from_str("Equip"));
        result
    }
}

/// What the resolution of one attack roll did.
#[derive(Debug, PartialEq, Eq, Structural, Copy, Clone)]
pub enum CombatEvent {
    /// A roll of 1: nothing happens at all.
    Fumble,
    /// A roll of 20: a guaranteed hit dealing `damage`.
    Critical { damage: u8 },
    /// A normal roll that beat the armor class and dealt `damage`.
    NormalHit { roll: u8, damage: u8 },
    /// A normal roll the armor class stopped.
    NormalMiss { roll: u8 },
}

/// The attack-type characteristic the attacker adds to a normal roll:
/// force in contact, dexterity at distance, willpower for magic.
pub open spec fn spec_modifier(attacker: Pawn, item: Pocketable) -> int {
    match item.spec_attack_type() {
        Some(ItemAttackTypeEnum::CONTACT) => attacker.characteristics.force as int,
        Some(ItemAttackTypeEnum::DISTANCE) => attacker.characteristics.dexterity as int,
        Some(ItemAttackTypeEnum::MAGIC) => attacker.characteristics.willpower as int,
        None => 0,
    }
}

/// A normal roll hits exactly when the defender's armor class is strictly
/// below the roll plus the attack-type modifier.
pub open spec fn spec_normal_hits(attacker: Pawn, item: Pocketable, defender: Pawn, roll: u8) -> bool {
    defender.spec_armor_class() < roll + spec_modifier(attacker, item)
}

/// The damage a pocketable can deal lies between these dice bounds.
pub open spec fn spec_damage_in_bounds(item: Pocketable, damage: u8) -> bool {
    item.spec_damages().rolls <= damage <= item.spec_damages().rolls * item.spec_damages().faces
}

/// A pawn after suffering `damage`: life floored at zero, all else kept.
pub open spec fn spec_after_hit(p: Pawn, damage: u8) -> Pawn {
    Pawn { life: spec_life_after_hit(p.life, damage), ..p }
}

impl Actions {
    /// Resolve a normal roll: compare the defender's armor class against
    /// the roll plus the attack-type modifier; on a hit, roll and deal the
    /// damage. Returns whether it hit and the damage dealt.
    pub fn normal(
        player: &Pawn,
        unwrapped_selected_item: &Pocketable,
        selected_creature: &mut Pawn,
        dice_result: u8,
    ) -> (r: (bool, u8))
        requires
            unwrapped_selected_item.spec_damages().wf(),
            old(selected_creature).armor_fits(),
        ensures
            r.0 == spec_normal_hits(
                *player,
                *unwrapped_selected_item,
                *old(selected_creature),
                dice_result,
            ),
            r.0 ==> spec_damage_in_bounds(*unwrapped_selected_item, r.1) && *final(selected_creature) == spec_after_hit(*old(selected_creature), r.1),
            !r.0 ==> r.1 == 0 && *final(selected_creature) == *old(selected_creature),
    {
        let target_armor_points = selected_creature.calculate_armor_points();

        let modifier: u8 = match unwrapped_selected_item.get_attack_type() {
            Some(ItemAttackTypeEnum::CONTACT) => player.characteristics.force,
            Some(ItemAttackTypeEnum::DISTANCE) => player.characteristics.dexterity,
            Some(ItemAttackTypeEnum::MAGIC) => player.characteristics.willpower,
            None => 0,
        };
        let modified_roll: u16 = (dice_result as u16) + (modifier as u16);

        if (target_armor_points as u16) < modified_roll {
            let damages_dealt = player.hit(unwrapped_selected_item, selected_creature);
            (true, damages_dealt)
        } else {
            (false, 0)
        }
    }

    /// A fumble resolves to nothing at all.
    pub fn fumble() -> (e: CombatEvent)
        ensures
            e == CombatEvent::Fumble,
    {
        CombatEvent::Fumble
    }

    /// A critical hits with no armor comparison: damage is rolled and
    /// dealt unconditionally.
    pub fn crititcal(
        player: &Pawn,
        unwrapped_selected_item: &Pocketable,
        selected_creature: &mut Pawn,
    ) -> (r: u8)
        requires
            unwrapped_selected_item.spec_damages().wf(),
        ensures
            spec_damage_in_bounds(*unwrapped_selected_item, r),
            *final(selected_creature) == spec_after_hit(*old(selected_creature), r),
    {
        player.hit(unwrapped_selected_item, selected_creature)
    }

    /// Resolve a classified roll against the target: a fumble never deals
    /// damage, a critical always hits, and a normal roll hits exactly when
    /// it beats the armor class.
    pub fn resolve_roll(
        player: &Pawn,
        unwrapped_selected_item: &Pocketable,
        selected_creature: &mut Pawn,
        roll: RollDiceResult,
    ) -> (e: CombatEvent)
        requires
            unwrapped_selected_item.spec_damages().wf(),
            old(selected_creature).armor_fits(),
        ensures
            roll == RollDiceResult::Fumble ==> e == CombatEvent::Fumble && *final(selected_creature) == *old(selected_creature),
            roll == RollDiceResult::Critical ==> (e matches CombatEvent::Critical { damage }
                && spec_damage_in_bounds(*unwrapped_selected_item, damage) && *final(selected_creature) == spec_after_hit(*old(selected_creature), damage)),
            roll matches RollDiceResult::Normal(d) ==> ({
                &&& spec_normal_hits(*player, *unwrapped_selected_item, *old(selected_creature), d)
                    ==> (e matches CombatEvent::NormalHit { roll: rr, damage } && rr == d
                    && spec_damage_in_bounds(*unwrapped_selected_item, damage) && *final(selected_creature) == spec_after_hit(*old(selected_creature), damage))
                &&& !spec_normal_hits(
                    *player,
                    *unwrapped_selected_item,
                    *old(selected_creature),
                    d,
                ) ==> (e == (CombatEvent::NormalMiss { roll: d }) && *final(selected_creature)
                    == *old(selected_creature))
            }),
    {
        match roll {
            RollDiceResult::Critical => {
                let damage = Self::crititcal(player, unwrapped_selected_item, selected_creature);
                CombatEvent::Critical { damage }
            },
            RollDiceResult::Fumble => Self::fumble(),
            RollDiceResult::Normal(dice_result) => {
                let (hit, damage) = Self::normal(
                    player,
                    unwrapped_selected_item,
                    selected_creature,
                    dice_result,
                );
                if hit {
                    CombatEvent::NormalHit { roll: dice_result, damage }
                } else {
                    CombatEvent::NormalMiss { roll: dice_result }
                }
            },
        }
    }

    /// Roll the to-hit die and resolve it. Whatever the die gave: a fumble
    /// leaves the target untouched, a critical deals damage within the
    /// dice bounds, and a normal roll deals damage exactly when it beats
    /// the armor class.
    pub fn roll_dice_attack(
        player: &Pawn,
        unwrapped_selected_item: &Pocketable,
        selected_creature: &mut Pawn,
    ) -> (e: CombatEvent)
        requires
            unwrapped_selected_item.spec_damages().wf(),
            old(selected_creature).armor_fits(),
        ensures
            spec_event_effect(
                *player,
                *unwrapped_selected_item,
                *old(selected_creature),
                *final(selected_creature),
                e,
            ),
    {
        let roll = Attack::roll_attack();
        Self::resolve_roll(player, unwrapped_selected_item, selected_creature, roll)
    }
}

/// What one resolved attack event says about the target's before and
/// after states: a fumble changes nothing, a critical always deals its
/// damage, a normal roll deals damage exactly when it beats the armor
/// class, and all damage stays within the item's dice bounds.
pub open spec fn spec_event_effect(
    attacker: Pawn,
    item: Pocketable,
    before: Pawn,
    after: Pawn,
    e: CombatEvent,
) -> bool {
    &&& e == CombatEvent::Fumble ==> after == before
    &&& e matches CombatEvent::Critical { damage } ==> spec_damage_in_bounds(item, damage)
        && after == spec_after_hit(before, damage)
    &&& e matches CombatEvent::NormalHit { roll, damage } ==> 2 <= roll <= 19 && spec_normal_hits(
        attacker,
        item,
        before,
        roll,
    ) && spec_damage_in_bounds(item, damage) && after == spec_after_hit(before, damage)
    &&& e matches CombatEvent::NormalMiss { roll } ==> 2 <= roll <= 19 && !spec_normal_hits(
        attacker,
        item,
        before,
        roll,
    ) && after == before
}

/// How far a pawn can walk in one turn: dexterity plus force, divided by
/// three.
pub open spec fn spec_walk_range(c: crate::pawn::Characteristics) -> int {
    (c.dexterity + c.force) / 3
}

/// What a walk attempt came to.
#[derive(Debug, PartialEq, Eq, Structural, Copy, Clone)]
pub enum WalkOutcome {
    /// The destination is a door tile: the turn is spent but the pawn
    /// stays put.
    Door,
    /// The destination is the impassable tile: the turn is spent in place.
    Blocked,
    /// The pawn moved to the destination.
    Moved,
}

/// What walking to `dest` does to a pawn: a door tile (one whose code is
/// an adjacent place's id) or the blocked tile consumes the turn without
/// moving; any other tile becomes the pawn's new position.
pub open spec fn spec_walk_post(
    before: Pawn,
    after: Pawn,
    room: Seq<Seq<u8>>,
    places: Seq<u8>,
    dest: (u16, u16),
    r: WalkOutcome,
) -> bool {
    let tile = room[dest.1 as int][dest.0 as int];
    &&& places.contains(tile) ==> r == WalkOutcome::Door && after == before
    &&& !places.contains(tile) && tile == BLOCKED_TILE ==> r == WalkOutcome::Blocked && after
        == before
    &&& !places.contains(tile) && tile != BLOCKED_TILE ==> r == WalkOutcome::Moved && after == (
    Pawn { position: Position { x: dest.0, y: dest.1 }, ..before })
}

impl Actions {
    /// The reachability grid around a pawn, as both the walk and the
    /// attack action use it.
    pub fn calculate_range(player: &Pawn, room: &Vec<Vec<u8>>, range: u16) -> (r: Vec<Vec<bool>>)
        requires
            spec_room_wf(room_view(room)),
        ensures
            r@.len() == room@.len(),
            forall|j: int| 0 <= j < r@.len() ==> #[trigger] r@[j]@.len() == room@[0]@.len(),
            forall|j: int, i: int|
                0 <= j < r@.len() && 0 <= i < r@[j]@.len() ==> #[trigger] r@[j]@[i]
                    == spec_reachable(
                    room_view(room),
                    (player.position.x, player.position.y),
                    range,
                    i,
                    j,
                ),
    {
        calculate_range((player.position.x, player.position.y), range, room)
    }

    /// The movement radius the walk action hands to the range calculator.
    pub fn walk_stats(current_pawn: &Pawn) -> (r: u16)
        ensures
            r == spec_walk_range(current_pawn.characteristics),
    {
        ((current_pawn.characteristics.dexterity as u16) + (current_pawn.characteristics.force
            as u16)) / 3u16
    }

    /// Walk toward a chosen destination cell, which must lie within the
    /// pawn's walking radius: a door tile consumes the turn without
    /// moving (so would the blocked tile, but reachability already rules
    /// it out); any other tile becomes the pawn's new position.
    pub fn walk_action(
        room: &Vec<Vec<u8>>,
        current_pawn: &mut Pawn,
        places_id: &Vec<u8>,
        selected_target: (u16, u16),
    ) -> (r: WalkOutcome)
        requires
            spec_room_wf(room_view(room)),
            (selected_target.1 as int) < room@.len(),
            (selected_target.0 as int) < room@[0]@.len(),
            spec_reachable(
                room_view(room),
                (old(current_pawn).position.x, old(current_pawn).position.y),
                spec_walk_range(old(current_pawn).characteristics) as u16,
                selected_target.0 as int,
                selected_target.1 as int,
            ),
        ensures
            spec_walk_post(
                *old(current_pawn),
                *final(current_pawn),
                room_view(room),
                places_id@,
                selected_target,
                r,
            ),
    {
        proof {
            let j = selected_target.1 as int;
            assert(room_view(room)[j].len() == room_view(room)[0].len());
            assert(room_view(room)[j] == room@[j]@);
            assert(room_view(room)[0] == room@[0]@);
        }
        let desired_next_position: u8 =
            room[selected_target.1 as usize][selected_target.0 as usize];

        if contains_tile(places_id, desired_next_position) {
            WalkOutcome::Door
        } else if desired_next_position == BLOCKED_TILE {
            WalkOutcome::Blocked
        } else {
            current_pawn.position = Position { x: selected_target.0, y: selected_target.1 };
            WalkOutcome::Moved
        }
    }
}

/// Every pawn stands inside the room grid: the standing invariant of the
/// simulation, which the range and attack computations lean on.
pub open spec fn spec_positions_in_room(creatures: Seq<Pawn>, room: Seq<Seq<u8>>) -> bool {
    forall|i: int|
        0 <= i < creatures.len() ==> (#[trigger] creatures[i]).position.y < room.len()
            && creatures[i].position.x < room[0].len()
}

/// Whether the pawn at index `i` is a live target standing on a reachable
/// cell of the grid.
pub open spec fn spec_attackable(creatures: Seq<Pawn>, grid: Seq<Seq<bool>>, i: int) -> bool {
    &&& 0 <= i < creatures.len()
    &&& creatures[i].life > 0
    &&& grid[creatures[i].position.y as int][creatures[i].position.x as int]
}

/// The indices of the attackable pawns among the first `n`, in increasing
/// order.
pub open spec fn spec_attackable_indices(
    creatures: Seq<Pawn>,
    grid: Seq<Seq<bool>>,
    n: int,
) -> Seq<usize>
    decreases n,
{
    if n <= 0 {
        Seq::empty()
    } else {
        spec_attackable_indices(creatures, grid, n - 1) + (if spec_attackable(
            creatures,
            grid,
            n - 1,
        ) {
            seq![(n - 1) as usize]
        } else {
            Seq::empty()
        })
    }
}

/// The pawns worth aiming at: alive and standing on a reachable cell.
pub fn attackable_targets(creatures: &Vec<Pawn>, range: &Vec<Vec<bool>>) -> (r: Vec<usize>)
    requires
        forall|i: int|
            0 <= i < creatures@.len() ==> (#[trigger] creatures@[i]).position.y < range@.len()
                && creatures@[i].position.x < range@[creatures@[i].position.y as int]@.len(),
    ensures
        r@ == spec_attackable_indices(creatures@, bool_grid_view(range), creatures@.len() as int),
{
    let mut result: Vec<usize> = Vec::new();
    let mut i: usize = 0;
    while i < creatures.len()
        invariant
            forall|k: int|
                0 <= k < creatures@.len() ==> (#[trigger] creatures@[k]).position.y < range@.len()
                    && creatures@[k].position.x < range@[creatures@[k].position.y as int]@.len(),
            i <= creatures@.len(),
            result@ == spec_attackable_indices(creatures@, bool_grid_view(range), i as int),
        decreases creatures@.len() - i,
    {
        let alive = creatures[i].life > 0;
        let mut reachable = false;
        if alive {
            let y = creatures[i].position.y as usize;
            let x = creatures[i].position.x as usize;
            reachable = range[y][x];
            proof {
                assert(range@[y as int]@ == bool_grid_view(range)[y as int]);
            }
        }
        if alive && reachable {
            result.push(i);
            proof {
                assert(spec_attackable(creatures@, bool_grid_view(range), i as int));
                assert(result@ =~= spec_attackable_indices(
                    creatures@,
                    bool_grid_view(range),
                    i + 1,
                ));
            }
        } else {
            proof {
                assert(!spec_attackable(creatures@, bool_grid_view(range), i as int));
                assert(result@ =~= spec_attackable_indices(
                    creatures@,
                    bool_grid_view(range),
                    i + 1,
                ));
            }
        }
        i = i + 1;
    }
    result
}

/// Whether some other pawn is a human-controlled prey for an AI attacker.
pub open spec fn spec_exists_prey(creatures: Seq<Pawn>, player: int) -> bool {
    exists|i: int|
        0 <= i < creatures.len() && (#[trigger] creatures[i]).playable && creatures[i].id
            != creatures[player].id
}

/// The creature index a human's target pick resolves to: a valid pick
/// names an entry of the attackable list, anything else falls back to the
/// first creature.
pub open spec fn spec_picked_target(attackable: Seq<usize>, pick: Option<usize>) -> usize {
    match pick {
        Some(t) => if t < attackable.len() {
            attackable[t as int]
        } else {
            0usize
        },
        None => 0usize,
    }
}

/// The reachability grid an item's range spans from the attacker's cell.
pub open spec fn spec_attack_grid(room: Seq<Seq<u8>>, origin: (u16, u16), range: u16) -> Seq<
    Seq<bool>,
> {
    Seq::new(
        room.len(),
        |j: int| Seq::new(room[0].len(), |i: int| spec_reachable(room, origin, range, i, j)),
    )
}

/// What the whole attack action does, given the attacker, the menu
/// choices and the list of pawns before and after: each abort case holds
/// exactly on its inputs, and a resolved attack touches only the chosen
/// target, whose fate `spec_event_effect` pins down.
pub open spec fn spec_attack_post(
    before: Seq<Pawn>,
    after: Seq<Pawn>,
    player_index: int,
    room: Seq<Seq<u8>>,
    action: Option<usize>,
    spell_choice: Option<usize>,
    target_pick: Option<usize>,
    r: AttackOutcome,
) -> bool {
    let attacker = before[player_index];
    let item_opt = spec_selected_item(attacker, action, spell_choice);
    &&& after.len() == before.len()
    &&& match item_opt {
        None => r == AttackOutcome::NoWayToDamage && after == before,
        Some(item) => match item.spec_range() {
            None => r == AttackOutcome::NoWayToDamage && after == before,
            Some(rg) => {
                let grid = spec_attack_grid(room, (attacker.position.x, attacker.position.y), rg);
                let attackable = spec_attackable_indices(before, grid, before.len() as int);
                let usability = item.spec_usability(
                    attacker.spec_total_characteristics(),
                    spec_mana_arg(attacker, item),
                );
                &&& attackable.len() == 0 ==> r == AttackOutcome::NothingToAttack && after
                    == before
                &&& attackable.len() > 0 && usability == 0 ==> r == AttackOutcome::CannotUse
                    && after == before
                &&& attackable.len() > 0 && usability > 0 ==> (r matches AttackOutcome::Resolved {
                    target,
                    event,
                } && target < before.len() && (attacker.playable ==> target == spec_picked_target(
                    attackable,
                    target_pick,
                )) && (!attacker.playable ==> before[target as int].playable
                    && before[target as int].id != attacker.id) && after == before.update(
                    target as int,
                    after[target as int],
                ) && spec_event_effect(
                    attacker,
                    item,
                    before[target as int],
                    after[target as int],
                    event,
                ))
            },
        },
    }
}

/// What the whole attack action came to.
#[derive(Debug, PartialEq, Eq, Structural, Copy, Clone)]
pub enum AttackOutcome {
    /// No item was selected, or the selected one has no range: there is no
    /// way to deal damage to any target.
    NoWayToDamage,
    /// Nothing alive stands within the item's range.
    NothingToAttack,
    /// The attacker does not know what to do with the item: usability 0.
    CannotUse,
    /// The roll was resolved against the chosen target.
    Resolved { target: usize, event: CombatEvent },
}

impl Actions {
    /// Resolve who gets attacked: a human attacker's pick names an entry
    /// of the attackable list; an AI attacker picks uniformly among the
    /// human-controlled pawns other than itself.
    pub fn select_target_console(
        creatures: &Vec<Pawn>,
        attackable_things: &Vec<usize>,
        player_index: usize,
        pick: Option<usize>,
    ) -> (r: usize)
        requires
            player_index < creatures@.len(),
            forall|j: int|
                0 <= j < attackable_things@.len() ==> (#[trigger] attackable_things@[j])
                    < creatures@.len(),
            !creatures@[player_index as int].playable ==> spec_exists_prey(
                creatures@,
                player_index as int,
            ),
        ensures
            r < creatures@.len(),
            creatures@[player_index as int].playable ==> r == spec_picked_target(
                attackable_things@,
                pick,
            ),
            !creatures@[player_index as int].playable ==> creatures@[r as int].playable
                && creatures@[r as int].id != creatures@[player_index as int].id,
    {
        if creatures[player_index].playable {
            match pick {
                Some(t) => if t < attackable_things.len() {
                    attackable_things[t]
                } else {
                    0
                },
                None => 0,
            }
        } else {
            let my_id = creatures[player_index].id;
            let mut playable_pawns: Vec<usize> = Vec::new();
            let mut i: usize = 0;
            while i < creatures.len()
                invariant
                    player_index < creatures@.len(),
                    my_id == creatures@[player_index as int].id,
                    i <= creatures@.len(),
                    forall|j: int|
                        0 <= j < playable_pawns@.len() ==> (#[trigger] playable_pawns@[j])
                            < creatures@.len() && creatures@[playable_pawns@[j] as int].playable
                            && creatures@[playable_pawns@[j] as int].id != my_id,
                    forall|j: int|
                        0 <= j < i && (#[trigger] creatures@[j]).playable && creatures@[j].id
                            != my_id ==> playable_pawns@.contains(j as usize),
                decreases creatures@.len() - i,
            {
                let ghost before = playable_pawns@;
                if creatures[i].playable && creatures[i].id != my_id {
                    playable_pawns.push(i);
                }
                proof {
                    assert forall|j: int|
                        0 <= j < i + 1 && (#[trigger] creatures@[j]).playable && creatures@[j].id
                            != my_id implies playable_pawns@.contains(j as usize) by {
                        if j < i {
                            let k = choose|k: int|
                                0 <= k < before.len() && before[k] == j as usize;
                            assert(playable_pawns@[k] == j as usize);
                        } else {
                            assert(playable_pawns@.last() == j as usize);
                        }
                    }
                }
                i = i + 1;
            }
            proof {
                let w = choose|k: int|
                    0 <= k < creatures@.len() && (#[trigger] creatures@[k]).playable
                        && creatures@[k].id != creatures@[player_index as int].id;
                assert(playable_pawns@.contains(w as usize));
                assert(playable_pawns@.len() > 0);
            }
            let k = dice::pick_index(playable_pawns.len());
            playable_pawns[k]
        }
    }

    /// The whole attack action: select what to strike with, bound the
    /// reachable cells by the item's range, gather the live targets inside
    /// them, gate on usability, resolve who gets attacked and roll.
    pub fn attack_action(
        creatures: &mut Vec<Pawn>,
        player_index: usize,
        room: &Vec<Vec<u8>>,
        action: Option<usize>,
        spell_choice: Option<usize>,
        target_pick: Option<usize>,
    ) -> (r: AttackOutcome)
        requires
            spec_room_wf(room_view(room)),
            player_index < old(creatures)@.len(),
            spec_positions_in_room(old(creatures)@, room_view(room)),
            forall|i: int|
                0 <= i < old(creatures)@.len() ==> (#[trigger] old(
                    creatures,
                )@[i]).spec_pawn_wf(),
            !old(creatures)@[player_index as int].playable ==> spec_exists_prey(
                old(creatures)@,
                player_index as int,
            ),
        ensures
            spec_attack_post(
                old(creatures)@,
                final(creatures)@,
                player_index as int,
                room_view(room),
                action,
                spell_choice,
                target_pick,
                r,
            ),
    {
        let item = {
            let player = &creatures[player_index];
            match Attack::select_item_to_attack_with(player, action, spell_choice) {
                Some(p) => p,
                None => {
                    return AttackOutcome::NoWayToDamage;
                },
            }
        };
        let rg = match item.get_range() {
            Some(rg) => rg,
            None => {
                return AttackOutcome::NoWayToDamage;
            },
        };
        proof {
            let attacker = old(creatures)@[player_index as int];
            assert(attacker.spec_pawn_wf());
            match spec_selected_item(attacker, action, spell_choice) {
                Some(p) => {
                    if let Pocketable::Spell(s) = p {
                        if let Some(sc) = spell_choice {
                            assert(attacker.spell@[sc as int].damages.wf());
                        }
                    }
                    assert(p.spec_damages().wf());
                },
                None => {
                    assert(false);
                },
            }
        }

        let origin = {
            let player = &creatures[player_index];
            (player.position.x, player.position.y)
        };
        let range_grid = {
            let player = &creatures[player_index];
            Self::calculate_range(player, room, rg)
        };
        let ghost spec_grid = spec_attack_grid(room_view(room), origin, rg);
        proof {
            assert forall|j: int| 0 <= j < range_grid@.len() implies bool_grid_view(&range_grid)[j]
                =~= spec_grid[j] by {
                assert forall|i: int| 0 <= i < room@[0]@.len() implies range_grid@[j]@[i]
                    == spec_reachable(room_view(room), origin, rg, i, j) by {}
            }
            assert(bool_grid_view(&range_grid) =~= spec_grid);
            assert forall|i: int| 0 <= i < creatures@.len() implies (#[trigger] creatures@[i]).position.y
                < range_grid@.len() && creatures@[i].position.x
                < range_grid@[creatures@[i].position.y as int]@.len() by {
                assert(creatures@[i].position.y < room_view(room).len());
                assert(range_grid@[creatures@[i].position.y as int]@.len() == room@[0]@.len());
            }
        }
        let attackable_things = attackable_targets(creatures, &range_grid);

        if attackable_things.len() == 0 {
            return AttackOutcome::NothingToAttack;
        }

        let usability = {
            let player = &creatures[player_index];
            player.calculate_usability(&item)
        };
        if usability == 0 {
            return AttackOutcome::CannotUse;
        }

        proof {
            assert forall|j: int|
                0 <= j < attackable_things@.len() implies (#[trigger] attackable_things@[j])
                < creatures@.len() by {
                lemma_attackable_indices_in_range(
                    creatures@,
                    bool_grid_view(&range_grid),
                    creatures@.len() as int,
                );
            }
        }
        let target = Self::select_target_console(
            creatures,
            &attackable_things,
            player_index,
            target_pick,
        );

        let attacker_proxy = {
            let player = &creatures[player_index];
            Pawn {
                id: player.id,
                name: String::new(),
                life: player.life,
                mana: player.mana,
                characteristics: player.characteristics,
                inventory: Vec::new(),
                equipped: Default::default(),
                spell: Vec::new(),
                race: String::new(),
                playable: player.playable,
                ai: None,
                position: Position { x: origin.0, y: origin.1 },
            }
        };

        let event = {
            let target_ref = &mut creatures[target];
            Actions::roll_dice_attack(&attacker_proxy, &item, target_ref)
        };

        proof {
            let attacker = old(creatures)@[player_index as int];
            assert(spec_modifier(attacker_proxy, item) == spec_modifier(attacker, item));
        }

        AttackOutcome::Resolved { target, event }
    }
}

/// Every entry of the attackable index list lies below `n`.
proof fn lemma_attackable_indices_in_range(creatures: Seq<Pawn>, grid: Seq<Seq<bool>>, n: int)
    requires
        n <= creatures.len(),
    ensures
        forall|j: int|
            0 <= j < spec_attackable_indices(creatures, grid, n).len() ==> (
            #[trigger] spec_attackable_indices(creatures, grid, n)[j]) < creatures.len(),
    decreases n,
{
    if n > 0 {
        lemma_attackable_indices_in_range(creatures, grid, n - 1);
        let a = spec_attackable_indices(creatures, grid, n - 1);
        assert forall|j: int|
            0 <= j < spec_attackable_indices(creatures, grid, n).len() implies (
        spec_attackable_indices(creatures, grid, n)[j]) < creatures.len() by {
            if j < a.len() {
                assert(spec_attackable_indices(creatures, grid, n)[j] == a[j]);
            } else {
                assert(spec_attackable_indices(creatures, grid, n)[j] == (n - 1) as usize);
            }
        }
    }
}

/// What a clicked or described tile reads as.
pub open spec fn spec_tile_description(tile: u8) -> Seq<char> {
    if tile == 10 {
        "Simple floor"@
    } else if tile == 11 {
        "Path to First room"@
    } else if tile == 12 {
        "Path to Second room"@
    } else {
        ""@
    }
}

/// Whether the pawn at index `i` is worth watching for the watcher at
/// `current`: alive, someone else, and human-controlled when the watcher
/// is an AI hunting prey.
pub open spec fn spec_watchable(
    creatures: Seq<Pawn>,
    current: int,
    require_playable: bool,
    i: int,
) -> bool {
    &&& 0 <= i < creatures.len()
    &&& creatures[i].life > 0
    &&& creatures[i].id != creatures[current].id
    &&& require_playable ==> creatures[i].playable
}

/// The indices of the watchable pawns among the first `n`, in increasing
/// order.
pub open spec fn spec_watchable_indices(
    creatures: Seq<Pawn>,
    current: int,
    require_playable: bool,
    n: int,
) -> Seq<usize>
    decreases n,
{
    if n <= 0 {
        Seq::empty()
    } else {
        spec_watchable_indices(creatures, current, require_playable, n - 1) + (if spec_watchable(
            creatures,
            current,
            require_playable,
            n - 1,
        ) {
            seq![(n - 1) as usize]
        } else {
            Seq::empty()
        })
    }
}

/// Every entry of the watchable index list names a watchable pawn.
proof fn lemma_watchable_indices_sound(
    creatures: Seq<Pawn>,
    current: int,
    require_playable: bool,
    n: int,
)
    requires
        n <= creatures.len(),
        creatures.len() <= usize::MAX,
    ensures
        forall|j: int|
            0 <= j < spec_watchable_indices(creatures, current, require_playable, n).len()
                ==> spec_watchable(
                creatures,
                current,
                require_playable,
                #[trigger] spec_watchable_indices(creatures, current, require_playable, n)[j] as int,
            ),
    decreases n,
{
    if n > 0 {
        lemma_watchable_indices_sound(creatures, current, require_playable, n - 1);
        let a = spec_watchable_indices(creatures, current, require_playable, n - 1);
        assert forall|j: int|
            0 <= j < spec_watchable_indices(creatures, current, require_playable, n).len()
                implies spec_watchable(
            creatures,
            current,
            require_playable,
            spec_watchable_indices(creatures, current, require_playable, n)[j] as int,
        ) by {
            if j < a.len() {
                assert(spec_watchable_indices(creatures, current, require_playable, n)[j] == a[j]);
            } else {
                assert(spec_watchable_indices(creatures, current, require_playable, n)[j] == (n - 1)
                    as usize);
            }
        }
    }
}

impl Actions {
    /// The first pawn standing on the clicked cell, if any.
    pub fn find_pawn_at(creatures: &Vec<Pawn>, x: u16, y: u16) -> (r: Option<usize>)
        ensures
            r matches Some(i) ==> i < creatures@.len() && creatures@[i as int].position == (
            Position { x, y }) && (forall|j: int|
                0 <= j < i ==> (#[trigger] creatures@[j]).position != (Position { x, y })),
            r is None ==> forall|j: int|
                0 <= j < creatures@.len() ==> (#[trigger] creatures@[j]).position != (Position {
                    x,
                    y,
                }),
    {
        let mut i: usize = 0;
        while i < creatures.len()
            invariant
                i <= creatures@.len(),
                forall|j: int|
                    0 <= j < i ==> (#[trigger] creatures@[j]).position != (Position { x, y }),
            decreases creatures@.len() - i,
        {
            if creatures[i].position.x == x && creatures[i].position.y == y {
                return Some(i);
            }
            i = i + 1;
        }
        None
    }

    /// The text a tile code reads as when watched.
    pub fn tile_description(tile: u8) -> (r: &'static str)
        ensures
            r@ == spec_tile_description(tile),
    {
        if tile == 10 {
            "Simple floor"
        } else if tile == 11 {
            "Path to First room"
        } else if tile == 12 {
            "Path to Second room"
        } else {
            ""
        }
    }

    /// The pawns the watcher may watch: alive, not itself, and restricted
    /// to human-controlled ones when an AI is looking for prey.
    pub fn watch_targets(creatures: &Vec<Pawn>, current: usize, require_playable: bool) -> (r:
        Vec<usize>)
        requires
            current < creatures@.len(),
        ensures
            r@ == spec_watchable_indices(
                creatures@,
                current as int,
                require_playable,
                creatures@.len() as int,
            ),
    {
        let my_id = creatures[current].id;
        let mut result: Vec<usize> = Vec::new();
        let mut i: usize = 0;
        while i < creatures.len()
            invariant
                current < creatures@.len(),
                my_id == creatures@[current as int].id,
                i <= creatures@.len(),
                result@ == spec_watchable_indices(
                    creatures@,
                    current as int,
                    require_playable,
                    i as int,
                ),
            decreases creatures@.len() - i,
        {
            let eligible = creatures[i].life > 0 && creatures[i].id != my_id && (!require_playable
                || creatures[i].playable);
            if eligible {
                result.push(i);
            }
            proof {
                assert(result@ =~= spec_watchable_indices(
                    creatures@,
                    current as int,
                    require_playable,
                    i + 1,
                ));
            }
            i = i + 1;
        }
        result
    }

    /// An AI pawn's watch: pick one human-controlled living pawn at
    /// random, remember its id among the seen targets, and report it;
    /// with nothing to see, nothing changes.
    pub fn ai_watch_action(creatures: &mut Vec<Pawn>, current: usize) -> (r: Option<i64>)
        requires
            current < old(creatures)@.len(),
            old(creatures)@[current as int].ai is Some,
        ensures
            spec_ai_watch_post(old(creatures)@, final(creatures)@, current as int, r),
    {
        let candidates = Self::watch_targets(creatures, current, true);
        if candidates.len() == 0 {
            return None;
        }
        let total = creatures.len();
        proof {
            assert(creatures@.len() == total);
            lemma_watchable_indices_sound(
                creatures@,
                current as int,
                true,
                creatures@.len() as int,
            );
        }
        let pick = dice::pick_index(candidates.len());
        let chosen = candidates[pick];
        let id = creatures[chosen].id;
        let pawn = &mut creatures[current];
        match &mut pawn.ai {
            Some(ai) => {
                ai.add_target_to_watched_target(id);
            },
            None => {},
        }
        Some(id)
    }
}

/// What an AI watch does: with no watchable prey, nothing; otherwise some
/// watchable pawn's id is reported and appended to the watcher's seen
/// targets, and nothing else of the watcher or the list changes.
pub open spec fn spec_ai_watch_post(
    before: Seq<Pawn>,
    after: Seq<Pawn>,
    current: int,
    r: Option<i64>,
) -> bool {
    let watchable = spec_watchable_indices(before, current, true, before.len() as int);
    &&& after.len() == before.len()
    &&& watchable.len() == 0 ==> r is None && after == before
    &&& watchable.len() > 0 ==> (r matches Some(id) && (exists|k: int|
        spec_watchable(before, current, true, k) && before[k].id == id) && after == before.update(
        current,
        after[current],
    ) && after[current] == (Pawn { ai: after[current].ai, ..before[current] }) && (
    before[current].ai matches Some(oa) ==> (after[current].ai matches Some(na)
        && na.seen_target@ == oa.seen_target@.push(id) && na.intelligence == oa.intelligence
        && na.selected_target == oa.selected_target && na.name == oa.name)))
}

/// What the acting side decided before the turn resolves: the destination
/// of a walk, the menu picks of an attack, or the picks of an equip.
#[derive(Debug, Copy, Clone)]
pub enum ActionInput {
    Walk { destination: (u16, u16) },
    Attack { weapon_or_spell: Option<usize>, spell_choice: Option<usize>, target_pick: Option<usize> },
    Equip { item_pick: Option<usize>, unequip_pick: Option<usize> },
    NoInput,
}

/// What one resolved turn came to.
#[derive(Debug, PartialEq, Eq, Structural, Copy, Clone)]
pub enum TurnOutcome {
    /// The open action is a deliberate stub: the turn passes untouched.
    Opened,
    /// The use action is a deliberate stub: the turn passes untouched.
    Used,
    Watched(Option<i64>),
    Walked(WalkOutcome),
    Attacked(AttackOutcome),
    Equipped(EquipOutcome),
}

impl Actions {
    /// One pawn's turn: dispatch the chosen action index to its handler.
    /// A human watcher changes nothing here (the card is printed by the
    /// presentation side); an AI watcher records what it saw. Open and
    /// use stay explicit no-op branches.
    pub fn handle_actions(
        creatures: &mut Vec<Pawn>,
        current: usize,
        action: usize,
        input: &ActionInput,
        room: &Vec<Vec<u8>>,
        places_id: &Vec<u8>,
    ) -> (r: TurnOutcome)
        requires
            current < old(creatures)@.len(),
            spec_room_wf(room_view(room)),
            spec_action_from_index(action) == Actions::WALK_TO ==> (input
                matches ActionInput::Walk { destination } && (destination.1 as int) < room@.len()
                && (destination.0 as int) < room@[0]@.len() && spec_reachable(
                room_view(room),
                (
                    old(creatures)@[current as int].position.x,
                    old(creatures)@[current as int].position.y,
                ),
                spec_walk_range(old(creatures)@[current as int].characteristics) as u16,
                destination.0 as int,
                destination.1 as int,
            )),
            spec_action_from_index(action) == Actions::ATTACK ==> (input
                matches ActionInput::Attack { .. } && spec_positions_in_room(
                old(creatures)@,
                room_view(room),
            ) && (forall|i: int|
                0 <= i < old(creatures)@.len() ==> (#[trigger] old(creatures)@[i]).spec_pawn_wf())
                && (!old(creatures)@[current as int].playable ==> spec_exists_prey(
                old(creatures)@,
                current as int,
            ))),
            spec_action_from_index(action) == Actions::EQUIP ==> (input
                matches ActionInput::Equip { item_pick, .. } && (item_pick matches Some(i) ==> i
                <= old(creatures)@[current as int].inventory@.len())),
            spec_action_from_index(action) == Actions::WATCH && !old(
                creatures,
            )@[current as int].playable ==> old(creatures)@[current as int].ai is Some,
        ensures
            final(creatures)@.len() == old(creatures)@.len(),
            spec_action_from_index(action) == Actions::OPEN ==> r == TurnOutcome::Opened && final(creatures)@ == old(creatures)@,
            spec_action_from_index(action) == Actions::USE ==> r == TurnOutcome::Used && final(creatures)@ == old(creatures)@,
            spec_action_from_index(action) == Actions::WATCH ==> (if old(
                creatures,
            )@[current as int].playable {
                r == TurnOutcome::Watched(Option::<i64>::None) && final(creatures)@ == old(
                    creatures,
                )@
            } else {
                r matches TurnOutcome::Watched(x) && spec_ai_watch_post(
                    old(creatures)@,
                    final(creatures)@,
                    current as int,
                    x,
                )
            }),
            spec_action_from_index(action) == Actions::WALK_TO ==> (input
                matches ActionInput::Walk { destination } ==> (r matches TurnOutcome::Walked(w)
                && final(creatures)@ == old(creatures)@.update(
                current as int,
                final(creatures)@[current as int],
            ) && spec_walk_post(
                old(creatures)@[current as int],
                final(creatures)@[current as int],
                room_view(room),
                places_id@,
                *destination,
                w,
            ))),
            spec_action_from_index(action) == Actions::ATTACK ==> (input
                matches ActionInput::Attack { weapon_or_spell, spell_choice, target_pick } ==> (r
                matches TurnOutcome::Attacked(o) && spec_attack_post(
                old(creatures)@,
                final(creatures)@,
                current as int,
                room_view(room),
                *weapon_or_spell,
                *spell_choice,
                *target_pick,
                o,
            ))),
            spec_action_from_index(action) == Actions::EQUIP ==> (input
                matches ActionInput::Equip { item_pick, unequip_pick } ==> (r
                matches TurnOutcome::Equipped(e) && final(creatures)@ == old(creatures)@.update(
                current as int,
                final(creatures)@[current as int],
            ) && spec_equip_post(
                old(creatures)@[current as int],
                final(creatures)@[current as int],
                *item_pick,
                *unequip_pick,
                e,
            ))),
    {
        match Actions::from(action) {
            Actions::USE => TurnOutcome::Used,
            Actions::OPEN => TurnOutcome::Opened,
            Actions::WATCH => {
                if creatures[current].playable {
                    TurnOutcome::Watched(None)
                } else {
                    let seen = Self::ai_watch_action(creatures, current);
                    TurnOutcome::Watched(seen)
                }
            },
            Actions::WALK_TO => {
                match input {
                    ActionInput::Walk { destination } => {
                        let dest = *destination;
                        let pawn = &mut creatures[current];
                        let w = Self::walk_action(room, pawn, places_id, dest);
                        TurnOutcome::Walked(w)
                    },
                    _ => {
                        proof {
                            assert(false);
                        }
                        TurnOutcome::Opened
                    },
                }
            },
            Actions::ATTACK => {
                match input {
                    ActionInput::Attack { weapon_or_spell, spell_choice, target_pick } => {
                        let o = Self::attack_action(
                            creatures,
                            current,
                            room,
                            *weapon_or_spell,
                            *spell_choice,
                            *target_pick,
                        );
                        TurnOutcome::Attacked(o)
                    },
                    _ => {
                        proof {
                            assert(false);
                        }
                        TurnOutcome::Opened
                    },
                }
            },
            Actions::EQUIP => {
                match input {
                    ActionInput::Equip { item_pick, unequip_pick } => {
                        let pawn = &mut creatures[current];
                        let e = Self::equip_item(pawn, *item_pick, *unequip_pick);
                        TurnOutcome::Equipped(e)
                    },
                    _ => {
                        proof {
                            assert(false);
                        }
                        TurnOutcome::Opened
                    },
                }
            },
        }
    }
}

/// Whether a tile code appears among the adjacent places' ids, which makes
/// it a door.
fn contains_tile(places_id: &Vec<u8>, tile: u8) -> (r: bool)
    ensures
        r == places_id@.contains(tile),
{
    let mut i: usize = 0;
    while i < places_id.len()
        invariant
            i <= places_id@.len(),
            forall|j: int| 0 <= j < i ==> places_id@[j] != tile,
        decreases places_id@.len() - i,
    {
        if places_id[i] == tile {
            proof {
                assert(places_id@.contains(tile));
            }
            return true;
        }
        i = i + 1;
    }
    false
}

/// The body part an unequip menu index names; anything unknown falls back
/// to the body slot, as the menu's last entry does.
pub open spec fn spec_part_from_index(pick: Option<usize>) -> PartToEquiEnum {
    match pick {
        Some(p) => if p == 0 {
            PartToEquiEnum::HEAD
        } else if p == 1 {
            PartToEquiEnum::FEET
        } else if p == 2 {
            PartToEquiEnum::LEGS
        } else if p == 3 {
            PartToEquiEnum::RIGHT_HAND
        } else if p == 4 {
            PartToEquiEnum::LEFT_HAND
        } else {
            PartToEquiEnum::BODY
        },
        None => PartToEquiEnum::BODY,
    }
}

/// What the equip action came to.
#[derive(Debug, PartialEq, Eq, Structural, Copy, Clone)]
pub enum EquipOutcome {
    /// The picked inventory item was dressed on its slot.
    Equipped,
    /// The named body part was cleared.
    UnEquipped(PartToEquiEnum),
}

/// What the equip action does to the acting pawn: a pick inside the
/// inventory dresses that item, while no pick or the extra entry just
/// past the inventory clears the body part the second pick names.
pub open spec fn spec_equip_post(
    before: Pawn,
    after: Pawn,
    item_pick: Option<usize>,
    unequip_pick: Option<usize>,
    r: EquipOutcome,
) -> bool {
    &&& (item_pick matches Some(i) && i < before.inventory@.len()) ==> r == EquipOutcome::Equipped
        && after == (Pawn {
        equipped: spec_equip(before.equipped, before.inventory@[item_pick->0 as int]),
        ..before
    })
    &&& (item_pick is None || item_pick == Some(before.inventory@.len() as usize)) ==> r
        == EquipOutcome::UnEquipped(spec_part_from_index(unequip_pick)) && after == (Pawn {
        equipped: spec_de_equip(before.equipped, spec_part_from_index(unequip_pick)),
        ..before
    })
}

impl Actions {
    /// The executable counterpart of `spec_part_from_index`.
    pub fn part_from_index(pick: Option<usize>) -> (r: PartToEquiEnum)
        ensures
            r == spec_part_from_index(pick),
    {
        match pick {
            Some(p) => {
                if p == 0 {
                    PartToEquiEnum::HEAD
                } else if p == 1 {
                    PartToEquiEnum::FEET
                } else if p == 2 {
                    PartToEquiEnum::LEGS
                } else if p == 3 {
                    PartToEquiEnum::RIGHT_HAND
                } else if p == 4 {
                    PartToEquiEnum::LEFT_HAND
                } else {
                    PartToEquiEnum::BODY
                }
            },
            None => PartToEquiEnum::BODY,
        }
    }

    /// Equip the picked inventory item; when the pick is the extra
    /// "unequip" entry past the inventory, or nothing at all, clear the
    /// body part named by the second pick instead.
    pub fn equip_item(
        player: &mut Pawn,
        item_pick: Option<usize>,
        unequip_pick: Option<usize>,
    ) -> (r: EquipOutcome)
        requires
            item_pick matches Some(i) ==> i <= old(player).inventory@.len(),
        ensures
            spec_equip_post(*old(player), *final(player), item_pick, unequip_pick, r),
    {
        let unequip = match item_pick {
            Some(i) => i >= player.inventory.len(),
            None => true,
        };
        if unequip {
            let part = Self::part_from_index(unequip_pick);
            player.de_equip(part);
            EquipOutcome::UnEquipped(part)
        } else {
            let i = match item_pick {
                Some(i) => i,
                None => 0,
            };
            let item = player.inventory[i].duplicate();
            player.equip(item);
            EquipOutcome::Equipped
        }
    }
}

} // verus!

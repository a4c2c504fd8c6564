//! An encounter: two rosters on a battlefield, the turn queue that schedules them,
//! and the hazards that lie about. It carries each unit through the start and the
//! end of its turn, and lets a unit without a player act for itself.

use vstd::prelude::*;
use crate::ai::{
    ai_move_towards, choose_ability, lemma_preferred_ability, manhattan, manhattan_distance,
    nearest_index, nearest_unit, preferred_ability, walked, walking_steps,
};
use crate::audio::AudioSystem;
use crate::combat::{
    ability_check, ability_spent, after_attacking, after_damage, attack_affordable, attack_fits,
    attack_outcome, effect_applied, effect_fits, fits_i32, rotated, strike, use_ability,
    CameraState, CombatPhase, EnvironmentalEffect, TurnQueue,
};
use crate::grid::GridMap;
use crate::models::{Permille, Position, Stats, Unit};

verus! {

/// Where a unit of an encounter is held: in which roster, and at which index.
#[derive(Debug, Clone, Copy, PartialEq, Eq, Structural)]
pub enum UnitSlot {
    Player(usize),
    Enemy(usize),
}

/// The index of the first unit of `units`, from the index `from` on, whose id is `id`.
pub open spec fn first_with_id(units: Seq<Unit>, id: Seq<char>, from: int) -> Option<int>
    decreases units.len() - from,
{
    if from < 0 || from >= units.len() {
        None
    } else if units[from].id@ == id {
        Some(from)
    } else {
        first_with_id(units, id, from + 1)
    }
}

/// Where the unit with the id `id` is held: the first player unit with that id, or,
/// where there is none, the first enemy unit with it.
pub open spec fn slot_of(players: Seq<Unit>, enemies: Seq<Unit>, id: Seq<char>) -> Option<UnitSlot> {
    match first_with_id(players, id, 0) {
        Some(i) => Some(UnitSlot::Player(i as usize)),
        None => match first_with_id(enemies, id, 0) {
            Some(i) => Some(UnitSlot::Enemy(i as usize)),
            None => None,
        },
    }
}

/// The ids of `units`, in order, as plain text.
pub open spec fn unit_ids(units: Seq<Unit>) -> Seq<Seq<char>> {
    Seq::new(units.len(), |i: int| units[i].id@)
}

/// The index of the first unit of `units` whose id is `id`.
pub fn find_unit(units: &Vec<Unit>, id: &String) -> (found: Option<usize>)
    ensures
        match found {
            Some(i) => first_with_id(units@, id@, 0) == Some(i as int) && i < units@.len(),
            None => first_with_id(units@, id@, 0) is None,
        },
        found matches Some(i) ==> units@[i as int].id@ == id@,
        forall|j: int|
            0 <= j < units@.len() && (found matches Some(i) ==> j < i) ==> units@[j].id@ != id@,
{
    let mut k: usize = 0;
    while k < units.len()
        invariant
            k <= units@.len(),
            first_with_id(units@, id@, 0) == first_with_id(units@, id@, k as int),
            forall|j: int| 0 <= j < k ==> units@[j].id@ != id@,
        decreases units@.len() - k,
    {
        if units[k].id == *id {
            return Some(k);
        }
        k += 1;
    }
    None
}

/// Whether `cells` holds `pos`.
pub fn cells_contain(cells: &Vec<Position>, pos: &Position) -> (found: bool)
    ensures
        found == cells@.contains(*pos),
{
    let mut k: usize = 0;
    while k < cells.len()
        invariant
            k <= cells@.len(),
            forall|i: int| 0 <= i < k ==> cells@[i] != *pos,
        decreases cells@.len() - k,
    {
        if cells[k] == *pos {
            return true;
        }
        k += 1;
    }
    false
}

/// `unit` after it has begun a turn under `effect`: fire on its cell burns it, acid
/// on its cell scales its agility, and smoke does nothing to it.
pub open spec fn exposed_to(effect: EnvironmentalEffect, unit: Unit) -> Unit {
    match effect {
        EnvironmentalEffect::FirePatch { grid_cells, damage_per_turn } => if grid_cells@.contains(
            unit.grid_position,
        ) {
            Unit { health_points: (unit.health_points - damage_per_turn) as i32, ..unit }
        } else {
            unit
        },
        EnvironmentalEffect::AcidPool { grid_cells, movement_penalty } => if grid_cells@.contains(
            unit.grid_position,
        ) {
            Unit {
                current_stats: Stats {
                    agility: movement_penalty.scaled(unit.current_stats.agility as int) as i32,
                    ..unit.current_stats
                },
                ..unit
            }
        } else {
            unit
        },
        EnvironmentalEffect::SmokeCloud { .. } => unit,
    }
}

/// Whether the health that `exposed_to` leaves can be held in an `i32`.
pub open spec fn exposure_fits(effect: EnvironmentalEffect, unit: Unit) -> bool {
    match effect {
        EnvironmentalEffect::FirePatch { grid_cells, damage_per_turn } => grid_cells@.contains(
            unit.grid_position,
        ) ==> fits_i32(unit.health_points - damage_per_turn),
        _ => true,
    }
}

/// `unit` after it has begun a turn under each of `effects`, in order.
pub open spec fn exposed(effects: Seq<EnvironmentalEffect>, unit: Unit) -> Unit
    decreases effects.len(),
{
    if effects.len() == 0 {
        unit
    } else {
        exposed_to(effects.last(), exposed(effects.drop_last(), unit))
    }
}

/// Whether the health of `unit` can be held in an `i32` after each of `effects`.
pub open spec fn exposures_fit(effects: Seq<EnvironmentalEffect>, unit: Unit) -> bool
    decreases effects.len(),
{
    if effects.len() == 0 {
        true
    } else {
        exposures_fit(effects.drop_last(), unit) && exposure_fits(
            effects.last(),
            exposed(effects.drop_last(), unit),
        )
    }
}

/// An effect one turn later: smoke has one turn less to stay, and smoke that has no
/// turn left is gone. Other effects stay as they are.
pub open spec fn aged(effect: EnvironmentalEffect) -> Option<EnvironmentalEffect> {
    match effect {
        EnvironmentalEffect::SmokeCloud { center, radius, turns_remaining } => if turns_remaining
            <= 1 {
            None
        } else {
            Some(
                EnvironmentalEffect::SmokeCloud {
                    center,
                    radius,
                    turns_remaining: (turns_remaining - 1) as u32,
                },
            )
        },
        _ => Some(effect),
    }
}

/// The effects one turn later, in their order.
pub open spec fn ticked(effects: Seq<EnvironmentalEffect>) -> Seq<EnvironmentalEffect>
    decreases effects.len(),
{
    if effects.len() == 0 {
        effects
    } else {
        match aged(effects.last()) {
            Some(effect) => ticked(effects.drop_last()).push(effect),
            None => ticked(effects.drop_last()),
        }
    }
}

/// Begins the turn of `unit`: refreshes its equipment, then exposes it to each of
/// `effects` in order.
pub fn begin_turn(unit: &mut Unit, effects: &Vec<EnvironmentalEffect>)
    requires
        old(unit).equipment_fits(),
        exposures_fit(effects@, old(unit).refreshed()),
    ensures
        *final(unit) == exposed(effects@, old(unit).refreshed()),
{
    unit.apply_equipment();
    let mut k: usize = 0;
    while k < effects.len()
        invariant
            k <= effects@.len(),
            exposures_fit(effects@, old(unit).refreshed()),
            exposures_fit(effects@.take(k as int), old(unit).refreshed()),
            *unit == exposed(effects@.take(k as int), old(unit).refreshed()),
        decreases effects@.len() - k,
    {
        proof {
            let longer = effects@.take(k + 1);
            assert(longer.drop_last() =~= effects@.take(k as int));
            assert(longer.last() == effects@[k as int]);
            lemma_exposures_fit_prefix(effects@, old(unit).refreshed(), k + 1);
        }
        match &effects[k] {
            EnvironmentalEffect::FirePatch { grid_cells, damage_per_turn } => {
                if cells_contain(grid_cells, &unit.grid_position) {
                    unit.health_points -= *damage_per_turn;
                }
            },
            EnvironmentalEffect::AcidPool { grid_cells, movement_penalty } => {
                if cells_contain(grid_cells, &unit.grid_position) {
                    unit.current_stats.agility = movement_penalty.scale(unit.current_stats.agility);
                }
            },
            EnvironmentalEffect::SmokeCloud { .. } => {},
        }
        k += 1;
    }
    assert(effects@.take(effects@.len() as int) =~= effects@);
}

/// Effects that fit, fit up to any point.
pub proof fn lemma_exposures_fit_prefix(effects: Seq<EnvironmentalEffect>, unit: Unit, n: int)
    requires
        exposures_fit(effects, unit),
        0 <= n <= effects.len(),
    ensures
        exposures_fit(effects.take(n), unit),
    decreases effects.len(),
{
    if n == effects.len() {
        assert(effects.take(n) =~= effects);
    } else {
        lemma_exposures_fit_prefix(effects.drop_last(), unit, n);
        assert(effects.drop_last().take(n) =~= effects.take(n));
    }
}

/// Lets one turn pass for `effects`: smoke has one turn less to stay, and smoke that
/// has no turn left is taken away.
pub fn tick_effects(effects: &mut Vec<EnvironmentalEffect>)
    ensures
        final(effects)@ == ticked(old(effects)@),
{
    let ghost initial = effects@;
    let ghost mut seen: int = 0;
    let mut i: usize = 0;
    assert(effects@.take(0) =~= ticked(initial.take(0)));
    assert(effects@.skip(0) =~= initial.skip(0));
    while i < effects.len()
        invariant
            0 <= seen <= initial.len(),
            i <= effects@.len(),
            effects@.len() - i == initial.len() - seen,
            effects@.take(i as int) == ticked(initial.take(seen)),
            effects@.skip(i as int) == initial.skip(seen),
        decreases initial.len() - seen,
    {
        let ghost before = effects@;
        let smoke = match &effects[i] {
            EnvironmentalEffect::SmokeCloud { center, radius, turns_remaining } => Some(
                (*center, *radius, *turns_remaining),
            ),
            _ => None,
        };
        proof {
            assert(before[i as int] == before.skip(i as int)[0]);
            assert(initial[seen] == initial.skip(seen)[0]);
            let longer = initial.take(seen + 1);
            assert(longer.drop_last() =~= initial.take(seen));
            assert(longer.last() == initial[seen]);
        }
        match smoke {
            Some((center, radius, turns_remaining)) => {
                if turns_remaining <= 1 {
                    effects.remove(i);
                    proof {
                        assert(effects@.take(i as int) =~= before.take(i as int));
                        assert(effects@.skip(i as int) =~= before.skip(i as int).skip(1));
                        assert(initial.skip(seen + 1) =~= initial.skip(seen).skip(1));
                    }
                } else {
                    effects[i] = EnvironmentalEffect::SmokeCloud {
                        center,
                        radius,
                        turns_remaining: turns_remaining - 1,
                    };
                    proof {
                        assert(effects@.take(i + 1) =~= before.take(i as int).push(effects@[i as int]));
                        assert(effects@.skip(i + 1) =~= before.skip(i as int).skip(1));
                        assert(initial.skip(seen + 1) =~= initial.skip(seen).skip(1));
                    }
                    i += 1;
                }
            },
            None => {
                proof {
                    assert(effects@.take(i + 1) =~= before.take(i as int).push(before[i as int]));
                    assert(effects@.skip(i + 1) =~= before.skip(i as int).skip(1));
                    assert(initial.skip(seen + 1) =~= initial.skip(seen).skip(1));
                }
                i += 1;
            },
        }
        proof {
            seen = seen + 1;
        }
    }
    assert(effects@.take(effects@.len() as int) =~= effects@);
    assert(initial.take(initial.len() as int) =~= initial);
}

/// A battle in progress.
#[derive(Debug, Clone)]
pub struct CombatEncounter {
    pub player_units: Vec<Unit>,
    pub enemy_units: Vec<Unit>,
    pub battlefield: GridMap,
    pub turn_order: TurnQueue,
    /// Which part of a turn the encounter is in. It is kept, and nothing acts on it.
    pub current_phase: CombatPhase,
    pub environmental_effects: Vec<EnvironmentalEffect>,
    pub camera_state: CameraState,
}

/// What the enemy unit `enemy` does about the player unit `target`, and what that
/// leaves the two as.
///
/// It uses the ability it prefers, if it can use any on the target. If not, and it has
/// a weapon with the target in range, it attacks with it. If not, it walks toward the
/// target.
pub open spec fn ai_acts(
    map: GridMap,
    enemy: Unit,
    target: Unit,
    roll: u8,
    enemy_after: Unit,
    target_after: Unit,
) -> bool {
    let distance = manhattan_distance(enemy.grid_position, target.grid_position);
    match preferred_ability(enemy, distance, enemy.abilities@.len() as int) {
        Some(a) => {
            &&& ability_spent(enemy, enemy_after, a)
            &&& effect_applied(enemy.abilities@[a].effect, target, target_after)
        },
        None => match enemy.equipment.weapon {
            Some(weapon) if distance <= weapon.range => if attack_affordable(
                enemy,
                weapon.action_point_cost,
            ) {
                &&& enemy_after == after_attacking(enemy, weapon.action_point_cost)
                &&& target_after == after_damage(
                    target,
                    attack_outcome(enemy, weapon.damage, weapon.accuracy, target, roll, 0).damage,
                )
            } else {
                enemy_after == enemy && target_after == target
            },
            _ => {
                &&& enemy_after == (Unit {
                    grid_position: walked(
                        map,
                        enemy.grid_position,
                        target.grid_position,
                        walking_steps(enemy),
                    ),
                    ..enemy
                })
                &&& target_after == target
            },
        },
    }
}

/// Whether what `ai_acts` leaves the two units with can be held in an `i32`.
pub open spec fn ai_fits(enemy: Unit, target: Unit, roll: u8) -> bool {
    let distance = manhattan_distance(enemy.grid_position, target.grid_position);
    match preferred_ability(enemy, distance, enemy.abilities@.len() as int) {
        Some(a) => effect_fits(enemy.abilities@[a].effect, target),
        None => match enemy.equipment.weapon {
            Some(weapon) if distance <= weapon.range => attack_fits(
                enemy,
                weapon.damage,
                weapon.accuracy,
                weapon.action_point_cost,
                target,
                roll,
                0,
            ),
            _ => true,
        },
    }
}

impl CombatEncounter {
    /// The unit held in `slot`.
    pub open spec fn unit_at(&self, slot: UnitSlot) -> Unit {
        match slot {
            UnitSlot::Player(i) => self.player_units@[i as int],
            UnitSlot::Enemy(i) => self.enemy_units@[i as int],
        }
    }

    /// Where the unit with the id `id` is held.
    pub open spec fn slot_of(&self, id: Seq<char>) -> Option<UnitSlot> {
        slot_of(self.player_units@, self.enemy_units@, id)
    }

    /// Where the unit that is next in the queue is held.
    pub open spec fn next_slot(&self) -> Option<UnitSlot> {
        if self.turn_order.order().len() > 0 {
            self.slot_of(self.turn_order.order()[0])
        } else {
            None
        }
    }

    /// Where the unit whose turn it is is held.
    pub open spec fn current_slot(&self) -> Option<UnitSlot> {
        match self.turn_order.current_unit_id {
            Some(id) => self.slot_of(id@),
            None => None,
        }
    }

    /// The index of the enemy unit whose turn it is.
    pub open spec fn acting_enemy(&self) -> Option<int> {
        match self.turn_order.current_unit_id {
            Some(id) => first_with_id(self.enemy_units@, id@, 0),
            None => None,
        }
    }

    /// `after` is this encounter with the unit in `slot` replaced by `unit`.
    pub open spec fn with_unit(&self, after: CombatEncounter, slot: UnitSlot, unit: Unit) -> bool {
        match slot {
            UnitSlot::Player(i) => {
                &&& after.player_units@ == self.player_units@.update(i as int, unit)
                &&& after.enemy_units@ == self.enemy_units@
            },
            UnitSlot::Enemy(i) => {
                &&& after.player_units@ == self.player_units@
                &&& after.enemy_units@ == self.enemy_units@.update(i as int, unit)
            },
        }
    }

    /// `after` holds the units of this encounter, unchanged.
    pub open spec fn same_units(&self, after: CombatEncounter) -> bool {
        &&& after.player_units@ == self.player_units@
        &&& after.enemy_units@ == self.enemy_units@
    }

    /// `after` has the battlefield, the phase, the hazards and the camera of this encounter.
    pub open spec fn same_scene(&self, after: CombatEncounter) -> bool {
        &&& after.battlefield == self.battlefield
        &&& after.current_phase == self.current_phase
        &&& after.environmental_effects == self.environmental_effects
        &&& after.camera_state == self.camera_state
    }

    /// An encounter between the two rosters on `battlefield`: every unit is queued,
    /// players first, nobody is at turn, and no hazard lies about. The track `combat`
    /// is asked of `audio`.
    pub fn new(
        player_units: Vec<Unit>,
        enemy_units: Vec<Unit>,
        battlefield: GridMap,
        audio: Option<&mut AudioSystem>,
    ) -> (encounter: Self)
        ensures
            encounter.player_units == player_units,
            encounter.enemy_units == enemy_units,
            encounter.battlefield == battlefield,
            encounter.turn_order.order() == unit_ids(player_units@) + unit_ids(enemy_units@),
            encounter.turn_order.current_unit_id is None,
            encounter.turn_order.round_number == 1,
            encounter.current_phase == CombatPhase::Movement,
            encounter.environmental_effects@.len() == 0,
            encounter.camera_state == (CameraState {
                x_offset: Permille { thousandths: 0 },
                y_offset: Permille { thousandths: 0 },
                zoom_level: Permille { thousandths: 1000 },
            }),
            match audio {
                Some(system) => system.track_set(*final(system), "combat"@),
                None => true,
            },
    {
        let mut turn_order = TurnQueue::new();
        let mut k: usize = 0;
        while k < player_units.len()
            invariant
                k <= player_units@.len(),
                turn_order.order() == unit_ids(player_units@.take(k as int)),
                turn_order.current_unit_id is None,
                turn_order.round_number == 1,
            decreases player_units@.len() - k,
        {
            turn_order.add_unit(player_units[k].id.clone());
            assert(unit_ids(player_units@.take(k + 1)) =~= unit_ids(player_units@.take(k as int)).push(
                player_units@[k as int].id@,
            ));
            k += 1;
        }
        assert(player_units@.take(player_units@.len() as int) =~= player_units@);
        let mut k: usize = 0;
        while k < enemy_units.len()
            invariant
                k <= enemy_units@.len(),
                turn_order.order() == unit_ids(player_units@) + unit_ids(enemy_units@.take(k as int)),
                turn_order.current_unit_id is None,
                turn_order.round_number == 1,
            decreases enemy_units@.len() - k,
        {
            turn_order.add_unit(enemy_units[k].id.clone());
            assert(unit_ids(enemy_units@.take(k + 1)) =~= unit_ids(enemy_units@.take(k as int)).push(
                enemy_units@[k as int].id@,
            ));
            assert(unit_ids(player_units@) + unit_ids(enemy_units@.take(k + 1)) =~= (unit_ids(
                player_units@,
            ) + unit_ids(enemy_units@.take(k as int))).push(enemy_units@[k as int].id@));
            k += 1;
        }
        assert(enemy_units@.take(enemy_units@.len() as int) =~= enemy_units@);
        if let Some(system) = audio {
            system.play_background_music("combat");
        }
        CombatEncounter {
            player_units,
            enemy_units,
            battlefield,
            turn_order,
            current_phase: CombatPhase::Movement,
            environmental_effects: Vec::new(),
            camera_state: CameraState {
                x_offset: Permille { thousandths: 0 },
                y_offset: Permille { thousandths: 0 },
                zoom_level: Permille { thousandths: 1000 },
            },
        }
    }

    /// Where the unit with the id `id` is held: among the player units if one of them
    /// has that id, among the enemy units otherwise.
    pub fn locate(&self, id: &String) -> (slot: Option<UnitSlot>)
        ensures
            slot == self.slot_of(id@),
            match slot {
                Some(UnitSlot::Player(i)) => i < self.player_units@.len(),
                Some(UnitSlot::Enemy(i)) => i < self.enemy_units@.len(),
                None => true,
            },
    {
        match find_unit(&self.player_units, id) {
            Some(i) => Some(UnitSlot::Player(i)),
            None => match find_unit(&self.enemy_units, id) {
                Some(i) => Some(UnitSlot::Enemy(i)),
                None => None,
            },
        }
    }

    /// Whether the turn that `start_turn` begins stays within `i32`: the unit that is
    /// next can refresh its equipment, and its health can be held after each hazard.
    pub open spec fn start_fits(&self) -> bool {
        self.next_slot() matches Some(slot) ==> {
            &&& self.unit_at(slot).equipment_fits()
            &&& exposures_fit(self.environmental_effects@, self.unit_at(slot).refreshed())
        }
    }

    /// `after` is this encounter with the turn of the next unit begun: the queue has
    /// moved on, and the unit that is now at turn, if the encounter holds it, has
    /// refreshed its equipment and then met each hazard.
    pub open spec fn turn_started(&self, after: CombatEncounter) -> bool {
        &&& self.same_scene(after)
        &&& after.turn_order.order() == rotated(self.turn_order.order())
        &&& after.turn_order.round_number == self.turn_order.round_number
        &&& after.turn_order.current() == if self.turn_order.order().len() > 0 {
            Some(self.turn_order.order()[0])
        } else {
            self.turn_order.current()
        }
        &&& match self.next_slot() {
            Some(slot) => self.with_unit(
                after,
                slot,
                exposed(self.environmental_effects@, self.unit_at(slot).refreshed()),
            ),
            None => self.same_units(after),
        }
    }

    /// Begins the turn of the unit at the front of the queue: the queue moves on, and
    /// the unit, if the encounter holds it, refreshes its equipment and then meets each
    /// hazard in order. With an empty queue nothing happens.
    pub fn start_turn(&mut self)
        requires
            old(self).start_fits(),
        ensures
            old(self).turn_started(*final(self)),
    {
        let next = self.turn_order.next_turn();
        if let Some(id) = next {
            match self.locate(&id) {
                Some(UnitSlot::Player(i)) => {
                    begin_turn(&mut self.player_units[i], &self.environmental_effects);
                },
                Some(UnitSlot::Enemy(i)) => {
                    begin_turn(&mut self.enemy_units[i], &self.environmental_effects);
                },
                None => {},
            }
        }
    }

    /// Whether the unit whose turn `end_turn` ends can refresh its equipment.
    pub open spec fn end_fits(&self) -> bool {
        self.current_slot() matches Some(slot) ==> self.unit_at(slot).equipment_fits()
    }

    /// `after` is this encounter with the turn ended: the unit at turn, if the
    /// encounter holds it, has refreshed its equipment, and one turn has passed for
    /// the hazards.
    pub open spec fn turn_ended(&self, after: CombatEncounter) -> bool {
        &&& after.battlefield == self.battlefield
        &&& after.current_phase == self.current_phase
        &&& after.camera_state == self.camera_state
        &&& after.turn_order == self.turn_order
        &&& after.environmental_effects@ == ticked(self.environmental_effects@)
        &&& match self.current_slot() {
            Some(slot) => self.with_unit(after, slot, self.unit_at(slot).refreshed()),
            None => self.same_units(after),
        }
    }

    /// Ends the turn: the unit at turn, if the encounter holds it, refreshes its
    /// equipment, which undoes what hazards and abilities did to its current
    /// statistics; then smoke has one turn less to stay, and smoke with no turn left
    /// is taken away.
    pub fn end_turn(&mut self)
        requires
            old(self).end_fits(),
        ensures
            old(self).turn_ended(*final(self)),
    {
        let slot = match &self.turn_order.current_unit_id {
            Some(id) => self.locate(id),
            None => None,
        };
        match slot {
            Some(UnitSlot::Player(i)) => {
                self.player_units[i].apply_equipment();
            },
            Some(UnitSlot::Enemy(i)) => {
                self.enemy_units[i].apply_equipment();
            },
            None => {},
        }
        tick_effects(&mut self.environmental_effects);
    }

    /// Whether `enemy_ai_action` can act: if an enemy unit is at turn, there is a
    /// player unit to go for, and what the action leaves the two with can be held
    /// in an `i32`.
    pub open spec fn ai_ready(&self, roll: u8) -> bool {
        &&& self.battlefield.wf()
        &&& self.acting_enemy() matches Some(e) ==> {
            &&& self.player_units@.len() > 0
            &&& ai_fits(
                self.enemy_units@[e],
                self.player_units@[nearest_index(
                    self.player_units@,
                    self.enemy_units@[e].grid_position,
                )],
                roll,
            )
        }
    }

    /// `after` is this encounter with the enemy unit at turn having acted on the
    /// player unit nearest to it. Where no enemy unit is at turn, nothing has changed.
    pub open spec fn ai_acted(&self, after: CombatEncounter, roll: u8) -> bool {
        &&& self.same_scene(after)
        &&& after.turn_order == self.turn_order
        &&& match self.acting_enemy() {
            Some(e) => {
                let enemy = self.enemy_units@[e];
                let t = nearest_index(self.player_units@, enemy.grid_position);
                &&& after.enemy_units@ == self.enemy_units@.update(e, after.enemy_units@[e])
                &&& after.player_units@ == self.player_units@.update(t, after.player_units@[t])
                &&& ai_acts(
                    self.battlefield,
                    enemy,
                    self.player_units@[t],
                    roll,
                    after.enemy_units@[e],
                    after.player_units@[t],
                )
            },
            None => self.same_units(after),
        }
    }

    /// Lets the enemy unit at turn act: it goes for the player unit nearest to it,
    /// with the ability it prefers, or else with its weapon if the target is in range,
    /// or else by walking toward it. Where no enemy unit is at turn, nothing happens.
    pub fn enemy_ai_action(&mut self, roll: u8)
        requires
            old(self).ai_ready(roll),
        ensures
            old(self).ai_acted(*final(self), roll),
    {
        let found = match &self.turn_order.current_unit_id {
            Some(id) => find_unit(&self.enemy_units, id),
            None => None,
        };
        let e = match found {
            Some(e) => e,
            None => {
                return ;
            },
        };
        let enemy_pos = self.enemy_units[e].grid_position;
        let t = nearest_unit(&self.player_units, &enemy_pos);
        let target_pos = self.player_units[t].grid_position;
        let distance = manhattan(&enemy_pos, &target_pos);
        proof {
            lemma_preferred_ability(
                self.enemy_units@[e as int],
                distance as int,
                self.enemy_units@[e as int].abilities@.len() as int,
            );
        }

        if let Some(a) = choose_ability(&self.enemy_units[e], distance) {
            assert(ability_check(self.enemy_units@[e as int], a) is Ok);
            let _ = use_ability(
                &mut self.enemy_units[e],
                a,
                &mut [&mut self.player_units[t]],
                None,
            );
            return ;
        }
        let weapon = match &self.enemy_units[e].equipment.weapon {
            Some(weapon) => Some(
                (weapon.damage, weapon.accuracy, weapon.action_point_cost, weapon.range),
            ),
            None => None,
        };
        if let Some((damage, accuracy, cost, range)) = weapon {
            if distance <= range as u128 {
                let _ = strike(
                    &mut self.enemy_units[e],
                    damage,
                    accuracy,
                    cost,
                    &mut self.player_units[t],
                    roll,
                    0,
                );
                return ;
            }
        }
        ai_move_towards(&mut self.enemy_units[e], &target_pos, &self.battlefield);
        assert(self.player_units@ =~= old(self).player_units@.update(
            t as int,
            self.player_units@[t as int],
        ));
    }

    /// Whether a whole enemy turn stays within `i32`: the turn can begin, whatever it
    /// begins as can be acted in, and whatever comes of the action can be ended.
    pub open spec fn enemy_turn_fits(&self, roll: u8) -> bool {
        &&& self.start_fits()
        &&& forall|started: CombatEncounter| #[trigger]
            self.turn_started(started) ==> {
                &&& started.ai_ready(roll)
                &&& forall|acted: CombatEncounter| #[trigger]
                    started.ai_acted(acted, roll) ==> acted.end_fits()
            }
    }

    /// Runs the turn of the unit at the front of the queue as an enemy turn:
    /// `start_turn`, then `enemy_ai_action`, then `end_turn`.
    pub fn run_enemy_turn(&mut self, roll: u8)
        requires
            old(self).enemy_turn_fits(roll),
        ensures
            exists|started: CombatEncounter, acted: CombatEncounter|
                {
                    &&& old(self).turn_started(started)
                    &&& started.ai_acted(acted, roll)
                    &&& acted.turn_ended(*final(self))
                },
    {
        self.start_turn();
        let ghost started = *self;
        self.enemy_ai_action(roll);
        let ghost acted = *self;
        self.end_turn();
        assert(old(self).turn_started(started) && started.ai_acted(acted, roll) && acted.turn_ended(
            *self,
        ));
    }
}

} // verus!

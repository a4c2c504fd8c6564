//! Attack and ability resolution, the turn queue, and cooldowns.

use vstd::prelude::*;
use std::collections::VecDeque;
use crate::audio::AudioSystem;
pub use crate::encounter::CombatEncounter;
use crate::models::{
    Ability, AbilityEffect, AnimationState, AnimationType, Permille, Position, Stats,
    StatsModifier, StatusEffect, Unit,
};

verus! {

/// What an attack came to.
#[derive(Debug, Clone, Copy, PartialEq, Eq, Structural)]
pub struct AttackResult {
    pub hit: bool,
    pub damage: i32,
}

/// Why an ability could not be used.
#[derive(Debug, Clone, Copy, PartialEq, Eq, Structural)]
pub enum AbilityError {
    /// The unit has no ability at that index.
    InvalidAbility,
    /// The unit has fewer action points than the ability costs.
    InsufficientAP,
    /// The ability is still cooling down.
    OnCooldown,
}

impl AbilityError {
    /// A short description of the error.
    pub fn message(&self) -> (text: &'static str)
        ensures
            text@ == match *self {
                AbilityError::InvalidAbility => "invalid ability"@,
                AbilityError::InsufficientAP => "not enough AP"@,
                AbilityError::OnCooldown => "ability on cooldown"@,
            },
    {
        match self {
            AbilityError::InvalidAbility => "invalid ability",
            AbilityError::InsufficientAP => "not enough AP",
            AbilityError::OnCooldown => "ability on cooldown",
        }
    }
}

/// Ten times the chance to hit: ten for each point of the attacker's agility and a
/// hundred for the weapon's full accuracy, less ten for each point of the defender's
/// agility and the cover bonus.
pub open spec fn hit_chance_tenths(
    attacker_agility: i32,
    accuracy: Permille,
    defender_agility: i32,
    cover_bonus: i32,
) -> int {
    100 * attacker_agility + accuracy.thousandths - (100 * defender_agility + 10 * cover_bonus)
}

/// An attack hits when the roll is no more than the chance to hit.
pub open spec fn attack_lands(
    attacker: Unit,
    accuracy: Permille,
    defender: Unit,
    roll: u8,
    cover_bonus: i32,
) -> bool {
    10 * roll <= hit_chance_tenths(
        attacker.current_stats.agility,
        accuracy,
        defender.current_stats.agility,
        cover_bonus,
    )
}

/// The damage of a hit before a critical: the weapon's damage and the attacker's
/// strength, less the defender's toughness, and never less than nothing.
pub open spec fn base_damage(attacker: Unit, weapon_damage: i32, defender: Unit) -> int {
    let raw = weapon_damage + attacker.current_stats.strength - defender.current_stats.toughness;
    if raw < 0 {
        0
    } else {
        raw
    }
}

/// The damage of a hit: a roll of ten or less doubles it.
pub open spec fn hit_damage(attacker: Unit, weapon_damage: i32, defender: Unit, roll: u8) -> int {
    if roll <= 10 {
        2 * base_damage(attacker, weapon_damage, defender)
    } else {
        base_damage(attacker, weapon_damage, defender)
    }
}

/// Whether the attack can be paid for.
pub open spec fn attack_affordable(attacker: Unit, action_point_cost: u32) -> bool {
    attacker.action_points >= action_point_cost
}

/// Whether what the attack deals and what it leaves of the defender's health can be
/// held in an `i32`.
pub open spec fn attack_fits(
    attacker: Unit,
    weapon_damage: i32,
    accuracy: Permille,
    action_point_cost: u32,
    defender: Unit,
    roll: u8,
    cover_bonus: i32,
) -> bool {
    attack_affordable(attacker, action_point_cost) && attack_lands(
        attacker,
        accuracy,
        defender,
        roll,
        cover_bonus,
    ) ==> {
        &&& hit_damage(attacker, weapon_damage, defender, roll) <= i32::MAX
        &&& defender.health_points - hit_damage(attacker, weapon_damage, defender, roll) >= i32::MIN
    }
}

/// What an attack that can be paid for returns.
pub open spec fn attack_outcome(
    attacker: Unit,
    weapon_damage: i32,
    accuracy: Permille,
    defender: Unit,
    roll: u8,
    cover_bonus: i32,
) -> AttackResult {
    if attack_lands(attacker, accuracy, defender, roll, cover_bonus) {
        AttackResult { hit: true, damage: hit_damage(attacker, weapon_damage, defender, roll) as i32 }
    } else {
        AttackResult { hit: false, damage: 0 }
    }
}

/// The attacker after an attack that it could pay for.
pub open spec fn after_attacking(attacker: Unit, action_point_cost: u32) -> Unit {
    Unit {
        action_points: (attacker.action_points - action_point_cost) as u32,
        animation_state: AnimationState {
            current_animation: AnimationType::Attack,
            ..attacker.animation_state
        },
        ..attacker
    }
}

/// The defender after an attack that dealt `damage`.
pub open spec fn after_damage(defender: Unit, damage: i32) -> Unit {
    Unit { health_points: (defender.health_points - damage) as i32, ..defender }
}

/// Resolves an attack with a weapon of the given damage, accuracy and cost.
///
/// An attacker that cannot pay the cost does nothing: the result is a miss, and nobody
/// changes. Otherwise the cost is paid and the attacker shows its attack animation,
/// hit or miss; a hit takes its damage off the defender's health.
pub fn strike(
    attacker: &mut Unit,
    weapon_damage: i32,
    accuracy: Permille,
    action_point_cost: u32,
    defender: &mut Unit,
    roll: u8,
    cover_bonus: i32,
) -> (result: AttackResult)
    requires
        attack_fits(
            *old(attacker),
            weapon_damage,
            accuracy,
            action_point_cost,
            *old(defender),
            roll,
            cover_bonus,
        ),
    ensures
        !attack_affordable(*old(attacker), action_point_cost) ==> {
            &&& result == (AttackResult { hit: false, damage: 0 })
            &&& *final(attacker) == *old(attacker)
            &&& *final(defender) == *old(defender)
        },
        attack_affordable(*old(attacker), action_point_cost) ==> {
            &&& result == attack_outcome(
                *old(attacker),
                weapon_damage,
                accuracy,
                *old(defender),
                roll,
                cover_bonus,
            )
            &&& *final(attacker) == after_attacking(*old(attacker), action_point_cost)
            &&& *final(defender) == after_damage(*old(defender), result.damage)
        },
{
    if attacker.action_points < action_point_cost {
        return AttackResult { hit: false, damage: 0 };
    }
    attacker.action_points -= action_point_cost;

    let hit_chance: i64 = (attacker.current_stats.agility as i64) * 100 + (
    accuracy.thousandths as i64) - ((defender.current_stats.agility as i64) * 100 + (
    cover_bonus as i64) * 10);

    let mut hit = false;
    let mut damage: i32 = 0;
    if (roll as i64) * 10 <= hit_chance {
        hit = true;
        let mut dealt: i64 = (weapon_damage as i64) + (attacker.current_stats.strength as i64) - (
        defender.current_stats.toughness as i64);
        if dealt < 0 {
            dealt = 0;
        }
        if roll <= 10 {
            dealt = dealt * 2;
        }
        damage = dealt as i32;
        defender.health_points -= damage;
    }
    attacker.animation_state.current_animation = AnimationType::Attack;

    AttackResult { hit, damage }
}

/// Resolves an attack of `attacker` on `defender` with `weapon`.
///
/// An attacker with fewer action points than the weapon costs does nothing: the result
/// is a miss, and nobody changes. Otherwise the cost is paid and the attacker shows its
/// attack animation, hit or miss. The attack hits when `roll` is no more than the chance
/// to hit; a hit takes its damage off the defender's health, and a roll of ten or less
/// doubles that damage.
pub fn resolve_attack(
    attacker: &mut Unit,
    weapon: &crate::models::Weapon,
    defender: &mut Unit,
    roll: u8,
    cover_bonus: i32,
) -> (result: AttackResult)
    requires
        attack_fits(
            *old(attacker),
            weapon.damage,
            weapon.accuracy,
            weapon.action_point_cost,
            *old(defender),
            roll,
            cover_bonus,
        ),
    ensures
        !attack_affordable(*old(attacker), weapon.action_point_cost) ==> {
            &&& result == (AttackResult { hit: false, damage: 0 })
            &&& *final(attacker) == *old(attacker)
            &&& *final(defender) == *old(defender)
        },
        attack_affordable(*old(attacker), weapon.action_point_cost) ==> {
            &&& result == attack_outcome(
                *old(attacker),
                weapon.damage,
                weapon.accuracy,
                *old(defender),
                roll,
                cover_bonus,
            )
            &&& *final(attacker) == after_attacking(*old(attacker), weapon.action_point_cost)
            &&& *final(defender) == after_damage(*old(defender), result.damage)
        },
        result.hit && roll <= 10 ==> result.damage == 2 * base_damage(
            *old(attacker),
            weapon.damage,
            *old(defender),
        ),
{
    strike(
        attacker,
        weapon.damage,
        weapon.accuracy,
        weapon.action_point_cost,
        defender,
        roll,
        cover_bonus,
    )
}

/// `stats` with `sign` times each adjustment of `modifier` added to its characteristic.
pub open spec fn modified(stats: Stats, modifier: StatsModifier, sign: int) -> Stats {
    Stats {
        strength: (stats.strength + modifier.strength_mod * sign) as i32,
        toughness: (stats.toughness + modifier.toughness_mod * sign) as i32,
        agility: (stats.agility + modifier.agility_mod * sign) as i32,
        intellect: (stats.intellect + modifier.intellect_mod * sign) as i32,
        willpower: (stats.willpower + modifier.willpower_mod * sign) as i32,
        fellowship: (stats.fellowship + modifier.fellowship_mod * sign) as i32,
        ..stats
    }
}

/// Whether `value` can be held in an `i32`.
pub open spec fn fits_i32(value: int) -> bool {
    i32::MIN <= value <= i32::MAX
}

/// Whether every characteristic that `modified` forms can be held in an `i32`.
pub open spec fn modification_fits(stats: Stats, modifier: StatsModifier, sign: int) -> bool {
    &&& fits_i32(stats.strength + modifier.strength_mod * sign)
    &&& fits_i32(stats.toughness + modifier.toughness_mod * sign)
    &&& fits_i32(stats.agility + modifier.agility_mod * sign)
    &&& fits_i32(stats.intellect + modifier.intellect_mod * sign)
    &&& fits_i32(stats.willpower + modifier.willpower_mod * sign)
    &&& fits_i32(stats.fellowship + modifier.fellowship_mod * sign)
}

/// `base` plus `sign` times `adjustment`.
fn adjusted(base: i32, adjustment: i32, sign: i32) -> (sum: i32)
    requires
        fits_i32(base + adjustment * sign),
    ensures
        sum == base + adjustment * sign,
{
    assert(-0x4000_0000_0000_0000 <= (adjustment as int) * (sign as int) <= 0x4000_0000_0000_0000)
        by (nonlinear_arith)
        requires
            -0x8000_0000 <= adjustment as int <= 0x7fff_ffff,
            -0x8000_0000 <= sign as int <= 0x7fff_ffff,
    ;
    let product: i64 = (adjustment as i64) * (sign as i64);
    ((base as i64) + product) as i32
}

/// Adds `sign` times each adjustment of `modifier` to its characteristic in `stats`.
pub fn modify_stats(stats: &mut Stats, modifier: &StatsModifier, sign: i32)
    requires
        modification_fits(*old(stats), *modifier, sign as int),
    ensures
        *final(stats) == modified(*old(stats), *modifier, sign as int),
{
    stats.strength = adjusted(stats.strength, modifier.strength_mod, sign);
    stats.toughness = adjusted(stats.toughness, modifier.toughness_mod, sign);
    stats.agility = adjusted(stats.agility, modifier.agility_mod, sign);
    stats.intellect = adjusted(stats.intellect, modifier.intellect_mod, sign);
    stats.willpower = adjusted(stats.willpower, modifier.willpower_mod, sign);
    stats.fellowship = adjusted(stats.fellowship, modifier.fellowship_mod, sign);
}

/// The health of `target` once `effect` has been applied: the damage comes off, then
/// the healing is added, and healing never lifts health above the target's maximum.
pub open spec fn health_after(effect: AbilityEffect, target: Unit) -> int {
    let damaged = match effect.damage {
        Some(damage) => target.health_points - damage,
        None => target.health_points as int,
    };
    match effect.healing {
        Some(healing) => if damaged + healing > target.current_stats.max_health {
            target.current_stats.max_health as int
        } else {
            damaged + healing
        },
        None => damaged,
    }
}

/// `stats` with the buff of `effect` added.
pub open spec fn buffed(effect: AbilityEffect, stats: Stats) -> Stats {
    match effect.buff {
        Some(buff) => modified(stats, buff, 1),
        None => stats,
    }
}

/// `stats` with the buff of `effect` added and its debuff taken off.
pub open spec fn stats_after(effect: AbilityEffect, stats: Stats) -> Stats {
    match effect.debuff {
        Some(debuff) => modified(buffed(effect, stats), debuff, -1),
        None => buffed(effect, stats),
    }
}

/// The status effects of a unit once `effect` has been applied: where the effect
/// applies a status, a record of it is appended, lasting as long as the effect says,
/// or one turn where it does not say.
pub open spec fn statuses_after(effect: AbilityEffect, statuses: Seq<StatusEffect>) -> Seq<
    StatusEffect,
> {
    match effect.status_applied {
        Some(status) => statuses.push(
            StatusEffect {
                effect_type: status,
                remaining_turns: match effect.duration {
                    Some(turns) => turns,
                    None => 1,
                },
                magnitude: 0,
            },
        ),
        None => statuses,
    }
}

/// Whether the health and the characteristics that `effect` leaves `target` with can
/// be held in an `i32`.
pub open spec fn effect_fits(effect: AbilityEffect, target: Unit) -> bool {
    &&& fits_i32(health_after(effect, target))
    &&& effect.buff matches Some(buff) ==> modification_fits(target.current_stats, buff, 1)
    &&& effect.debuff matches Some(debuff) ==> modification_fits(
        buffed(effect, target.current_stats),
        debuff,
        -1,
    )
}

/// `after` is `before` with `effect` applied: health, current statistics and status
/// effects are as the effect leaves them, and nothing else has changed.
pub open spec fn effect_applied(effect: AbilityEffect, before: Unit, after: Unit) -> bool {
    &&& after.health_points == health_after(effect, before)
    &&& after.current_stats == stats_after(effect, before.current_stats)
    &&& after.status_effects@ == statuses_after(effect, before.status_effects@)
    &&& after == (Unit {
        health_points: after.health_points,
        current_stats: after.current_stats,
        status_effects: after.status_effects,
        ..before
    })
}

/// Applies `effect` to `target`.
pub fn apply_ability_effect(effect: &AbilityEffect, target: &mut Unit)
    requires
        effect_fits(*effect, *old(target)),
    ensures
        effect_applied(*effect, *old(target), *final(target)),
{
    let mut health: i64 = target.health_points as i64;
    if let Some(damage) = effect.damage {
        health = health - (damage as i64);
    }
    if let Some(healing) = effect.healing {
        health = health + (healing as i64);
        if health > target.current_stats.max_health as i64 {
            health = target.current_stats.max_health as i64;
        }
    }
    target.health_points = health as i32;
    if let Some(buff) = effect.buff {
        modify_stats(&mut target.current_stats, &buff, 1);
    }
    if let Some(debuff) = effect.debuff {
        modify_stats(&mut target.current_stats, &debuff, -1);
    }
    if let Some(status) = effect.status_applied {
        target.status_effects.push(
            StatusEffect {
                effect_type: status,
                remaining_turns: match effect.duration {
                    Some(turns) => turns,
                    None => 1,
                },
                magnitude: 0,
            },
        );
    }
}

/// Whether `user` may use the ability at `ability_index`, and if not, why not.
/// The index is looked at first, then the action points, then the cooldown.
pub open spec fn ability_check(user: Unit, ability_index: usize) -> Result<(), AbilityError> {
    if ability_index >= user.abilities@.len() {
        Err(AbilityError::InvalidAbility)
    } else if user.action_points < user.abilities@[ability_index as int].action_point_cost {
        Err(AbilityError::InsufficientAP)
    } else if user.abilities@[ability_index as int].current_cooldown > 0 {
        Err(AbilityError::OnCooldown)
    } else {
        Ok(())
    }
}

/// `after` is `before` having used its ability at `ability_index`: the cost is paid,
/// the ability starts to cool down, the unit shows the ability's animation, and nothing
/// else has changed.
pub open spec fn ability_spent(before: Unit, after: Unit, ability_index: int) -> bool {
    let ability = before.abilities@[ability_index];
    &&& after.abilities@ == before.abilities@.update(
        ability_index,
        Ability { current_cooldown: ability.cooldown, ..ability },
    )
    &&& after == (Unit {
        action_points: (before.action_points - ability.action_point_cost) as u32,
        animation_state: AnimationState {
            current_animation: ability.animation,
            ..before.animation_state
        },
        abilities: after.abilities,
        ..before
    })
}

/// Whether `ability` reaches the target at index `i` of those supplied: an ability with
/// an area of effect reaches them all, any other only the first.
pub open spec fn reaches(ability: Ability, i: int) -> bool {
    ability.area_of_effect is Some || i == 0
}

/// Uses the ability of `user` at `ability_index` on `targets`.
///
/// Nothing changes unless the ability can be used. If it can, the user pays its cost,
/// the ability starts to cool down and the user shows its animation; the effect is
/// applied to every target if the ability has an area of effect, and to the first one
/// only if it has none; and the ability's sound, if it names one, is asked of `audio`.
/// Whether the targets are in range is for the caller to see to.
pub fn use_ability(
    user: &mut Unit,
    ability_index: usize,
    targets: &mut [&mut Unit],
    audio: Option<&mut AudioSystem>,
) -> (result: Result<(), AbilityError>)
    requires
        ability_check(*old(user), ability_index) is Ok ==> forall|i: int|
            0 <= i < old(targets)@.len() && reaches(old(user).abilities@[ability_index as int], i)
                ==> effect_fits(
                old(user).abilities@[ability_index as int].effect,
                *old(targets)@[i],
            ),
    ensures
        result == ability_check(*old(user), ability_index),
        final(targets)@.len() == old(targets)@.len(),
        forall|i: int|
            0 <= i < old(targets)@.len() ==> *final(final(targets)@[i]) == *final(old(targets)@[i]),
        result is Err ==> {
            &&& *final(user) == *old(user)
            &&& forall|i: int|
                0 <= i < old(targets)@.len() ==> *final(targets)@[i] == *old(targets)@[i]
        },
        result is Ok ==> {
            &&& ability_spent(*old(user), *final(user), ability_index as int)
            &&& forall|i: int|
                0 <= i < old(targets)@.len() ==> if reaches(
                    old(user).abilities@[ability_index as int],
                    i,
                ) {
                    effect_applied(
                        old(user).abilities@[ability_index as int].effect,
                        *old(targets)@[i],
                        *final(targets)@[i],
                    )
                } else {
                    *final(targets)@[i] == *old(targets)@[i]
                }
        },
        match audio {
            Some(system) => if result is Ok && old(user).abilities@[ability_index as int].sound_effect_key@.len()
                > 0 {
                system.cue_logged(
                    *final(system),
                    old(user).abilities@[ability_index as int].sound_effect_key@,
                )
            } else {
                *final(system) == *system
            },
            None => true,
        },
{
    if ability_index >= user.abilities.len() {
        return Err(AbilityError::InvalidAbility);
    }
    let cost = user.abilities[ability_index].action_point_cost;
    let cooldown = user.abilities[ability_index].cooldown;
    let animation = user.abilities[ability_index].animation;
    let effect = user.abilities[ability_index].effect;
    let has_area = user.abilities[ability_index].area_of_effect.is_some();
    if user.action_points < cost {
        return Err(AbilityError::InsufficientAP);
    }
    if user.abilities[ability_index].current_cooldown > 0 {
        return Err(AbilityError::OnCooldown);
    }
    user.action_points -= cost;
    user.abilities[ability_index].current_cooldown = cooldown;
    user.animation_state.current_animation = animation;

    let count = targets.len();
    let reached = if has_area {
        count
    } else if count > 0 {
        1
    } else {
        0
    };
    let mut k: usize = 0;
    while k < reached
        invariant
            k <= reached <= count,
            ability_index < old(user).abilities@.len(),
            count == targets@.len(),
            targets@.len() == old(targets)@.len(),
            reached == if has_area {
                count
            } else if count > 0 {
                1usize
            } else {
                0usize
            },
            has_area == (old(user).abilities@[ability_index as int].area_of_effect is Some),
            effect == old(user).abilities@[ability_index as int].effect,
            forall|i: int|
                0 <= i < count && reaches(old(user).abilities@[ability_index as int], i)
                    ==> effect_fits(effect, *old(targets)@[i]),
            forall|i: int| 0 <= i < k ==> effect_applied(effect, *old(targets)@[i], *targets@[i]),
            forall|i: int| k <= i < count ==> *targets@[i] == *old(targets)@[i],
            forall|i: int| 0 <= i < count ==> *final(targets@[i]) == *final(old(targets)@[i]),
        decreases reached - k,
    {
        assert(reaches(old(user).abilities@[ability_index as int], k as int));
        apply_ability_effect(&effect, targets[k]);
        k += 1;
    }

    if let Some(system) = audio {
        let key = &user.abilities[ability_index].sound_effect_key;
        if !key.as_str().is_empty() {
            system.play(key.as_str());
        }
    }
    Ok(())
}

/// The ability `ability` one turn later: a cooldown that is running has one turn less
/// to run.
pub open spec fn cooled(ability: Ability) -> Ability {
    Ability {
        current_cooldown: if ability.current_cooldown > 0 {
            (ability.current_cooldown - 1) as u32
        } else {
            0
        },
        ..ability
    }
}

/// Lets one turn pass for the cooldowns of `unit`: each that is running has one turn
/// less to run. To be called once for every turn of the unit.
pub fn tick_cooldowns(unit: &mut Unit)
    ensures
        final(unit).abilities@.len() == old(unit).abilities@.len(),
        forall|i: int|
            0 <= i < old(unit).abilities@.len() ==> final(unit).abilities@[i] == cooled(
                old(unit).abilities@[i],
            ),
        *final(unit) == (Unit { abilities: final(unit).abilities, ..*old(unit) }),
{
    let count = unit.abilities.len();
    let mut k: usize = 0;
    while k < count
        invariant
            k <= count,
            count == unit.abilities@.len(),
            count == old(unit).abilities@.len(),
            forall|i: int| 0 <= i < k ==> unit.abilities@[i] == cooled(old(unit).abilities@[i]),
            forall|i: int| k <= i < count ==> unit.abilities@[i] == old(unit).abilities@[i],
            *unit == (Unit { abilities: unit.abilities, ..*old(unit) }),
        decreases count - k,
    {
        if unit.abilities[k].current_cooldown > 0 {
            unit.abilities[k].current_cooldown -= 1;
        }
        k += 1;
    }
}

/// Which part of a turn the encounter is in. Nothing in this library acts on it.
#[derive(Debug, Clone, Copy, PartialEq, Eq, Structural)]
pub enum CombatPhase {
    Movement,
    Action,
    End,
}

/// A hazard that lies on the battlefield.
#[derive(Debug, Clone)]
pub enum EnvironmentalEffect {
    /// Smoke around `center`, which clears when `turns_remaining` runs out.
    SmokeCloud { center: Position, radius: u32, turns_remaining: u32 },
    /// Fire on `grid_cells`, which burns a unit that starts its turn there.
    FirePatch { grid_cells: Vec<Position>, damage_per_turn: i32 },
    /// Acid on `grid_cells`, which scales the agility of a unit that starts its turn
    /// there by `movement_penalty`.
    AcidPool { grid_cells: Vec<Position>, movement_penalty: Permille },
}

/// Where the view of the battlefield is, and how far it is zoomed in.
#[derive(Debug, Clone, Copy, PartialEq, Eq, Structural)]
pub struct CameraState {
    pub x_offset: Permille,
    pub y_offset: Permille,
    pub zoom_level: Permille,
}

/// The round-robin schedule of an encounter: the ids of the units in the order in
/// which they will act, the id of the unit whose turn it is, and the round number.
#[derive(Debug, Clone)]
pub struct TurnQueue {
    pub initiative: VecDeque<String>,
    pub current_unit_id: Option<String>,
    pub round_number: u32,
}

/// The schedule `order` after the unit at its front has taken its turn and gone to the back.
pub open spec fn rotated(order: Seq<Seq<char>>) -> Seq<Seq<char>> {
    if order.len() == 0 {
        order
    } else {
        order.skip(1).push(order[0])
    }
}

/// The schedule `order` after `turns` turns.
pub open spec fn after_turns(order: Seq<Seq<char>>, turns: nat) -> Seq<Seq<char>>
    decreases turns,
{
    if turns == 0 {
        order
    } else {
        rotated(after_turns(order, (turns - 1) as nat))
    }
}

/// Turn cycling: the queue is a round robin. After any number of turns it holds the
/// units it started with, and the unit at place `i` is the one that started
/// `turns + i` places from the front, counted round the queue. So the units take their
/// turns in the order in which they were queued, over and over.
pub proof fn law_turn_cycling(order: Seq<Seq<char>>, turns: nat)
    requires
        order.len() > 0,
    ensures
        after_turns(order, turns).len() == order.len(),
        after_turns(order, turns)[0] == order[turns as int % (order.len() as int)],
        forall|i: int|
            0 <= i < order.len() ==> #[trigger] after_turns(order, turns)[i] == order[(turns + i)
                % (order.len() as int)],
    decreases turns,
{
    let n = order.len() as int;
    if turns == 0 {
        assert forall|i: int| 0 <= i < n implies #[trigger] after_turns(order, turns)[i] == order[(
        turns + i) % n] by {
            vstd::arithmetic::div_mod::lemma_small_mod(i as nat, n as nat);
        }
    } else {
        let earlier = after_turns(order, (turns - 1) as nat);
        law_turn_cycling(order, (turns - 1) as nat);
        assert forall|i: int| 0 <= i < n implies #[trigger] after_turns(order, turns)[i] == order[(
        turns + i) % n] by {
            if i < n - 1 {
                assert(rotated(earlier)[i] == earlier[i + 1]);
            } else {
                assert(rotated(earlier)[i] == earlier[0]);
                vstd::arithmetic::div_mod::lemma_mod_add_multiples_vanish(turns - 1, n);
            }
        }
    }
}

impl TurnQueue {
    /// The ids in the queue, front first, as plain text.
    pub open spec fn order(&self) -> Seq<Seq<char>> {
        self.initiative.deep_view()
    }

    /// The id of the unit whose turn it is, as plain text.
    pub open spec fn current(&self) -> Option<Seq<char>> {
        match self.current_unit_id {
            Some(id) => Some(id@),
            None => None,
        }
    }

    /// An empty queue in round one, with no unit at turn.
    pub fn new() -> (queue: Self)
        ensures
            queue.order() == Seq::<Seq<char>>::empty(),
            queue.current_unit_id is None,
            queue.round_number == 1,
    {
        let queue = TurnQueue { initiative: VecDeque::new(), current_unit_id: None, round_number: 1 };
        assert(queue.order() =~= Seq::<Seq<char>>::empty());
        queue
    }

    /// Puts `id` at the back of the queue.
    pub fn add_unit(&mut self, id: String)
        ensures
            final(self).order() == old(self).order().push(id@),
            final(self).current_unit_id == old(self).current_unit_id,
            final(self).round_number == old(self).round_number,
    {
        self.initiative.push_back(id);
        assert(self.order() =~= old(self).order().push(id@));
    }

    /// Gives the turn to the unit at the front of the queue, moves it to the back, and
    /// returns its id. An empty queue stays as it is, and no id is returned.
    pub fn next_turn(&mut self) -> (next: Option<String>)
        ensures
            final(self).order() == rotated(old(self).order()),
            final(self).round_number == old(self).round_number,
            old(self).order().len() == 0 ==> next is None && final(self).current_unit_id == old(
                self,
            ).current_unit_id,
            old(self).order().len() > 0 ==> {
                &&& next matches Some(id)
                &&& id@ == old(self).order()[0]
                &&& final(self).current_unit_id == Some(id)
            },
    {
        match self.initiative.pop_front() {
            Some(id) => {
                self.current_unit_id = Some(id.clone());
                self.initiative.push_back(id.clone());
                assert(self.order() =~= rotated(old(self).order()));
                Some(id)
            },
            None => {
                assert(self.order() =~= rotated(old(self).order()));
                None
            },
        }
    }
}

} // verus!

//! The decisions of a unit that no player commands: whom to go for, which ability to
//! use, and where to walk when nothing is in range.

use vstd::prelude::*;
use crate::grid::{GridMap, TerrainType};
use crate::models::{Ability, Position, Unit};
use crate::search::axis_distance;

verus! {

/// The Manhattan distance from `a` to `b`: the sum of the two axis distances.
pub open spec fn manhattan_distance(a: Position, b: Position) -> int {
    axis_distance(a.x, b.x) + axis_distance(a.y, b.y)
}

/// The Manhattan distance from `a` to `b`.
pub fn manhattan(a: &Position, b: &Position) -> (distance: u128)
    ensures
        distance == manhattan_distance(*a, *b),
{
    let dx = if a.x > b.x {
        a.x - b.x
    } else {
        b.x - a.x
    };
    let dy = if a.y > b.y {
        a.y - b.y
    } else {
        b.y - a.y
    };
    (dx as u128) + (dy as u128)
}

/// The index of the unit of `units` that stands nearest to `from`, and of the first
/// such unit where several stand equally near. Zero where there is no unit.
pub open spec fn nearest_index(units: Seq<Unit>, from: Position) -> int
    decreases units.len(),
{
    if units.len() <= 1 {
        0
    } else {
        let earlier = nearest_index(units.drop_last(), from);
        if manhattan_distance(from, units.last().grid_position) < manhattan_distance(
            from,
            units[earlier].grid_position,
        ) {
            units.len() - 1
        } else {
            earlier
        }
    }
}

/// `nearest_index` names a unit, and no unit stands nearer than that one.
pub proof fn lemma_nearest_index(units: Seq<Unit>, from: Position)
    requires
        units.len() > 0,
    ensures
        0 <= nearest_index(units, from) < units.len(),
        forall|j: int|
            0 <= j < units.len() ==> manhattan_distance(
                from,
                units[nearest_index(units, from)].grid_position,
            ) <= manhattan_distance(from, #[trigger] units[j].grid_position),
        forall|j: int|
            0 <= j < nearest_index(units, from) ==> manhattan_distance(
                from,
                units[nearest_index(units, from)].grid_position,
            ) < manhattan_distance(from, #[trigger] units[j].grid_position),
    decreases units.len(),
{
    if units.len() > 1 {
        let shorter = units.drop_last();
        lemma_nearest_index(shorter, from);
        assert forall|j: int| 0 <= j < shorter.len() implies shorter[j] == units[j] by {}
        let earlier = nearest_index(shorter, from);
        assert(shorter[earlier] == units[earlier]);
        assert forall|j: int| 0 <= j < units.len() implies manhattan_distance(
            from,
            units[nearest_index(units, from)].grid_position,
        ) <= manhattan_distance(from, #[trigger] units[j].grid_position) by {
            if j < shorter.len() {
                assert(shorter[j] == units[j]);
            }
        }
        assert forall|j: int| 0 <= j < nearest_index(units, from) implies manhattan_distance(
            from,
            units[nearest_index(units, from)].grid_position,
        ) < manhattan_distance(from, #[trigger] units[j].grid_position) by {
            if j < shorter.len() {
                assert(shorter[j] == units[j]);
            }
        }
    }
}

/// The index of the unit of `units` that stands nearest to `from`, and of the first
/// such unit where several stand equally near.
pub fn nearest_unit(units: &Vec<Unit>, from: &Position) -> (index: usize)
    requires
        units@.len() > 0,
    ensures
        index == nearest_index(units@, *from),
        index < units@.len(),
        forall|j: int|
            0 <= j < units@.len() ==> manhattan_distance(*from, units@[index as int].grid_position)
                <= manhattan_distance(*from, #[trigger] units@[j].grid_position),
        forall|j: int|
            0 <= j < index ==> manhattan_distance(*from, units@[index as int].grid_position)
                < manhattan_distance(*from, #[trigger] units@[j].grid_position),
{
    let mut index: usize = 0;
    let mut least = manhattan(from, &units[0].grid_position);
    let mut k: usize = 1;
    assert(units@.take(1).len() == 1);
    while k < units.len()
        invariant
            1 <= k <= units@.len(),
            index < k,
            index == nearest_index(units@.take(k as int), *from),
            least == manhattan_distance(*from, units@[index as int].grid_position),
        decreases units@.len() - k,
    {
        let distance = manhattan(from, &units[k].grid_position);
        proof {
            let longer = units@.take(k + 1);
            assert(longer.drop_last() =~= units@.take(k as int));
            assert(longer.last() == units@[k as int]);
            assert(longer[index as int] == units@[index as int]);
        }
        if distance < least {
            index = k;
            least = distance;
        }
        k += 1;
    }
    assert(units@.take(units@.len() as int) =~= units@);
    proof {
        lemma_nearest_index(units@, *from);
    }
    index
}

/// Whether `unit` can use its ability at index `i` on a target at `distance`: the
/// ability is not cooling down, the unit can pay for it, and the target is in range.
pub open spec fn ability_ready(unit: Unit, i: int, distance: int) -> bool {
    let ability = unit.abilities@[i];
    &&& ability.current_cooldown == 0
    &&& ability.action_point_cost <= unit.action_points
    &&& distance <= ability.range
}

/// The damage that an ability declares: none counts as zero.
pub open spec fn declared_damage(ability: Ability) -> int {
    match ability.effect.damage {
        Some(damage) => damage as int,
        None => 0,
    }
}

/// Among the first `upto` abilities of `unit` that it can use on a target at
/// `distance`, the index of the one that declares the most damage, and of the last
/// such one where several declare as much.
pub open spec fn preferred_ability(unit: Unit, distance: int, upto: int) -> Option<int>
    decreases upto,
{
    if upto <= 0 {
        None
    } else {
        let earlier = preferred_ability(unit, distance, upto - 1);
        let i = upto - 1;
        if ability_ready(unit, i, distance) && (earlier matches Some(e) ==> declared_damage(
            unit.abilities@[i],
        ) >= declared_damage(unit.abilities@[e])) {
            Some(i)
        } else {
            earlier
        }
    }
}

/// What `preferred_ability` returns is the index of an ability that can be used; none
/// that can be used declares more damage, and none after it declares as much. It
/// returns nothing only where no ability can be used.
pub proof fn lemma_preferred_ability(unit: Unit, distance: int, upto: int)
    requires
        0 <= upto <= unit.abilities@.len(),
    ensures
        preferred_ability(unit, distance, upto) matches Some(a) ==> {
            &&& 0 <= a < upto
            &&& ability_ready(unit, a, distance)
            &&& forall|i: int|
                0 <= i < upto && ability_ready(unit, i, distance) ==> declared_damage(
                    #[trigger] unit.abilities@[i],
                ) <= declared_damage(unit.abilities@[a])
            &&& forall|i: int|
                a < i < upto && ability_ready(unit, i, distance) ==> declared_damage(
                    #[trigger] unit.abilities@[i],
                ) < declared_damage(unit.abilities@[a])
        },
        preferred_ability(unit, distance, upto) is None ==> forall|i: int|
            0 <= i < upto ==> !ability_ready(unit, i, distance),
    decreases upto,
{
    if upto > 0 {
        lemma_preferred_ability(unit, distance, upto - 1);
    }
}

/// The ability that `unit` prefers to use on a target at `distance`, if it can use any.
pub fn choose_ability(unit: &Unit, distance: u128) -> (choice: Option<usize>)
    ensures
        match choice {
            Some(a) => preferred_ability(*unit, distance as int, unit.abilities@.len() as int)
                == Some(a as int),
            None => preferred_ability(*unit, distance as int, unit.abilities@.len() as int) is None,
        },
{
    let mut choice: Option<usize> = None;
    let mut most: i32 = 0;
    let mut k: usize = 0;
    while k < unit.abilities.len()
        invariant
            k <= unit.abilities@.len(),
            match choice {
                Some(a) => preferred_ability(*unit, distance as int, k as int) == Some(a as int) && a
                    < k && most == declared_damage(unit.abilities@[a as int]),
                None => preferred_ability(*unit, distance as int, k as int) is None,
            },
        decreases unit.abilities@.len() - k,
    {
        let ability = &unit.abilities[k];
        if ability.current_cooldown == 0 && ability.action_point_cost <= unit.action_points
            && distance <= ability.range as u128 {
            let damage = match ability.effect.damage {
                Some(damage) => damage,
                None => 0,
            };
            if choice.is_none() || damage >= most {
                choice = Some(k);
                most = damage;
            }
        }
        k += 1;
    }
    choice
}

/// The cell one step from `pos` toward `dest`: along the axis on which `dest` is
/// farther off, and along the x axis where it is equally far off on both.
pub open spec fn toward(pos: Position, dest: Position) -> Position {
    let dx = axis_distance(pos.x, dest.x);
    let dy = axis_distance(pos.y, dest.y);
    if dx >= dy && dx > 0 {
        Position {
            x: if pos.x < dest.x {
                (pos.x + 1) as usize
            } else {
                (pos.x - 1) as usize
            },
            y: pos.y,
        }
    } else if dy > 0 {
        Position {
            x: pos.x,
            y: if pos.y < dest.y {
                (pos.y + 1) as usize
            } else {
                (pos.y - 1) as usize
            },
        }
    } else {
        pos
    }
}

/// Where a walk of at most `steps` steps from `pos` toward `dest` ends: it stops on
/// `dest`, and before a cell that is off the map or `Blocked`.
pub open spec fn walked(map: GridMap, pos: Position, dest: Position, steps: int) -> Position
    decreases steps,
{
    if steps <= 0 || pos == dest {
        pos
    } else {
        let next = toward(pos, dest);
        if !map.contains(next) || map.terrain(next) == TerrainType::Blocked {
            pos
        } else {
            walked(map, next, dest, steps - 1)
        }
    }
}

/// The cell one step from `pos` toward `dest`.
pub fn step_toward(pos: &Position, dest: &Position) -> (next: Position)
    ensures
        next == toward(*pos, *dest),
{
    let dx = if pos.x > dest.x {
        pos.x - dest.x
    } else {
        dest.x - pos.x
    };
    let dy = if pos.y > dest.y {
        pos.y - dest.y
    } else {
        dest.y - pos.y
    };
    if dx >= dy && dx > 0 {
        Position {
            x: if pos.x < dest.x {
                pos.x + 1
            } else {
                pos.x - 1
            },
            y: pos.y,
        }
    } else if dy > 0 {
        Position {
            x: pos.x,
            y: if pos.y < dest.y {
                pos.y + 1
            } else {
                pos.y - 1
            },
        }
    } else {
        *pos
    }
}

/// The number of steps that `unit` may walk: its movement points, and none where
/// they are negative.
pub open spec fn walking_steps(unit: Unit) -> int {
    if unit.current_stats.agility < 0 {
        0
    } else {
        unit.current_stats.agility as int / 2
    }
}

/// Walks `unit` toward `dest`, one cell at a time and for as many steps as it has
/// movement points. The walk does not look for a way round: it ends before a cell
/// that is off the map or `Blocked`.
pub fn ai_move_towards(unit: &mut Unit, dest: &Position, map: &GridMap)
    requires
        map.wf(),
    ensures
        *final(unit) == (Unit {
            grid_position: walked(*map, old(unit).grid_position, *dest, walking_steps(*old(unit))),
            ..*old(unit)
        }),
{
    let steps: u32 = if unit.current_stats.agility < 0 {
        0
    } else {
        (unit.current_stats.agility / 2) as u32
    };
    let mut pos = unit.grid_position;
    let mut taken: u32 = 0;
    while taken < steps
        invariant
            map.wf(),
            taken <= steps,
            walked(*map, pos, *dest, steps - taken) == walked(
                *map,
                old(unit).grid_position,
                *dest,
                steps as int,
            ),
        ensures
            pos == walked(*map, old(unit).grid_position, *dest, steps as int),
        decreases steps - taken,
    {
        if pos == *dest {
            break ;
        }
        let next = step_toward(&pos, dest);
        if !map.in_bounds(&next) {
            break ;
        }
        if matches!(map.terrain_at(&next), TerrainType::Blocked) {
            break ;
        }
        pos = next;
        taken += 1;
    }
    unit.grid_position = pos;
}

} // verus!

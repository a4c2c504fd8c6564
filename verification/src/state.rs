//! The state of a game as it is kept between sessions: the units, the map, the turn
//! queue and the hazards.

use vstd::prelude::*;
use crate::combat::{EnvironmentalEffect, TurnQueue};
use crate::encounter::unit_ids;
use crate::grid::{GridMap, TerrainType};
use crate::models::Unit;

verus! {

/// Everything that a saved game holds.
#[derive(Debug, Clone)]
pub struct GameState {
    pub units: Vec<Unit>,
    pub map: GridMap,
    pub turn_queue: TurnQueue,
    pub environmental_effects: Vec<EnvironmentalEffect>,
}

impl GameState {
    /// A game with the given units on an open map of ten by ten cells: every unit is
    /// queued in the order given, nobody is at turn, and no hazard lies about.
    pub fn new(units: Vec<Unit>) -> (state: Self)
        ensures
            state.units == units,
            state.map.wf(),
            state.map.width == 10,
            state.map.height == 10,
            forall|i: int|
                0 <= i < state.map.tiles@.len() ==> state.map.tiles@[i] == TerrainType::Normal,
            state.turn_queue.order() == unit_ids(units@),
            state.turn_queue.current_unit_id is None,
            state.turn_queue.round_number == 1,
            state.environmental_effects@.len() == 0,
    {
        let mut turn_queue = TurnQueue::new();
        let mut k: usize = 0;
        while k < units.len()
            invariant
                k <= units@.len(),
                turn_queue.order() == unit_ids(units@.take(k as int)),
                turn_queue.current_unit_id is None,
                turn_queue.round_number == 1,
            decreases units@.len() - k,
        {
            turn_queue.add_unit(units[k].id.clone());
            assert(unit_ids(units@.take(k + 1)) =~= unit_ids(units@.take(k as int)).push(
                units@[k as int].id@,
            ));
            k += 1;
        }
        assert(units@.take(units@.len() as int) =~= units@);
        GameState { units, map: GridMap::new(10, 10), turn_queue, environmental_effects: Vec::new() }
    }
}

} // verus!

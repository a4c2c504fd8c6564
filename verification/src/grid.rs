//! The terrain grid, what a step on it costs, and movement of a unit across it.

use vstd::prelude::*;
use crate::models::{Position, Unit};
use crate::search::{lemma_path_cost_nonnegative, within_reach};

verus! {

#[derive(Debug, Clone, Copy, PartialEq, Eq, Structural)]
pub enum TerrainType {
    Normal,
    Difficult,
    Hazardous,
    Blocked,
}

/// A rectangular battlefield. `tiles` holds the terrain row by row:
/// the cell `(x, y)` is at index `y * width + x`.
#[derive(Debug, Clone)]
pub struct GridMap {
    pub width: usize,
    pub height: usize,
    pub tiles: Vec<TerrainType>,
}

impl GridMap {
    /// The terrain array has one entry for each cell.
    pub open spec fn wf(&self) -> bool {
        self.tiles@.len() == self.width * self.height
    }

    /// Whether `pos` is a cell of this map.
    pub open spec fn contains(&self, pos: Position) -> bool {
        pos.x < self.width && pos.y < self.height
    }

    /// Where the terrain of `pos` is held in `tiles`.
    pub open spec fn cell_index(&self, pos: Position) -> int {
        pos.y * self.width + pos.x
    }

    /// The terrain of the cell `pos`.
    pub open spec fn terrain(&self, pos: Position) -> TerrainType {
        self.tiles@[self.cell_index(pos)]
    }

    /// The index of a cell of the map lies within the terrain array.
    pub proof fn lemma_cell_index_in_range(&self, pos: Position)
        requires
            self.wf(),
            self.contains(pos),
        ensures
            0 <= self.cell_index(pos) < self.tiles@.len(),
    {
        let (x, y, w, h) = (pos.x as int, pos.y as int, self.width as int, self.height as int);
        assert(y * w + x < w * h) by (nonlinear_arith)
            requires
                0 <= x < w,
                0 <= y < h,
        ;
        assert(0 <= y * w + x) by (nonlinear_arith)
            requires
                0 <= x,
                0 <= y,
                0 <= w,
        ;
    }

    /// Two cells of the map with the same index are the same cell.
    pub proof fn lemma_cell_index_injective(&self, a: Position, b: Position)
        requires
            self.contains(a),
            self.contains(b),
            self.cell_index(a) == self.cell_index(b),
        ensures
            a == b,
    {
        let (ax, ay, bx, by, w) = (
            a.x as int,
            a.y as int,
            b.x as int,
            b.y as int,
            self.width as int,
        );
        assert(ay == by) by (nonlinear_arith)
            requires
                0 <= ax < w,
                0 <= bx < w,
                0 <= ay,
                0 <= by,
                ay * w + ax == by * w + bx,
        ;
    }

    /// A map of the given size on which every cell is `Normal`.
    pub fn new(width: usize, height: usize) -> (map: Self)
        requires
            width * height <= usize::MAX,
        ensures
            map.wf(),
            map.width == width,
            map.height == height,
            forall|i: int| 0 <= i < map.tiles@.len() ==> map.tiles@[i] == TerrainType::Normal,
    {
        GridMap { width, height, tiles: vec![TerrainType::Normal; width * height] }
    }

    /// Whether the terrain array has one entry for each cell.
    pub fn is_well_formed(&self) -> (well_formed: bool)
        ensures
            well_formed == self.wf(),
    {
        let tiles = self.tiles.len();
        match self.width.checked_mul(self.height) {
            Some(cells) => cells == tiles,
            None => false,
        }
    }

    /// Where the terrain of the cell `pos` is held in `tiles`.
    pub fn index(&self, pos: &Position) -> (i: usize)
        requires
            self.wf(),
            self.contains(*pos),
        ensures
            i == self.cell_index(*pos),
            i < self.tiles@.len(),
    {
        let cells = self.tiles.len();
        proof {
            self.lemma_cell_index_in_range(*pos);
            assert(0 <= pos.y * self.width) by (nonlinear_arith)
                requires
                    0 <= pos.y,
                    0 <= self.width,
            ;
            assert(pos.y * self.width + pos.x < cells);
        }
        pos.y * self.width + pos.x
    }

    /// Sets the terrain of the cell `pos`, and of no other.
    pub fn set_terrain(&mut self, pos: &Position, terrain: TerrainType)
        requires
            old(self).wf(),
            old(self).contains(*pos),
        ensures
            final(self).wf(),
            final(self).width == old(self).width,
            final(self).height == old(self).height,
            final(self).tiles@ == old(self).tiles@.update(old(self).cell_index(*pos), terrain),
            final(self).terrain(*pos) == terrain,
            forall|other: Position|
                old(self).contains(other) && other != *pos ==> final(self).terrain(other) == old(
                    self,
                ).terrain(other),
    {
        let idx = self.index(pos);
        self.tiles[idx] = terrain;
        proof {
            assert forall|other: Position| old(self).contains(other) && other != *pos implies self.terrain(
                other,
            ) == old(self).terrain(other) by {
                old(self).lemma_cell_index_in_range(other);
                if old(self).cell_index(other) == old(self).cell_index(*pos) {
                    old(self).lemma_cell_index_injective(other, *pos);
                }
            }
        }
    }

    /// The terrain of the cell `pos`.
    pub fn terrain_at(&self, pos: &Position) -> (terrain: &TerrainType)
        requires
            self.wf(),
            self.contains(*pos),
        ensures
            *terrain == self.terrain(*pos),
    {
        let idx = self.index(pos);
        &self.tiles[idx]
    }

    /// Whether `pos` is a cell of this map.
    pub fn in_bounds(&self, pos: &Position) -> (inside: bool)
        ensures
            inside == self.contains(*pos),
    {
        pos.x < self.width && pos.y < self.height
    }
}

/// What it costs to enter a cell of the given terrain: one for a straight step and two
/// for a diagonal one, one more on `Difficult` and two more on `Hazardous` ground.
/// A `Blocked` cell cannot be entered: its cost is `u32::MAX`.
pub open spec fn entry_cost(terrain: TerrainType, diagonal: bool) -> int {
    let base: int = if diagonal {
        2
    } else {
        1
    };
    match terrain {
        TerrainType::Normal => base,
        TerrainType::Difficult => base + 1,
        TerrainType::Hazardous => base + 2,
        TerrainType::Blocked => u32::MAX as int,
    }
}

/// The cost of entering a cell of the given terrain, `u32::MAX` where it is `Blocked`.
pub fn tile_cost(terrain: &TerrainType, diagonal: bool) -> (cost: u32)
    ensures
        cost == entry_cost(*terrain, diagonal),
{
    let base: u32 = if diagonal {
        2
    } else {
        1
    };
    match terrain {
        TerrainType::Difficult => base + 1,
        TerrainType::Hazardous => base + 2,
        TerrainType::Blocked => u32::MAX,
        TerrainType::Normal => base,
    }
}

/// `b` is one of the eight cells around `a`.
pub open spec fn is_neighbour(a: Position, b: Position) -> bool {
    &&& a != b
    &&& a.x - 1 <= b.x <= a.x + 1
    &&& a.y - 1 <= b.y <= a.y + 1
}

/// The step from `a` to `b` changes both coordinates.
pub open spec fn is_diagonal(a: Position, b: Position) -> bool {
    a.x != b.x && a.y != b.y
}

/// Whether a unit may step from `a` to `b`: both are cells of the map, `b` is one of the
/// eight cells around `a` and is not `Blocked`, and a diagonal step cuts no corner, that
/// is, neither of the two cells that touch both `a` and `b` is `Blocked`.
pub open spec fn step_allowed(map: GridMap, a: Position, b: Position) -> bool {
    &&& map.contains(a)
    &&& map.contains(b)
    &&& is_neighbour(a, b)
    &&& map.terrain(b) != TerrainType::Blocked
    &&& is_diagonal(a, b) ==> {
        &&& map.terrain(Position { x: a.x, y: b.y }) != TerrainType::Blocked
        &&& map.terrain(Position { x: b.x, y: a.y }) != TerrainType::Blocked
    }
}

/// What the step from `a` to `b` costs.
pub open spec fn step_cost(map: GridMap, a: Position, b: Position) -> int {
    entry_cost(map.terrain(b), is_diagonal(a, b))
}

/// A path is a cell of the map followed by any number of allowed steps.
pub open spec fn is_path(map: GridMap, path: Seq<Position>) -> bool {
    &&& path.len() >= 1
    &&& map.contains(path[0])
    &&& forall|i: int| 0 <= i < path.len() - 1 ==> step_allowed(map, #[trigger] path[i], path[i + 1])
}

/// The sum of the costs of the steps of `path`.
pub open spec fn path_cost(map: GridMap, path: Seq<Position>) -> int
    decreases path.len(),
{
    if path.len() <= 1 {
        0
    } else {
        path_cost(map, path.drop_last()) + step_cost(map, path[path.len() - 2], path.last())
    }
}

/// `path` is a path that starts at `from` and ends at `to`.
pub open spec fn connects(map: GridMap, path: Seq<Position>, from: Position, to: Position) -> bool {
    &&& is_path(map, path)
    &&& path[0] == from
    &&& path.last() == to
}

/// Some path from `from` to `to` costs no more than `budget`.
pub open spec fn reachable_within(map: GridMap, from: Position, to: Position, budget: int) -> bool {
    exists|path: Seq<Position>| connects(map, path, from, to) && path_cost(map, path) <= budget
}

/// `path` leads from `from` to `to`, and no path that does costs less.
pub open spec fn is_cheapest(map: GridMap, path: Seq<Position>, from: Position, to: Position) -> bool {
    &&& connects(map, path, from, to)
    &&& forall|other: Seq<Position>| #[trigger]
        connects(map, other, from, to) ==> path_cost(map, path) <= path_cost(map, other)
}

/// Where a path leads from `from` to `to`, a cheapest one does, and it costs no more.
pub proof fn lemma_cheapest_exists(map: GridMap, path: Seq<Position>, from: Position, to: Position)
    requires
        connects(map, path, from, to),
    ensures
        exists|cheapest: Seq<Position>|
            is_cheapest(map, cheapest, from, to) && path_cost(map, cheapest) <= path_cost(
                map,
                path,
            ),
    decreases path_cost(map, path),
{
    lemma_path_cost_nonnegative(map, path);
    if exists|other: Seq<Position>|
        connects(map, other, from, to) && path_cost(map, other) < path_cost(map, path) {
        let other = choose|other: Seq<Position>|
            connects(map, other, from, to) && path_cost(map, other) < path_cost(map, path);
        lemma_path_cost_nonnegative(map, other);
        lemma_cheapest_exists(map, other, from, to);
    } else {
        assert(is_cheapest(map, path, from, to));
    }
}

/// The movement bound: a unit can move to a destination exactly when the destination
/// is a cell of the map that is not `Blocked` and the cheapest path to it costs no
/// more than the unit's movement points.
pub proof fn law_movement_bound(map: GridMap, unit: Unit, dest: Position)
    requires
        map.wf(),
    ensures
        can_move(map, unit, dest) <==> {
            &&& map.contains(dest)
            &&& map.terrain(dest) != TerrainType::Blocked
            &&& exists|cheapest: Seq<Position>|
                is_cheapest(map, cheapest, unit.grid_position, dest) && path_cost(map, cheapest)
                    <= movement_budget(unit)
        },
{
    if can_move(map, unit, dest) {
        let path = choose|path: Seq<Position>|
            connects(map, path, unit.grid_position, dest) && path_cost(map, path)
                <= movement_budget(unit);
        lemma_cheapest_exists(map, path, unit.grid_position, dest);
    }
}

/// The movement points of a unit: half its agility, rounded down.
pub open spec fn movement_budget(unit: Unit) -> int {
    unit.current_stats.agility as int / 2
}

/// Whether `unit` can move to `dest`: `dest` is a cell of the map that is not `Blocked`,
/// and some path from where the unit stands to `dest` costs no more than its movement points.
pub open spec fn can_move(map: GridMap, unit: Unit, dest: Position) -> bool {
    &&& map.contains(dest)
    &&& map.terrain(dest) != TerrainType::Blocked
    &&& reachable_within(map, unit.grid_position, dest, movement_budget(unit))
}

/// `unit` after it has arrived on `dest`: it stands there, and has lost one health point
/// if the ground there is `Hazardous`.
pub open spec fn arrived(map: GridMap, unit: Unit, dest: Position) -> Unit {
    Unit {
        grid_position: dest,
        health_points: if map.terrain(dest) == TerrainType::Hazardous {
            (unit.health_points - 1) as i32
        } else {
            unit.health_points
        },
        ..unit
    }
}

/// Moves `unit` to `dest` if the cheapest path there costs no more than its movement
/// points, and says whether it did. A unit that does not move is left as it was.
pub fn try_move(unit: &mut Unit, dest: Position, map: &GridMap) -> (moved: bool)
    requires
        map.wf(),
        can_move(*map, *old(unit), dest) && map.terrain(dest) == TerrainType::Hazardous
            ==> old(unit).health_points > i32::MIN,
    ensures
        moved == can_move(*map, *old(unit), dest),
        moved ==> *final(unit) == arrived(*map, *old(unit), dest),
        !moved ==> *final(unit) == *old(unit),
{
    if !map.in_bounds(&dest) {
        return false;
    }
    if let TerrainType::Blocked = map.terrain_at(&dest) {
        return false;
    }
    if !within_reach(map, unit.grid_position, dest, unit.current_stats.agility) {
        return false;
    }
    unit.grid_position = dest;
    if let TerrainType::Hazardous = map.terrain_at(&unit.grid_position) {
        unit.health_points -= 1;
    }
    true
}

} // verus!

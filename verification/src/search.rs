//! Best-first search over the terrain grid: whether a destination can be reached
//! within a movement budget.
//!
//! The open list is ordered by estimated total cost, with ties going to the entry
//! that has cost less so far. The estimate is the octile distance, in which a diagonal
//! step counts two and a straight one counts one.

use vstd::prelude::*;
use crate::models::Position;
use crate::grid::{
    connects, is_neighbour, is_path, path_cost, reachable_within, step_allowed, step_cost,
    tile_cost, GridMap, TerrainType,
};

verus! {

/// The cost recorded for a cell that the search has not reached.
pub const UNREACHED: u32 = 0xffff_ffff;

/// The largest movement budget: half of the largest agility.
pub const MAX_BUDGET: u32 = 0x3fff_ffff;

/// An entry of the open list: a cell, what some path to it costs, and that cost plus
/// the estimate of what is left to the destination.
#[derive(Debug, Clone, Copy)]
pub struct Node {
    pub score: u128,
    pub cost: u32,
    pub pos: Position,
}

/// The distance between two coordinates on one axis.
pub open spec fn axis_distance(a: usize, b: usize) -> int {
    if a > b {
        a - b
    } else {
        b - a
    }
}

/// The octile distance from `a` to `b`: twice the shorter of the two axis distances,
/// plus what the longer one exceeds it by.
pub open spec fn octile_distance(a: Position, b: Position) -> int {
    let dx = axis_distance(a.x, b.x);
    let dy = axis_distance(a.y, b.y);
    if dx <= dy {
        2 * dx + (dy - dx)
    } else {
        2 * dy + (dx - dy)
    }
}

/// The octile distance from `a` to `b`.
pub fn heuristic(a: &Position, b: &Position) -> (estimate: u128)
    ensures
        estimate == octile_distance(*a, *b),
{
    let dx = if a.x > b.x {
        a.x - b.x
    } else {
        b.x - a.x
    };
    let dy = if a.y > b.y {
        a.y - b.y
    } else {
        b.y - a.y
    };
    let diag = if dx <= dy {
        dx
    } else {
        dy
    };
    let straight = if dx <= dy {
        dy - dx
    } else {
        dx - dy
    };
    (diag as u128) * 2 + (straight as u128)
}

/// Whether `a` leaves the open list before `b`: on a lower score, or on the same score
/// and a lower cost.
pub open spec fn precedes(a: Node, b: Node) -> bool {
    a.score < b.score || (a.score == b.score && a.cost < b.cost)
}

/// The index of an entry that no other entry of the open list precedes.
pub fn best_index(open: &Vec<Node>) -> (k: usize)
    requires
        open@.len() > 0,
    ensures
        k < open@.len(),
        forall|j: int| 0 <= j < open@.len() ==> !precedes(#[trigger] open@[j], open@[k as int]),
        forall|j: int| 0 <= j < k ==> precedes(open@[k as int], #[trigger] open@[j]),
{
    let mut k: usize = 0;
    let mut i: usize = 1;
    while i < open.len()
        invariant
            k < i <= open@.len(),
            forall|j: int| 0 <= j < i ==> !precedes(#[trigger] open@[j], open@[k as int]),
            forall|j: int| 0 <= j < k ==> precedes(open@[k as int], #[trigger] open@[j]),
        decreases open@.len() - i,
    {
        let candidate = &open[i];
        let held = &open[k];
        if candidate.score < held.score || (candidate.score == held.score && candidate.cost
            < held.cost) {
            k = i;
        }
        i += 1;
    }
    k
}

/// The eight directions, in the order in which the search tries them:
/// the four straight ones, then the four diagonal ones.
pub open spec fn direction(k: int) -> (int, int) {
    if k == 0 {
        (-1, 0)
    } else if k == 1 {
        (1, 0)
    } else if k == 2 {
        (0, -1)
    } else if k == 3 {
        (0, 1)
    } else if k == 4 {
        (-1, -1)
    } else if k == 5 {
        (-1, 1)
    } else if k == 6 {
        (1, -1)
    } else {
        (1, 1)
    }
}

/// The position one step from `pos` in direction `k`, where its coordinates are
/// coordinates at all.
pub open spec fn shifted(pos: Position, k: int) -> Option<Position> {
    let nx = pos.x + direction(k).0;
    let ny = pos.y + direction(k).1;
    if 0 <= nx <= usize::MAX && 0 <= ny <= usize::MAX {
        Some(Position { x: nx as usize, y: ny as usize })
    } else {
        None
    }
}

/// The position one step from `pos` in direction `k`.
pub fn neighbour(pos: Position, k: usize) -> (next: Option<Position>)
    requires
        k < 8,
    ensures
        next == shifted(pos, k as int),
{
    let left = k == 0 || k == 4 || k == 5;
    let right = k == 1 || k == 6 || k == 7;
    let up = k == 2 || k == 4 || k == 6;
    let down = k == 3 || k == 5 || k == 7;
    if (left && pos.x == 0) || (right && pos.x == usize::MAX) || (up && pos.y == 0) || (down
        && pos.y == usize::MAX) {
        return None;
    }
    let x = if left {
        pos.x - 1
    } else if right {
        pos.x + 1
    } else {
        pos.x
    };
    let y = if up {
        pos.y - 1
    } else if down {
        pos.y + 1
    } else {
        pos.y
    };
    Some(Position { x, y })
}

/// Every cell around `a` lies one step from it in one of the eight directions.
proof fn lemma_neighbour_direction(a: Position, b: Position) -> (k: int)
    requires
        is_neighbour(a, b),
    ensures
        0 <= k < 8,
        shifted(a, k) == Some(b),
{
    let dx = b.x - a.x;
    let dy = b.y - a.y;
    if dx == -1 && dy == 0 {
        0
    } else if dx == 1 && dy == 0 {
        1
    } else if dx == 0 && dy == -1 {
        2
    } else if dx == 0 && dy == 1 {
        3
    } else if dx == -1 && dy == -1 {
        4
    } else if dx == -1 && dy == 1 {
        5
    } else if dx == 1 && dy == -1 {
        6
    } else {
        7
    }
}

/// No path has a negative cost.
pub proof fn lemma_path_cost_nonnegative(map: GridMap, path: Seq<Position>)
    requires
        is_path(map, path),
    ensures
        path_cost(map, path) >= 0,
    decreases path.len(),
{
    if path.len() > 1 {
        let prefix = path.drop_last();
        assert forall|i: int| 0 <= i < prefix.len() - 1 implies step_allowed(
            map,
            #[trigger] prefix[i],
            prefix[i + 1],
        ) by {
            assert(step_allowed(map, path[i], path[i + 1]));
        }
        lemma_path_cost_nonnegative(map, prefix);
        assert(step_allowed(map, path[path.len() - 2], path[path.len() - 2 + 1]));
    }
}

/// A path followed by one more allowed step is a path, and costs that step more.
proof fn lemma_extend_path(map: GridMap, path: Seq<Position>, from: Position, to: Position, next: Position)
    requires
        connects(map, path, from, to),
        step_allowed(map, to, next),
    ensures
        connects(map, path.push(next), from, next),
        path_cost(map, path.push(next)) == path_cost(map, path) + step_cost(map, to, next),
{
    let longer = path.push(next);
    assert(longer.drop_last() =~= path);
    assert forall|i: int| 0 <= i < longer.len() - 1 implies step_allowed(
        map,
        #[trigger] longer[i],
        longer[i + 1],
    ) by {
        if i < path.len() - 1 {
            assert(step_allowed(map, path[i], path[i + 1]));
        }
    }
}

/// Some path from `start` to `pos` costs exactly `cost`.
spec fn reached_at(map: GridMap, start: Position, pos: Position, cost: int) -> bool {
    exists|path: Seq<Position>| connects(map, path, start, pos) && path_cost(map, path) == cost
}

/// What the search holds of every entry of the open list.
spec fn node_ok(map: GridMap, start: Position, budget: u32, pos: Position, cost: u32) -> bool {
    &&& map.contains(pos)
    &&& cost <= budget
    &&& reached_at(map, start, pos, cost as int)
}

/// The open list holds an entry for `pos` at `cost`.
spec fn queued(open: Seq<Node>, pos: Position, cost: u32) -> bool {
    exists|i: int| 0 <= i < open.len() && (#[trigger] open[i]).pos == pos && open[i].cost == cost
}

/// The step from `c` in direction `k` has been tried at the best cost of `c`:
/// if it is allowed and within budget, the cell it leads to is recorded at no more.
spec fn relaxed_dir(map: GridMap, budget: u32, best: Seq<u32>, c: Position, k: int) -> bool {
    match shifted(c, k) {
        Some(n) => step_allowed(map, c, n) && best[map.cell_index(c)] + step_cost(map, c, n)
            <= budget ==> best[map.cell_index(n)] <= best[map.cell_index(c)] + step_cost(
            map,
            c,
            n,
        ),
        None => true,
    }
}

/// The steps from `c` in the first `done` directions have been tried at its best cost.
spec fn relaxed_upto(map: GridMap, budget: u32, best: Seq<u32>, c: Position, done: int) -> bool {
    forall|k: int| 0 <= k < done ==> relaxed_dir(map, budget, best, c, k)
}

/// What the search holds of every cell it has reached: its recorded cost is within
/// budget, and either an entry at that cost waits in the open list, or the steps out
/// of the cell have been tried at that cost (for the entry being expanded, the first
/// `done` of them).
spec fn cell_ok(
    map: GridMap,
    budget: u32,
    best: Seq<u32>,
    open: Seq<Node>,
    c: Position,
    cur: Position,
    cur_cost: u32,
    done: int,
) -> bool {
    let recorded = best[map.cell_index(c)];
    recorded != UNREACHED ==> {
        &&& recorded <= budget
        &&& queued(open, c, recorded) || relaxed_upto(
            map,
            budget,
            best,
            c,
            if c == cur && recorded == cur_cost {
                done
            } else {
                8
            },
        )
    }
}

/// The state of the search while the entry `(cur, cur_cost)` is being expanded and
/// `done` of the eight directions have been tried.
spec fn search_inv(
    map: GridMap,
    start: Position,
    dest: Position,
    budget: u32,
    best: Seq<u32>,
    open: Seq<Node>,
    cur: Position,
    cur_cost: u32,
    done: int,
) -> bool {
    &&& map.wf()
    &&& map.contains(start)
    &&& map.contains(dest)
    &&& budget <= MAX_BUDGET
    &&& best.len() == map.tiles@.len()
    &&& best[map.cell_index(start)] == 0
    &&& forall|i: int|
        0 <= i < open.len() ==> node_ok(map, start, budget, (#[trigger] open[i]).pos, open[i].cost)
    &&& forall|i: int|
        0 <= i < open.len() ==> (#[trigger] open[i]).score == open[i].cost + octile_distance(
            open[i].pos,
            dest,
        )
    &&& forall|c: Position|
        map.contains(c) ==> #[trigger] cell_ok(map, budget, best, open, c, cur, cur_cost, done)
    &&& best[map.cell_index(dest)] != UNREACHED ==> queued(open, dest, best[map.cell_index(dest)])
}

/// What a recorded cost counts towards the measure that the search decreases.
spec fn weight(recorded: u32, budget: u32) -> nat {
    if recorded == UNREACHED {
        (budget + 1) as nat
    } else {
        recorded as nat
    }
}

/// The measure that every improvement of a recorded cost decreases.
spec fn potential(best: Seq<u32>, budget: u32) -> nat
    decreases best.len(),
{
    if best.len() == 0 {
        0
    } else {
        potential(best.drop_last(), budget) + weight(best.last(), budget)
    }
}

/// Recording `v` for one cell changes the measure by the difference of the two weights.
proof fn lemma_potential_update(best: Seq<u32>, budget: u32, i: int, v: u32)
    requires
        0 <= i < best.len(),
    ensures
        potential(best.update(i, v), budget) == potential(best, budget) - weight(best[i], budget)
            + weight(v, budget),
    decreases best.len(),
{
    let updated = best.update(i, v);
    if i == best.len() - 1 {
        assert(updated.drop_last() =~= best.drop_last());
    } else {
        assert(updated.drop_last() =~= best.drop_last().update(i, v));
        lemma_potential_update(best.drop_last(), budget, i, v);
    }
}

/// An entry stays queued when another entry leaves the open list.
proof fn lemma_queued_after_remove(open: Seq<Node>, k: int, pos: Position, cost: u32)
    requires
        0 <= k < open.len(),
        queued(open, pos, cost),
        !(open[k].pos == pos && open[k].cost == cost),
    ensures
        queued(open.remove(k), pos, cost),
{
    let i = choose|i: int| 0 <= i < open.len() && (#[trigger] open[i]).pos == pos && open[i].cost == cost;
    let rest = open.remove(k);
    if i < k {
        assert(rest[i] == open[i]);
    } else {
        assert(rest[i - 1] == open[i]);
    }
}

/// An entry stays queued when another entry joins the open list.
proof fn lemma_queued_after_push(open: Seq<Node>, node: Node, pos: Position, cost: u32)
    requires
        queued(open, pos, cost) || (node.pos == pos && node.cost == cost),
    ensures
        queued(open.push(node), pos, cost),
{
    let longer = open.push(node);
    if queued(open, pos, cost) {
        let i = choose|i: int| 0 <= i < open.len() && (#[trigger] open[i]).pos == pos && open[i].cost == cost;
        assert(longer[i] == open[i]);
    } else {
        assert(longer[open.len() as int] == node);
    }
}

/// Taking the entry at `k` off the open list begins its expansion.
proof fn lemma_begin_expansion(
    map: GridMap,
    start: Position,
    dest: Position,
    budget: u32,
    best: Seq<u32>,
    open: Seq<Node>,
    k: int,
)
    requires
        0 <= k < open.len(),
        open[k].pos != dest,
        search_inv(map, start, dest, budget, best, open, start, 0, 8),
    ensures
        search_inv(map, start, dest, budget, best, open.remove(k), open[k].pos, open[k].cost, 0),
{
    let rest = open.remove(k);
    let cur = open[k].pos;
    let cur_cost = open[k].cost;
    assert forall|i: int| 0 <= i < rest.len() implies node_ok(
        map,
        start,
        budget,
        (#[trigger] rest[i]).pos,
        rest[i].cost,
    ) by {
        if i < k {
            assert(rest[i] == open[i]);
        } else {
            assert(rest[i] == open[i + 1]);
        }
    }
    assert forall|c: Position| map.contains(c) implies #[trigger] cell_ok(
        map,
        budget,
        best,
        rest,
        c,
        cur,
        cur_cost,
        0,
    ) by {
        assert(cell_ok(map, budget, best, open, c, start, 0, 8));
        let recorded = best[map.cell_index(c)];
        if recorded != UNREACHED && !(c == cur && recorded == cur_cost) && queued(open, c, recorded) {
            lemma_queued_after_remove(open, k, c, recorded);
        }
    }
    let at_dest = best[map.cell_index(dest)];
    if at_dest != UNREACHED {
        lemma_queued_after_remove(open, k, dest, at_dest);
    }
}

/// A direction that yields nothing new counts as tried.
proof fn lemma_direction_tried(
    map: GridMap,
    start: Position,
    dest: Position,
    budget: u32,
    best: Seq<u32>,
    open: Seq<Node>,
    cur: Position,
    cur_cost: u32,
    done: int,
)
    requires
        0 <= done < 8,
        map.contains(cur),
        search_inv(map, start, dest, budget, best, open, cur, cur_cost, done),
        best[map.cell_index(cur)] == cur_cost ==> relaxed_dir(map, budget, best, cur, done),
    ensures
        search_inv(map, start, dest, budget, best, open, cur, cur_cost, done + 1),
{
    assert forall|c: Position| map.contains(c) implies #[trigger] cell_ok(
        map,
        budget,
        best,
        open,
        c,
        cur,
        cur_cost,
        done + 1,
    ) by {
        assert(cell_ok(map, budget, best, open, c, cur, cur_cost, done));
    }
}

/// Recording a lower cost for the cell `n`, reached by the step in direction `done`
/// from the entry being expanded, and queueing an entry for it, keeps the state of
/// the search and counts the direction as tried.
proof fn lemma_improvement(
    map: GridMap,
    start: Position,
    dest: Position,
    budget: u32,
    best: Seq<u32>,
    open: Seq<Node>,
    cur: Position,
    cur_cost: u32,
    done: int,
    n: Position,
    node: Node,
)
    requires
        0 <= done < 8,
        search_inv(map, start, dest, budget, best, open, cur, cur_cost, done),
        node_ok(map, start, budget, cur, cur_cost),
        shifted(cur, done) == Some(n),
        step_allowed(map, cur, n),
        node.pos == n,
        node.score == node.cost + octile_distance(n, dest),
        node.cost == cur_cost + step_cost(map, cur, n),
        node.cost <= budget,
        node.cost < best[map.cell_index(n)],
    ensures
        search_inv(
            map,
            start,
            dest,
            budget,
            best.update(map.cell_index(n), node.cost),
            open.push(node),
            cur,
            cur_cost,
            done + 1,
        ),
        potential(best.update(map.cell_index(n), node.cost), budget) < potential(best, budget),
{
    let ni = map.cell_index(n);
    let improved = best.update(ni, node.cost);
    let longer = open.push(node);
    map.lemma_cell_index_in_range(n);
    map.lemma_cell_index_in_range(start);
    map.lemma_cell_index_in_range(dest);
    map.lemma_cell_index_in_range(cur);
    lemma_potential_update(best, budget, ni, node.cost);

    // The new entry stands for a real path: the one to `cur`, and the step to `n`.
    let path = choose|path: Seq<Position>|
        connects(map, path, start, cur) && path_cost(map, path) == cur_cost as int;
    lemma_extend_path(map, path, start, cur, n);
    assert(reached_at(map, start, n, node.cost as int));

    assert forall|i: int| 0 <= i < longer.len() implies node_ok(
        map,
        start,
        budget,
        (#[trigger] longer[i]).pos,
        longer[i].cost,
    ) by {
        if i < open.len() {
            assert(longer[i] == open[i]);
        }
    }

    assert forall|c: Position| map.contains(c) implies #[trigger] cell_ok(
        map,
        budget,
        improved,
        longer,
        c,
        cur,
        cur_cost,
        done + 1,
    ) by {
        assert(cell_ok(map, budget, best, open, c, cur, cur_cost, done));
        map.lemma_cell_index_in_range(c);
        let ci = map.cell_index(c);
        if c == n {
            lemma_queued_after_push(open, node, n, node.cost);
        } else {
            if ci == ni {
                map.lemma_cell_index_injective(c, n);
            }
            let recorded = best[ci];
            assert(improved[ci] == recorded);
            if recorded != UNREACHED {
                if queued(open, c, recorded) {
                    lemma_queued_after_push(open, node, c, recorded);
                } else {
                    let bound_before = if c == cur && recorded == cur_cost {
                        done
                    } else {
                        8
                    };
                    let bound_after = if c == cur && recorded == cur_cost {
                        done + 1
                    } else {
                        8
                    };
                    assert(relaxed_upto(map, budget, best, c, bound_before));
                    assert forall|k: int| 0 <= k < bound_after implies relaxed_dir(
                        map,
                        budget,
                        improved,
                        c,
                        k,
                    ) by {
                        if k < bound_before {
                            assert(relaxed_dir(map, budget, best, c, k));
                            match shifted(c, k) {
                                Some(m) => {
                                    if step_allowed(map, c, m) {
                                        map.lemma_cell_index_in_range(m);
                                        if map.cell_index(m) == ni {
                                            map.lemma_cell_index_injective(m, n);
                                        }
                                    }
                                },
                                None => {},
                            }
                        }
                    }
                }
            }
        }
    }

    let at_dest = improved[map.cell_index(dest)];
    if at_dest != UNREACHED {
        if dest == n {
            lemma_queued_after_push(open, node, dest, at_dest);
        } else {
            if map.cell_index(dest) == ni {
                map.lemma_cell_index_injective(dest, n);
            }
            lemma_queued_after_push(open, node, dest, at_dest);
        }
    }
    if map.cell_index(start) == ni {
        map.lemma_cell_index_injective(start, n);
    }
}

/// Once the open list is empty, every cell that a path within budget leads to is
/// recorded at no more than that path costs.
proof fn lemma_exhausted(
    map: GridMap,
    start: Position,
    dest: Position,
    budget: u32,
    best: Seq<u32>,
    path: Seq<Position>,
    to: Position,
)
    requires
        search_inv(map, start, dest, budget, best, Seq::<Node>::empty(), start, 0, 8),
        connects(map, path, start, to),
        path_cost(map, path) <= budget,
    ensures
        map.contains(to),
        best[map.cell_index(to)] <= path_cost(map, path),
    decreases path.len(),
{
    if path.len() > 1 {
        let prefix = path.drop_last();
        let via = prefix.last();
        assert forall|i: int| 0 <= i < prefix.len() - 1 implies step_allowed(
            map,
            #[trigger] prefix[i],
            prefix[i + 1],
        ) by {
            assert(step_allowed(map, path[i], path[i + 1]));
        }
        assert(step_allowed(map, path[path.len() - 2], path[path.len() - 2 + 1]));
        assert(via == path[path.len() - 2]);
        lemma_path_cost_nonnegative(map, prefix);
        lemma_exhausted(map, start, dest, budget, best, prefix, via);
        assert(cell_ok(map, budget, best, Seq::<Node>::empty(), via, start, 0, 8));
        let k = lemma_neighbour_direction(via, to);
        assert(relaxed_dir(map, budget, best, via, k));
    }
}

/// Tries the step in direction `d` from the entry `(pos, cost)` that is being expanded:
/// where it is allowed, within budget and cheaper than what is recorded for the cell it
/// leads to, records the new cost and queues an entry for that cell.
fn relax(
    map: &GridMap,
    best: &mut Vec<u32>,
    open: &mut Vec<Node>,
    dest: Position,
    pos: Position,
    cost: u32,
    d: usize,
    budget: u32,
    Ghost(start): Ghost<Position>,
)
    requires
        d < 8,
        search_inv(*map, start, dest, budget, old(best)@, old(open)@, pos, cost, d as int),
        node_ok(*map, start, budget, pos, cost),
    ensures
        search_inv(*map, start, dest, budget, final(best)@, final(open)@, pos, cost, d + 1),
        (final(best)@ == old(best)@ && final(open)@ == old(open)@) || potential(
            final(best)@,
            budget,
        ) < potential(old(best)@, budget),
{
    let next = match neighbour(pos, d) {
        Some(next) => next,
        None => {
            proof {
                lemma_direction_tried(*map, start, dest, budget, best@, open@, pos, cost, d as int);
            }
            return ;
        },
    };
    if !map.in_bounds(&next) {
        proof {
            lemma_direction_tried(*map, start, dest, budget, best@, open@, pos, cost, d as int);
        }
        return ;
    }
    let diagonal = next.x != pos.x && next.y != pos.y;
    if diagonal {
        let adj1 = Position { x: pos.x, y: next.y };
        let adj2 = Position { x: next.x, y: pos.y };
        if matches!(map.terrain_at(&adj1), TerrainType::Blocked) || matches!(
            map.terrain_at(&adj2),
            TerrainType::Blocked
        ) {
            proof {
                lemma_direction_tried(*map, start, dest, budget, best@, open@, pos, cost, d as int);
            }
            return ;
        }
    }
    let step = tile_cost(map.terrain_at(&next), diagonal);
    if step == u32::MAX {
        proof {
            lemma_direction_tried(*map, start, dest, budget, best@, open@, pos, cost, d as int);
        }
        return ;
    }
    let next_cost = cost + step;
    if next_cost > budget {
        proof {
            lemma_direction_tried(*map, start, dest, budget, best@, open@, pos, cost, d as int);
        }
        return ;
    }
    let ni = map.index(&next);
    if next_cost < best[ni] {
        let node = Node { score: next_cost as u128 + heuristic(&next, &dest), cost: next_cost, pos: next };
        proof {
            lemma_improvement(*map, start, dest, budget, best@, open@, pos, cost, d as int, next, node);
        }
        best[ni] = next_cost;
        open.push(node);
    } else {
        proof {
            lemma_direction_tried(*map, start, dest, budget, best@, open@, pos, cost, d as int);
        }
    }
}

/// Whether some path from `start` to `dest` costs no more than half of `agility`,
/// rounded down.
pub fn within_reach(map: &GridMap, start: Position, dest: Position, agility: i32) -> (found: bool)
    requires
        map.wf(),
        map.contains(dest),
    ensures
        found == reachable_within(*map, start, dest, agility as int / 2),
{
    if agility < 0 || !map.in_bounds(&start) {
        proof {
            assert forall|path: Seq<Position>| connects(*map, path, start, dest) implies path_cost(
                *map,
                path,
            ) > agility as int / 2 by {
                lemma_path_cost_nonnegative(*map, path);
            }
        }
        return false;
    }
    let budget: u32 = (agility / 2) as u32;
    assert(budget == agility as int / 2);
    let mut best: Vec<u32> = vec![UNREACHED; map.tiles.len()];
    let start_index = map.index(&start);
    best[start_index] = 0;
    let mut open: Vec<Node> = Vec::new();
    open.push(Node { score: heuristic(&start, &dest), cost: 0, pos: start });
    proof {
        let ghost origin = seq![start];
        assert(connects(*map, origin, start, start));
        assert(path_cost(*map, origin) == 0);
        assert(reached_at(*map, start, start, 0));
        assert forall|c: Position| map.contains(c) implies #[trigger] cell_ok(
            *map,
            budget,
            best@,
            open@,
            c,
            start,
            0,
            8,
        ) by {
            map.lemma_cell_index_in_range(c);
            if map.cell_index(c) == start_index {
                map.lemma_cell_index_injective(c, start);
                assert(open@[0].pos == start);
            }
        }
        map.lemma_cell_index_in_range(dest);
        if map.cell_index(dest) == start_index {
            map.lemma_cell_index_injective(dest, start);
            assert(open@[0].pos == start);
        }
    }
    while open.len() > 0
        invariant
            budget == agility as int / 2,
            search_inv(*map, start, dest, budget, best@, open@, start, 0, 8),
        decreases potential(best@, budget), open@.len(),
    {
        let ghost best_before = best@;
        let ghost open_before = open@;
        let k = best_index(&open);
        let node = open.remove(k);
        if node.pos == dest {
            proof {
                assert(node_ok(*map, start, budget, open_before[k as int].pos, open_before[k as int].cost));
                let path = choose|path: Seq<Position>|
                    connects(*map, path, start, dest) && path_cost(*map, path) == node.cost as int;
                assert(connects(*map, path, start, dest) && path_cost(*map, path) <= budget);
            }
            return true;
        }
        proof {
            assert(node_ok(*map, start, budget, open_before[k as int].pos, open_before[k as int].cost));
            lemma_begin_expansion(*map, start, dest, budget, best@, open_before, k as int);
        }
        let mut d: usize = 0;
        while d < 8
            invariant
                d <= 8,
                node_ok(*map, start, budget, node.pos, node.cost),
                search_inv(*map, start, dest, budget, best@, open@, node.pos, node.cost, d as int),
                (best@ == best_before && open@ == open_before.remove(k as int)) || potential(
                    best@,
                    budget,
                ) < potential(best_before, budget),
            decreases 8 - d,
        {
            relax(map, &mut best, &mut open, dest, node.pos, node.cost, d, budget, Ghost(start));
            d += 1;
        }
        proof {
            assert forall|c: Position| map.contains(c) implies #[trigger] cell_ok(
                *map,
                budget,
                best@,
                open@,
                c,
                start,
                0,
                8,
            ) by {
                assert(cell_ok(*map, budget, best@, open@, c, node.pos, node.cost, 8));
            }
        }
    }
    proof {
        assert(open@ =~= Seq::<Node>::empty());
        assert forall|path: Seq<Position>| connects(*map, path, start, dest) implies path_cost(
            *map,
            path,
        ) > budget by {
            if path_cost(*map, path) <= budget {
                lemma_exhausted(*map, start, dest, budget, best@, path, dest);
                assert(queued(open@, dest, best@[map.cell_index(dest)]));
            }
        }
    }
    false
}

} // verus!

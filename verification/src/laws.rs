//! The laws of the automaton, stated and proved over the model: how each
//! cell transitions, that the boundary absorbs, that a step is a pure
//! function of the grid before it, and what an all-dead row renders as.

use vstd::prelude::*;

use crate::model::{
    count_one, live_at, live_neighbor_count, next_state, row_text, step,
};

verus! {

/// After a step, a previously live cell is alive exactly when it had two or
/// three live neighbors in the grid before the step, and a previously dead
/// cell is alive exactly when it had three.
pub proof fn lemma_step_cell(g: Seq<Seq<bool>>, r: int, c: int)
    requires
        0 <= r < g.len(),
        0 <= c < g[r].len(),
    ensures
        step(g)[r][c] == next_state(g[r][c], live_neighbor_count(g, r, c)),
        g[r][c] ==> (step(g)[r][c] <==> (live_neighbor_count(g, r, c) == 2
            || live_neighbor_count(g, r, c) == 3)),
        !g[r][c] ==> (step(g)[r][c] <==> live_neighbor_count(g, r, c) == 3),
{
}

/// A position only counts as live when it lies inside the grid: nothing
/// outside the bounds is ever counted, and nothing wraps.
pub proof fn lemma_live_within_bounds(g: Seq<Seq<bool>>, r: int, c: int)
    ensures
        live_at(g, r, c) ==> 0 <= r < g.len() && 0 <= c < g[r].len(),
{
}

/// The corner cell (0, 0) considers only its three in-bounds neighbors, so
/// its live neighbor count never exceeds three.
pub proof fn lemma_corner_neighbors(g: Seq<Seq<bool>>)
    ensures
        live_neighbor_count(g, 0, 0) == count_one(live_at(g, 0, 1)) + count_one(live_at(g, 1, 0))
            + count_one(live_at(g, 1, 1)),
        0 <= live_neighbor_count(g, 0, 0) <= 3,
{
}

/// Stepping is a pure function of the grid before the step: equal grids
/// step to equal grids, whatever populated them.
pub proof fn lemma_step_deterministic(g1: Seq<Seq<bool>>, g2: Seq<Seq<bool>>)
    requires
        g1 == g2,
    ensures
        step(g1) == step(g2),
{
}

/// A row without a live cell renders as one space per cell and nothing else.
pub proof fn lemma_dead_row_text(row: Seq<bool>)
    requires
        forall|c: int| 0 <= c < row.len() ==> !row[c],
    ensures
        row_text(row) == Seq::new(row.len(), |c: int| ' '),
{
    assert(row_text(row) =~= Seq::new(row.len(), |c: int| ' '));
}

} // verus!

//! Mathematical model of the automaton: a grid is a sequence of rows, each a
//! sequence of booleans (alive/dead). The transition rule, neighbor counting
//! and the textual projection are defined here as spec functions; the
//! executable code in `game` is proved against them.

use vstd::prelude::*;

verus! {

/// The grid a vector of cell rows denotes.
pub open spec fn grid_of(cells: &Vec<Vec<bool>>) -> Seq<Seq<bool>> {
    cells@.map_values(|row: Vec<bool>| row@)
}

/// A grid is well formed when it has exactly `n_rows` rows of `n_cols` cells each.
pub open spec fn grid_wf(g: Seq<Seq<bool>>, n_rows: nat, n_cols: nat) -> bool {
    &&& g.len() == n_rows
    &&& forall|r: int| 0 <= r < g.len() ==> (#[trigger] g[r]).len() == n_cols
}

/// The column count a grid's first row fixes; an empty grid has none.
pub open spec fn first_row_len(g: Seq<Seq<bool>>) -> nat {
    if g.len() == 0 {
        0
    } else {
        g[0].len()
    }
}

/// Whether every row of `g` has the length of the first.
pub open spec fn rectangular(g: Seq<Seq<bool>>) -> bool {
    forall|r: int| 0 <= r < g.len() ==> (#[trigger] g[r]).len() == first_row_len(g)
}

/// Whether position (r, c) holds a live cell. Positions outside the grid are
/// dead: the boundary absorbs, it never wraps.
pub open spec fn live_at(g: Seq<Seq<bool>>, r: int, c: int) -> bool {
    0 <= r < g.len() && 0 <= c < g[r].len() && g[r][c]
}

/// One when alive, zero when dead.
pub open spec fn count_one(b: bool) -> int {
    if b {
        1int
    } else {
        0int
    }
}

/// How many of the eight positions around (r, c) hold a live cell.
pub open spec fn live_neighbor_count(g: Seq<Seq<bool>>, r: int, c: int) -> int {
    count_one(live_at(g, r - 1, c - 1)) + count_one(live_at(g, r - 1, c)) + count_one(
        live_at(g, r - 1, c + 1),
    ) + count_one(live_at(g, r, c - 1)) + count_one(live_at(g, r, c + 1)) + count_one(
        live_at(g, r + 1, c - 1),
    ) + count_one(live_at(g, r + 1, c)) + count_one(live_at(g, r + 1, c + 1))
}

/// The transition rule: a live cell survives with two or three live
/// neighbors, a dead cell comes to life with exactly three.
pub open spec fn next_state(alive: bool, n: int) -> bool {
    if alive {
        n == 2 || n == 3
    } else {
        n == 3
    }
}

/// One synchronous generation: every cell transitions at once, each from the
/// neighbor counts of the grid before the step.
pub open spec fn step(g: Seq<Seq<bool>>) -> Seq<Seq<bool>> {
    Seq::new(
        g.len(),
        |r: int|
            Seq::new(
                g[r].len(),
                |c: int| next_state(g[r][c], live_neighbor_count(g, r, c)),
            ),
    )
}

/// The glyph a cell renders as: a filled block when alive, a space when dead.
pub open spec fn glyph(alive: bool) -> char {
    if alive {
        '█'
    } else {
        ' '
    }
}

/// The textual projection of one row: one glyph per cell, no separators.
pub open spec fn row_text(row: Seq<bool>) -> Seq<char> {
    Seq::new(row.len(), |c: int| glyph(row[c]))
}

} // verus!

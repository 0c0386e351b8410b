//! The grid automaton: a rectangular boolean matrix advanced one generation
//! at a time under the transition rule of `model`, with absorbing boundaries.

use vstd::prelude::*;

use crate::model::{
    first_row_len, glyph, grid_of, grid_wf, live_at, live_neighbor_count, next_state, rectangular,
    row_text, step,
};
use rand::RngExt;

verus! {

use vstd::string::StringExecFns;

/// Denominator of the initial-population policy: at construction each cell is
/// alive with probability one in this many.
pub const ALIVE_ONE_IN: u8 = 10;

/// A populated grid of live and dead cells, advanced in place by `update`.
#[derive(Debug)]
pub struct Game {
    cells: Vec<Vec<bool>>,
    n_rows: usize,
    n_cols: usize,
}

impl View for Game {
    type V = Seq<Seq<bool>>;

    closed spec fn view(&self) -> Seq<Seq<bool>> {
        grid_of(&self.cells)
    }
}

impl Game {
    /// The number of rows fixed at construction.
    pub closed spec fn rows(&self) -> nat {
        self.n_rows as nat
    }

    /// The number of columns fixed at construction.
    pub closed spec fn cols(&self) -> nat {
        self.n_cols as nat
    }

    /// The grid invariant: exactly `rows()` rows of `cols()` cells each.
    pub open spec fn wf(&self) -> bool {
        grid_wf(self@, self.rows(), self.cols())
    }
}

/// Relies on rand's `RngExt::random_range` on the thread-local generator:
/// it samples the non-empty range `0..denom` uniformly, so the result lies
/// strictly below `denom` (it panics only on an empty range, which the
/// precondition rules out).
#[verifier::external_body]
fn sample_one_in(denom: u8) -> (r: u8)
    requires
        denom > 0,
    ensures
        r < denom,
{
    rand::rng().random_range(0..denom)
}

impl Game {
    /// Build a grid of `n_rows` by `n_cols` cells, each populated
    /// independently at random, alive with probability one in
    /// `ALIVE_ONE_IN`.
    #[verifier::loop_isolation(false)]
    pub fn new(n_rows: usize, n_cols: usize) -> (g: Game)
        requires
            n_rows < usize::MAX,
            n_cols < usize::MAX,
        ensures
            g.wf(),
            g.rows() == n_rows,
            g.cols() == n_cols,
    {
        let mut cells: Vec<Vec<bool>> = Vec::new();
        let mut r: usize = 0;
        while r < n_rows
            invariant
                r <= n_rows,
                cells@.len() == r,
                forall|i: int| 0 <= i < r ==> (#[trigger] cells@[i])@.len() == n_cols,
            decreases n_rows - r,
        {
            let mut row: Vec<bool> = Vec::new();
            let mut c: usize = 0;
            while c < n_cols
                invariant
                    c <= n_cols,
                    row@.len() == c,
                decreases n_cols - c,
            {
                row.push(sample_one_in(ALIVE_ONE_IN) == 0);
                c += 1;
            }
            cells.push(row);
            r += 1;
        }
        Game { cells, n_rows, n_cols }
    }

    /// Build a grid from explicitly given cells, for a caller that wants a
    /// chosen rather than a random population. Returns `None` exactly when
    /// the rows are not all of one length.
    #[verifier::loop_isolation(false)]
    pub fn from_cells(cells: Vec<Vec<bool>>) -> (g: Option<Game>)
        ensures
            match g {
                Some(game) => {
                    &&& rectangular(grid_of(&cells))
                    &&& game.wf()
                    &&& game@ == grid_of(&cells)
                    &&& game.rows() == grid_of(&cells).len()
                    &&& game.cols() == first_row_len(grid_of(&cells))
                },
                None => !rectangular(grid_of(&cells)),
            },
    {
        let n_rows = cells.len();
        let n_cols = if n_rows == 0 {
            0
        } else {
            cells[0].len()
        };
        let mut r: usize = 0;
        while r < n_rows
            invariant
                r <= n_rows,
                forall|i: int| 0 <= i < r ==> (#[trigger] cells@[i])@.len() == n_cols,
            decreases n_rows - r,
        {
            if cells[r].len() != n_cols {
                assert(grid_of(&cells)[r as int].len() != first_row_len(grid_of(&cells)));
                return None;
            }
            r += 1;
        }
        Some(Game { cells, n_rows, n_cols })
    }

    /// Advance the grid by exactly one generation. Every cell transitions at
    /// once: each next value is computed from the grid as it stood before
    /// this call, written into a fresh buffer, and the buffer is swapped in
    /// only after the full pass.
    #[verifier::loop_isolation(false)]
    pub fn update(&mut self)
        requires
            old(self).wf(),
        ensures
            final(self).wf(),
            final(self).rows() == old(self).rows(),
            final(self).cols() == old(self).cols(),
            final(self)@ == step(old(self)@),
            forall|r: int, c: int|
                0 <= r < final(self)@.len() && 0 <= c < final(self)@[r].len() ==> final(
                    self)@[r][c] == next_state(
                    old(self)@[r][c],
                    live_neighbor_count(old(self)@, r, c),
                ),
    {
        let mut next: Vec<Vec<bool>> = Vec::new();
        let mut r: usize = 0;
        while r < self.n_rows
            invariant
                r <= self.n_rows,
                next@.len() == r,
                forall|i: int| 0 <= i < r ==> (#[trigger] next@[i])@ == step(self@)[i],
            decreases self.n_rows - r,
        {
            let mut row: Vec<bool> = Vec::new();
            let mut c: usize = 0;
            while c < self.n_cols
                invariant
                    r < self.n_rows,
                    c <= self.n_cols,
                    row@.len() == c,
                    forall|j: int|
                        0 <= j < c ==> row@[j] == next_state(
                            self@[r as int][j],
                            live_neighbor_count(self@, r as int, j),
                        ),
                decreases self.n_cols - c,
            {
                let n_alive_nbs = neighbors(r, c, &self.cells);
                row.push(is_alive(self.cells[r][c], n_alive_nbs));
                c += 1;
            }
            assert(row@ =~= step(self@)[r as int]);
            next.push(row);
            r += 1;
        }
        self.cells = next;
        assert(self@ =~= step(old(self)@));
    }

    /// The textual snapshot of the current grid: one line per row, one glyph
    /// per cell, a filled block for alive and a space for dead, with no
    /// separators. Purely observational; printing it is the driver's affair.
    #[verifier::loop_isolation(false)]
    pub fn render(&self) -> (lines: Vec<String>)
        ensures
            lines@.len() == self@.len(),
            forall|r: int| 0 <= r < self@.len() ==> (#[trigger] lines@[r])@ == row_text(self@[r]),
    {
        let mut lines: Vec<String> = Vec::new();
        let mut r: usize = 0;
        while r < self.cells.len()
            invariant
                r <= self.cells.len(),
                lines@.len() == r,
                forall|i: int| 0 <= i < r ==> (#[trigger] lines@[i])@ == row_text(self@[i]),
            decreases self.cells.len() - r,
        {
            let row = &self.cells[r];
            let mut line = String::new();
            let mut c: usize = 0;
            while c < row.len()
                invariant
                    r < self.cells.len(),
                    c <= row.len(),
                    line@.len() == c,
                    forall|j: int| 0 <= j < c ==> line@[j] == glyph(row@[j]),
                decreases row.len() - c,
            {
                if row[c] {
                    line.append("█");
                } else {
                    line.append(" ");
                }
                proof {
                    reveal_strlit("█");
                    reveal_strlit(" ");
                }
                c += 1;
            }
            assert(line@ =~= row_text(self@[r as int]));
            lines.push(line);
            r += 1;
        }
        lines
    }
}

/// The transition rule on one cell: given its current state and its live
/// neighbor count, whether it is alive in the next generation.
pub fn is_alive(alive: bool, n_alive_nbs: usize) -> (r: bool)
    ensures
        r == next_state(alive, n_alive_nbs as int),
{
    if alive {
        n_alive_nbs == 2 || n_alive_nbs == 3
    } else {
        n_alive_nbs == 3
    }
}

/// Whether (r, c) is an in-bounds live cell of `cells`.
fn live_cell(cells: &Vec<Vec<bool>>, r: usize, c: usize) -> (b: bool)
    ensures
        b == live_at(grid_of(cells), r as int, c as int),
{
    r < cells.len() && c < cells[r].len() && cells[r][c]
}

/// Every row of a grid read out of a vector fits in a `usize` length, so a
/// position past `usize::MAX` can never be in bounds.
proof fn lemma_grid_len_bounds(cells: &Vec<Vec<bool>>)
    ensures
        grid_of(cells).len() <= usize::MAX,
        forall|i: int|
            0 <= i < grid_of(cells).len() ==> (#[trigger] grid_of(cells)[i]).len() <= usize::MAX,
{
    assert(cells@.len() == cells.len());
    assert forall|i: int|
        0 <= i < grid_of(cells).len() implies (#[trigger] grid_of(
        cells,
    )[i]).len() <= usize::MAX by {
        let row = cells@[i];
        assert(row@.len() == row.len());
    }
}

/// How many of the eight positions around (r, c) hold a live cell of
/// `cells`. Positions outside the grid count as dead; nothing wraps.
pub fn neighbors(r: usize, c: usize, cells: &Vec<Vec<bool>>) -> (n: usize)
    ensures
        n == live_neighbor_count(grid_of(cells), r as int, c as int),
{
    proof {
        lemma_grid_len_bounds(cells);
    }
    let mut n: usize = 0;
    if r > 0 {
        if c > 0 && live_cell(cells, r - 1, c - 1) {
            n += 1;
        }
        if live_cell(cells, r - 1, c) {
            n += 1;
        }
        if c < usize::MAX && live_cell(cells, r - 1, c + 1) {
            n += 1;
        }
    }
    if c > 0 && live_cell(cells, r, c - 1) {
        n += 1;
    }
    if c < usize::MAX && live_cell(cells, r, c + 1) {
        n += 1;
    }
    if r < usize::MAX {
        if c > 0 && live_cell(cells, r + 1, c - 1) {
            n += 1;
        }
        if live_cell(cells, r + 1, c) {
            n += 1;
        }
        if c < usize::MAX && live_cell(cells, r + 1, c + 1) {
            n += 1;
        }
    }
    n
}

} // verus!

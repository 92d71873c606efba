//! Cells and the per-generation transition.
//!
//! A snapshot is a row-major sequence of cells of length `width * height`.
//! The transition producing the next snapshot is a pure function of the
//! previous snapshot and the simulation parameters. Two rules are offered:
//! the identity rule, which copies the grid unchanged (useful to observe the
//! plumbing), and Conway's Game of Life with dead cells beyond the border.
//! Life is the rule this library documents and proves; a compute shader
//! that steps the grid on the GPU must mirror it.

use vstd::arithmetic::div_mod::lemma_fundamental_div_mod;
use vstd::arithmetic::div_mod::lemma_fundamental_div_mod_converse;
use vstd::prelude::*;

use crate::params::SimulationParams;

verus! {

/// One grid cell: a status byte. Zero is dead; anything else is alive.
#[derive(Clone, Copy, PartialEq, Eq, Structural, Debug)]
pub struct SimulationCell {
    pub status: u8,
}

/// Which transition the step applies.
#[derive(Clone, Copy, PartialEq, Eq, Structural, Debug)]
pub enum TransitionRule {
    /// The next snapshot equals the previous one.
    Identity,
    /// Conway's Game of Life; cells beyond the border count as dead.
    Life,
}

/// Whether the cell at `(x, y)` is alive. Coordinates outside the grid are
/// dead, which discards out-of-bounds probes the same way the shader does.
pub open spec fn spec_alive(s: Seq<SimulationCell>, w: nat, h: nat, x: int, y: int) -> bool {
    0 <= x < w && 0 <= y < h && s[y * w + x].status != 0
}

/// The number of live cells among the eight neighbours of `(x, y)`.
pub open spec fn spec_live_neighbors(
    s: Seq<SimulationCell>,
    w: nat,
    h: nat,
    x: int,
    y: int,
) -> int {
    (if spec_alive(s, w, h, x - 1, y - 1) { 1int } else { 0int })
        + (if spec_alive(s, w, h, x, y - 1) { 1int } else { 0int })
        + (if spec_alive(s, w, h, x + 1, y - 1) { 1int } else { 0int })
        + (if spec_alive(s, w, h, x - 1, y) { 1int } else { 0int })
        + (if spec_alive(s, w, h, x + 1, y) { 1int } else { 0int })
        + (if spec_alive(s, w, h, x - 1, y + 1) { 1int } else { 0int })
        + (if spec_alive(s, w, h, x, y + 1) { 1int } else { 0int })
        + (if spec_alive(s, w, h, x + 1, y + 1) { 1int } else { 0int })
}

/// The Life rule on one cell: a live cell with two or three live neighbours
/// survives, a dead cell with exactly three is born, every other cell is
/// dead in the next generation.
pub open spec fn spec_life_status(alive: bool, neighbors: int) -> u8 {
    if alive && (neighbors == 2 || neighbors == 3) {
        1u8
    } else if !alive && neighbors == 3 {
        1u8
    } else {
        0u8
    }
}

/// The cell that the chosen rule puts at `(x, y)` of the next snapshot.
pub open spec fn spec_next_cell(
    rule: TransitionRule,
    s: Seq<SimulationCell>,
    w: nat,
    h: nat,
    x: int,
    y: int,
) -> SimulationCell {
    match rule {
        TransitionRule::Identity => s[y * w + x],
        TransitionRule::Life => SimulationCell {
            status: spec_life_status(
                spec_alive(s, w, h, x, y),
                spec_live_neighbors(s, w, h, x, y),
            ),
        },
    }
}

/// The whole next snapshot, row-major.
pub open spec fn spec_next_snapshot(
    rule: TransitionRule,
    s: Seq<SimulationCell>,
    w: nat,
    h: nat,
) -> Seq<SimulationCell> {
    Seq::new(w * h, |i: int| spec_next_cell(rule, s, w, h, i % (w as int), i / (w as int)))
}

/// The identity rule changes nothing: the next snapshot is the previous
/// one, cell for cell.
pub proof fn lemma_identity_preserves_snapshot(s: Seq<SimulationCell>, w: nat, h: nat)
    requires
        s.len() == w * h,
    ensures
        spec_next_snapshot(TransitionRule::Identity, s, w, h) == s,
{
    let next = spec_next_snapshot(TransitionRule::Identity, s, w, h);
    assert forall|i: int| 0 <= i < s.len() implies next[i] == s[i] by {
        assert(w > 0) by (nonlinear_arith)
            requires
                w * h > i >= 0,
        ;
        lemma_fundamental_div_mod(i, w as int);
        assert((i / (w as int)) * (w as int) + i % (w as int) == i);
    }
    assert(next =~= s);
}

/// The row-major index of an in-bounds coordinate lies below the cell
/// count, and the count of a grid with `u32` dimensions fits in a `u64`.
proof fn lemma_row_major_index_in_range(w: int, h: int, x: int, y: int)
    requires
        0 <= x < w,
        0 <= y < h,
        w <= 0xffff_ffff,
        h <= 0xffff_ffff,
    ensures
        0 <= y * w + x < w * h,
        w * h <= 0xffff_fffe_0000_0001,
{
    assert(0 <= y * w + x < w * h && w * h <= 0xffff_fffe_0000_0001) by (nonlinear_arith)
        requires
            0 <= x < w,
            0 <= y < h,
            w <= 0xffff_ffff,
            h <= 0xffff_ffff,
    ;
}

/// Whether `(x, y)` holds a live cell, with out-of-bounds coordinates dead.
fn alive_at(cells: &Vec<SimulationCell>, params: &SimulationParams, x: i64, y: i64) -> (r: bool)
    requires
        cells@.len() == params.spec_cell_count(),
    ensures
        r == spec_alive(cells@, params.width as nat, params.height as nat, x as int, y as int),
{
    if x >= 0 && y >= 0 && x < params.width as i64 && y < params.height as i64 {
        proof {
            lemma_row_major_index_in_range(
                params.width as int,
                params.height as int,
                x as int,
                y as int,
            );
        }
        let n: usize = cells.len();
        let idx: u64 = (y as u64) * (params.width as u64) + (x as u64);
        proof {
            assert(idx < n);
        }
        cells[idx as usize].status != 0
    } else {
        false
    }
}

/// The number of live cells among the eight neighbours of `(x, y)`.
fn live_neighbors(
    cells: &Vec<SimulationCell>,
    params: &SimulationParams,
    x: i64,
    y: i64,
) -> (r: u8)
    requires
        cells@.len() == params.spec_cell_count(),
        0 <= x < params.width,
        0 <= y < params.height,
    ensures
        r == spec_live_neighbors(
            cells@,
            params.width as nat,
            params.height as nat,
            x as int,
            y as int,
        ),
{
    let mut n: u8 = 0;
    if alive_at(cells, params, x - 1, y - 1) {
        n = n + 1;
    }
    if alive_at(cells, params, x, y - 1) {
        n = n + 1;
    }
    if alive_at(cells, params, x + 1, y - 1) {
        n = n + 1;
    }
    if alive_at(cells, params, x - 1, y) {
        n = n + 1;
    }
    if alive_at(cells, params, x + 1, y) {
        n = n + 1;
    }
    if alive_at(cells, params, x - 1, y + 1) {
        n = n + 1;
    }
    if alive_at(cells, params, x, y + 1) {
        n = n + 1;
    }
    if alive_at(cells, params, x + 1, y + 1) {
        n = n + 1;
    }
    n
}

/// The cell the chosen rule puts at `(x, y)` of the next snapshot.
fn next_cell(
    cells: &Vec<SimulationCell>,
    params: &SimulationParams,
    rule: TransitionRule,
    x: u32,
    y: u32,
) -> (r: SimulationCell)
    requires
        cells@.len() == params.spec_cell_count(),
        x < params.width,
        y < params.height,
    ensures
        r == spec_next_cell(
            rule,
            cells@,
            params.width as nat,
            params.height as nat,
            x as int,
            y as int,
        ),
{
    match rule {
        TransitionRule::Identity => {
            proof {
                lemma_row_major_index_in_range(
                    params.width as int,
                    params.height as int,
                    x as int,
                    y as int,
                );
            }
            let n: usize = cells.len();
            let idx: u64 = (y as u64) * (params.width as u64) + (x as u64);
            proof {
                assert(idx < n);
            }
            cells[idx as usize]
        },
        TransitionRule::Life => {
            let alive = alive_at(cells, params, x as i64, y as i64);
            let n = live_neighbors(cells, params, x as i64, y as i64);
            let status: u8 = if alive && (n == 2 || n == 3) {
                1
            } else if !alive && n == 3 {
                1
            } else {
                0
            };
            SimulationCell { status }
        },
    }
}

/// The next snapshot of the whole grid under the chosen rule.
pub fn next_snapshot(
    cells: &Vec<SimulationCell>,
    params: &SimulationParams,
    rule: TransitionRule,
) -> (r: Vec<SimulationCell>)
    requires
        cells@.len() == params.spec_cell_count(),
    ensures
        r@ == spec_next_snapshot(
            rule,
            cells@,
            params.width as nat,
            params.height as nat,
        ),
        r@.len() == cells@.len(),
{
    let w = params.width;
    let h = params.height;
    let mut out: Vec<SimulationCell> = Vec::new();
    let mut y: u32 = 0;
    while y < h
        invariant
            y <= h,
            w == params.width,
            h == params.height,
            cells@.len() == params.spec_cell_count(),
            out@.len() == y * (w as int),
            forall|i: int|
                0 <= i < out@.len() ==> out@[i] == spec_next_cell(
                    rule,
                    cells@,
                    w as nat,
                    h as nat,
                    i % (w as int),
                    i / (w as int),
                ),
        decreases h - y,
    {
        let mut x: u32 = 0;
        while x < w
            invariant
                x <= w,
                y < h,
                w == params.width,
                h == params.height,
                cells@.len() == params.spec_cell_count(),
                out@.len() == y * (w as int) + x,
                forall|i: int|
                    0 <= i < out@.len() ==> out@[i] == spec_next_cell(
                        rule,
                        cells@,
                        w as nat,
                        h as nat,
                        i % (w as int),
                        i / (w as int),
                    ),
            decreases w - x,
        {
            let cell = next_cell(cells, params, rule, x, y);
            proof {
                lemma_fundamental_div_mod_converse(
                    (y as int) * (w as int) + (x as int),
                    w as int,
                    y as int,
                    x as int,
                );
            }
            out.push(cell);
            x = x + 1;
        }
        proof {
            assert((y + 1) * (w as int) == y * (w as int) + (w as int)) by (nonlinear_arith);
        }
        y = y + 1;
    }
    proof {
        assert((h as int) * (w as int) == (w as nat) * (h as nat)) by (nonlinear_arith);
        assert(out@ =~= spec_next_snapshot(rule, cells@, w as nat, h as nat));
    }
    out
}

} // verus!

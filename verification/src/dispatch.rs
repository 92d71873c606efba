//! Work sizing for the compute pass.
//!
//! The grid is covered by workgroups of a fixed tile size. The counts are
//! the ceiling of each dimension over its tile edge, so the dispatch covers
//! every cell with fewer than one tile of excess per axis; the shader
//! discards the out-of-bounds invocations. Counts beyond a device limit are
//! a configuration error found when the pipeline is built, not per frame.

use vstd::arithmetic::div_mod::lemma_fundamental_div_mod;
use vstd::prelude::*;

use crate::error::ConfigurationError;
use crate::params::SimulationParams;
use crate::state::SimulationState;
use crate::state::read_index_of;
use crate::state::write_index_of;

verus! {

/// Cells per workgroup along the x axis.
pub const WORKGROUP_X: u32 = 8;

/// Cells per workgroup along the y axis.
pub const WORKGROUP_Y: u32 = 8;

/// The ceiling of `d / g`.
pub open spec fn ceil_div(d: nat, g: nat) -> nat
    recommends
        g > 0,
{
    ((d + g - 1) as nat) / g
}

/// The ceiling quotient covers `d` with less than one extra group, and is
/// zero exactly on the empty dimension.
pub proof fn lemma_ceil_div_covers(d: nat, g: nat)
    requires
        g > 0,
    ensures
        ceil_div(d, g) * g >= d,
        ceil_div(d, g) * g < d + g,
        ceil_div(d, g) == 0 <==> d == 0,
{
    let q = ceil_div(d, g) as int;
    let r = ((d + g - 1) as int) % (g as int);
    lemma_fundamental_div_mod((d + g - 1) as int, g as int);
    assert(q * g >= d && q * g < d + g && (q == 0 <==> d == 0)) by (nonlinear_arith)
        requires
            (d + g - 1) as int == q * g + r,
            0 <= r < g,
            0 < g,
            0 <= d,
    ;
}

/// How many workgroups the compute pass dispatches along each axis.
#[derive(Clone, Copy, PartialEq, Eq, Structural, Debug)]
pub struct DispatchSize {
    pub x: u32,
    pub y: u32,
}

impl DispatchSize {
    /// Whether this is the exact cover of the grid by the fixed tiles.
    pub open spec fn covers(self, params: SimulationParams) -> bool {
        &&& self.x == ceil_div(params.width as nat, WORKGROUP_X as nat)
        &&& self.y == ceil_div(params.height as nat, WORKGROUP_Y as nat)
    }
}

/// A dispatch that covers the grid reaches every cell and wastes less
/// than one tile of invocations per axis; the shader discards the excess.
pub proof fn lemma_dispatch_covers_grid(d: DispatchSize, params: SimulationParams)
    requires
        d.covers(params),
    ensures
        d.x * WORKGROUP_X >= params.width,
        d.x * WORKGROUP_X < params.width + WORKGROUP_X,
        d.y * WORKGROUP_Y >= params.height,
        d.y * WORKGROUP_Y < params.height + WORKGROUP_Y,
{
    lemma_ceil_div_covers(params.width as nat, WORKGROUP_X as nat);
    lemma_ceil_div_covers(params.height as nat, WORKGROUP_Y as nat);
}

/// The per-simulation compute dispatch, sized once at pipeline creation.
pub struct StepEngine {
    pub params: SimulationParams,
    pub dispatch: DispatchSize,
}

/// What one step must do on the GPU: bind the buffer at `read_index` as
/// input and the one at `write_index` as output, and dispatch `groups`.
#[derive(Clone, Copy, PartialEq, Eq, Structural, Debug)]
pub struct StepPlan {
    pub read_index: u32,
    pub write_index: u32,
    pub groups: DispatchSize,
}

/// The ceiling quotient of a dimension over its tile edge, as a `u32`.
fn workgroup_count(dim: u32, group: u32) -> (r: u32)
    requires
        group > 0,
    ensures
        r == ceil_div(dim as nat, group as nat),
{
    let wide: u64 = ((dim as u64) + (group as u64) - 1) / (group as u64);
    proof {
        let d = dim as int;
        let g = group as int;
        let q = (d + g - 1) / g;
        let r = (d + g - 1) % g;
        lemma_fundamental_div_mod(d + g - 1, g);
        assert(q <= d) by (nonlinear_arith)
            requires
                d + g - 1 == q * g + r,
                0 <= r < g,
                0 < g,
                0 <= d,
        ;
    }
    wide as u32
}

impl StepEngine {
    /// Sizes the dispatch for the grid, or reports a configuration error
    /// where a workgroup count would exceed the device's per-dimension
    /// limit.
    pub fn new(params: SimulationParams, max_groups_per_dim: u32) -> (r: Result<
        StepEngine,
        ConfigurationError,
    >)
        ensures
            r is Ok <==> {
                &&& ceil_div(params.width as nat, WORKGROUP_X as nat) <= max_groups_per_dim
                &&& ceil_div(params.height as nat, WORKGROUP_Y as nat) <= max_groups_per_dim
            },
            r matches Ok(e) ==> e.params == params && e.dispatch.covers(params),
            r matches Err(e) ==> e == ConfigurationError::DispatchLimitExceeded,
    {
        let x = workgroup_count(params.width, WORKGROUP_X);
        let y = workgroup_count(params.height, WORKGROUP_Y);
        if x > max_groups_per_dim || y > max_groups_per_dim {
            return Err(ConfigurationError::DispatchLimitExceeded);
        }
        Ok(StepEngine { params, dispatch: DispatchSize { x, y } })
    }

    /// The plan for the store's current generation: read and write buffer
    /// indices as the store assigns them, and the sized dispatch. The two
    /// indices never coincide.
    pub fn plan(&self, store: &SimulationState) -> (r: StepPlan)
        ensures
            r.read_index == read_index_of(store.generation as nat),
            r.write_index == write_index_of(store.generation as nat),
            r.read_index != r.write_index,
            r.groups == self.dispatch,
    {
        StepPlan {
            read_index: store.read_index(),
            write_index: store.write_index(),
            groups: self.dispatch,
        }
    }
}

} // verus!

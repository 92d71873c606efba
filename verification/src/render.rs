//! What one render pass must do, as plain values the application records
//! onto the GPU's command encoder.

use vstd::prelude::*;

use crate::geometry::spec_quad_indices;
use crate::state::SimulationState;
use crate::state::read_index_of;

verus! {

/// The binding slot of the grid snapshot in the fragment stage.
pub const GRID_BINDING: u32 = 0;

/// The binding slot of the parameter uniform in the fragment stage.
pub const PARAMS_BINDING: u32 = 1;

/// A color with 8-bit channels; the application widens the channels for
/// the GPU's clear operation.
#[derive(Clone, Copy, PartialEq, Eq, Structural, Debug)]
pub struct ClearColor {
    pub red: u8,
    pub green: u8,
    pub blue: u8,
    pub alpha: u8,
}

/// The fixed background: opaque black.
pub open spec fn spec_background() -> ClearColor {
    ClearColor { red: 0u8, green: 0u8, blue: 0u8, alpha: 255u8 }
}

/// One frame's render pass: clear to the background, bind the snapshot at
/// `snapshot_index` read-only, draw the quad's six indices once.
#[derive(Clone, Copy, PartialEq, Eq, Structural, Debug)]
pub struct RenderPlan {
    pub snapshot_index: u32,
    pub index_count: u32,
    pub clear_color: ClearColor,
}

/// Plans the pass for the store's current generation. The snapshot bound
/// for sampling is the one the store marks "read": after a step that is
/// the buffer the step just finished writing, so the pass always shows the
/// newest completed generation, never a half-written one.
pub fn render_plan(store: &SimulationState) -> (r: RenderPlan)
    ensures
        r.snapshot_index == read_index_of(store.generation as nat),
        r.index_count == spec_quad_indices().len(),
        r.clear_color == spec_background(),
{
    RenderPlan {
        snapshot_index: store.read_index(),
        index_count: 6,
        clear_color: ClearColor { red: 0, green: 0, blue: 0, alpha: 255 },
    }
}

} // verus!

//! The presentation surface's configuration, as the loop tracks it.
//!
//! A surface always has a positive area: a request with a zero dimension is
//! ignored rather than applied, and a request equal to the current
//! configuration changes nothing, so no reallocation is owed for it.

use vstd::prelude::*;

verus! {

/// The dimensions the surface is configured with.
#[derive(Clone, Copy, PartialEq, Eq, Structural, Debug)]
pub struct SurfaceConfig {
    pub width: u32,
    pub height: u32,
}

/// The configuration after asking for `(w, h)`: updated when both
/// dimensions are positive, untouched otherwise.
pub open spec fn spec_reconfigured(c: SurfaceConfig, w: u32, h: u32) -> SurfaceConfig {
    if w > 0 && h > 0 {
        SurfaceConfig { width: w, height: h }
    } else {
        c
    }
}

/// Whether asking for `(w, h)` changes the stored configuration, and so
/// whether the GPU surface must be reallocated for it.
pub open spec fn spec_reconfigure_changes(c: SurfaceConfig, w: u32, h: u32) -> bool {
    w > 0 && h > 0 && (c.width != w || c.height != h)
}

/// Asking twice for the same size settles after the first request: the
/// second changes nothing and owes no reallocation.
pub proof fn lemma_reconfigure_idempotent(c: SurfaceConfig, w: u32, h: u32)
    ensures
        spec_reconfigured(spec_reconfigured(c, w, h), w, h) == spec_reconfigured(c, w, h),
        !spec_reconfigure_changes(spec_reconfigured(c, w, h), w, h),
{
}

impl SurfaceConfig {
    /// A positive area.
    pub open spec fn wf(self) -> bool {
        self.width > 0 && self.height > 0
    }

    pub fn new(width: u32, height: u32) -> (r: SurfaceConfig)
        requires
            width > 0,
            height > 0,
        ensures
            r.width == width,
            r.height == height,
            r.wf(),
    {
        SurfaceConfig { width, height }
    }

    /// Applies a size request. Returns whether the configuration changed,
    /// which is exactly when the application must reconfigure the GPU
    /// surface. A request with a zero dimension is a no-op: a zero-area
    /// surface is invalid.
    pub fn reconfigure(&mut self, w: u32, h: u32) -> (changed: bool)
        ensures
            *final(self) == spec_reconfigured(*old(self), w, h),
            changed == spec_reconfigure_changes(*old(self), w, h),
            old(self).wf() ==> final(self).wf(),
            w == 0 || h == 0 ==> *final(self) == *old(self) && !changed,
    {
        if w > 0 && h > 0 && (self.width != w || self.height != h) {
            self.width = w;
            self.height = h;
            true
        } else {
            false
        }
    }
}

/// Picks the surface format: the first sRGB entry of the capability list,
/// or the first entry where none is sRGB. The argument holds, for each
/// offered format in order, whether it is sRGB.
pub fn choose_surface_format(is_srgb: &Vec<bool>) -> (r: usize)
    requires
        is_srgb@.len() > 0,
    ensures
        r < is_srgb@.len(),
        (exists|i: int| 0 <= i < is_srgb@.len() && is_srgb@[i]) ==> is_srgb@[r as int] && (forall|
            j: int,
        | 0 <= j < r ==> !is_srgb@[j]),
        !(exists|i: int| 0 <= i < is_srgb@.len() && is_srgb@[i]) ==> r == 0,
{
    let n = is_srgb.len();
    let mut k: usize = 0;
    while k < n
        invariant
            k <= n,
            n == is_srgb@.len(),
            forall|j: int| 0 <= j < k ==> !is_srgb@[j],
        decreases n - k,
    {
        if is_srgb[k] {
            return k;
        }
        k = k + 1;
    }
    0
}

} // verus!

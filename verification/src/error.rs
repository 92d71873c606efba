//! The error taxonomy of the visualizer.
//!
//! Three families: configuration errors are fatal at startup; transient
//! surface errors are recovered by reconfiguring and retrying on the next
//! tick; fatal device errors end the frame loop.

use vstd::prelude::*;

verus! {

/// A fault found while building the simulation or its pipelines. Fatal at
/// startup: the process reports it and exits non-zero.
#[derive(Clone, Copy, PartialEq, Eq, Structural, Debug)]
pub enum ConfigurationError {
    /// The initial cell sequence does not hold exactly `width * height`
    /// cells.
    GridSizeMismatch,
    /// The dispatch over the grid would exceed a device limit.
    DispatchLimitExceeded,
    /// A shader failed to compile or link.
    ShaderCompilation,
}

/// What acquiring the next presentable frame reported, as a plain value.
/// `Lost` and `Outdated` are recoverable; `Timeout` and `OutOfMemory` are
/// not.
#[derive(Clone, Copy, PartialEq, Eq, Structural, Debug)]
pub enum SurfaceError {
    Lost,
    Outdated,
    Timeout,
    OutOfMemory,
}

/// Whether a surface error is recovered by reconfiguring the surface and
/// retrying on the next tick, rather than ending the loop.
pub open spec fn spec_is_transient(e: SurfaceError) -> bool {
    e is Lost || e is Outdated
}

impl SurfaceError {
    /// True exactly for the errors a reconfigure-and-retry recovers from.
    pub fn is_transient(&self) -> (r: bool)
        ensures
            r == spec_is_transient(*self),
    {
        match self {
            SurfaceError::Lost => true,
            SurfaceError::Outdated => true,
            SurfaceError::Timeout => false,
            SurfaceError::OutOfMemory => false,
        }
    }

    /// A short description, for the application's log line.
    pub fn describe(&self) -> String {
        match self {
            SurfaceError::Lost => "surface lost".to_string(),
            SurfaceError::Outdated => "surface outdated".to_string(),
            SurfaceError::Timeout => "frame acquisition timed out".to_string(),
            SurfaceError::OutOfMemory => "out of memory".to_string(),
        }
    }
}

impl ConfigurationError {
    /// A short description, for the application's startup report.
    pub fn describe(&self) -> String {
        match self {
            ConfigurationError::GridSizeMismatch => {
                "initial grid does not match width * height".to_string()
            },
            ConfigurationError::DispatchLimitExceeded => {
                "grid dispatch exceeds a device limit".to_string()
            },
            ConfigurationError::ShaderCompilation => "shader failed to compile".to_string(),
        }
    }
}

} // verus!

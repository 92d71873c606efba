//! Core of a double-buffered, GPU-driven cellular-automaton visualizer.
//!
//! The library holds the logic that is worth stating and proving: the
//! simulation parameters and their uniform byte layout, the ping-pong grid
//! store with its generation counter, the cell transition rules, the
//! dispatch cover arithmetic, the surface configuration rules, the
//! full-screen quad geometry, and the frame-loop controller. The GPU device,
//! the window and the event loop are collaborators at the edge; an
//! application drives them and feeds this library plain values.

pub mod controller;
pub mod dispatch;
pub mod error;
pub mod geometry;
pub mod params;
pub mod render;
pub mod rule;
pub mod state;
pub mod surface;

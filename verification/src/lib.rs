//! A verified graph-embedding and interaction engine.
//!
//! The crate owns the geometric state of a small drawn graph: per-vertex
//! positions, per-edge styles, a force-directed relaxation pass, grid
//! alignment passes, pointer hit-testing, a click/drag gesture classifier,
//! a navigable history of edge-highlight sets, and a writer that assembles
//! the drawing into a vector-graphics document.
//!
//! All coordinates are integer pixel values. Window access, rendering and
//! the floating-point force kernels live with the caller, which feeds the
//! engine plain samples (pointer position, time in milliseconds, per-pair
//! force vectors) and receives plain drawing primitives back.

pub mod geometry;
pub mod gesture;
pub mod graph;
pub mod graph_interface;
pub mod grid;
pub mod text;
pub mod graph_drawer;
pub mod svg_writer;

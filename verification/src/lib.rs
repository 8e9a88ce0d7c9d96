//! Ekad: the editing engine of a small node-and-edge diagram.
//!
//! Nodes are circles with a title, placed on an integer world grid; directed
//! edges join them. [`graph`] holds the storage interface and the in-memory
//! store, [`shapes`] the geometry of the world, [`graph_viewer`] the gesture
//! state machine that turns pointer and keyboard events into graph edits, and
//! [`text`] the line splitting used when a title is laid out.

pub mod graph;
pub mod graph_viewer;
pub mod shapes;
pub mod text;

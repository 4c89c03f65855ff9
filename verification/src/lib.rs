//! Interaction core of a node-graph canvas: the nodes, the connections between
//! their ports, the pointer gestures that move and connect them, the zoom of the
//! viewport, and the curves drawn for the connections.
//!
//! Canvas coordinates are whole numbers. The zoom factor counts thousandths.

pub mod connection;
pub mod decimal;
pub mod editor;
pub mod geometry;
pub mod gesture;
pub mod laws;
pub mod node;
pub mod render;
pub mod store;
pub mod viewport;

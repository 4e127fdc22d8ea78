//! Value representation of a node-graph dataflow engine: tagged values, type
//! descriptors, type-erased containers, deterministic hashing and the nodes
//! that inject plain values into a graph.

pub mod arc_shape;
pub mod choices;
pub mod color;
pub mod descriptor;
pub mod erased;
pub mod feeds;
pub mod font_cache;
pub mod frame;
pub mod graphics;
pub mod hash;
pub mod literal;
pub mod memo;
pub mod node;
pub mod overlays;
pub mod persist;
pub mod present;
pub mod primitives;
pub mod registry;
pub mod render;
pub mod replicate;
pub mod style;
pub mod text;
pub mod value;

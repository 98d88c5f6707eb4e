//! Per-frame graph declaration and temporal resource bookkeeping for a
//! renderer that rasterises a signed distance field.
//!
//! A client declares, once per frame, a graph of GPU operations over transient
//! and persistent resources. A persistent resource enters the graph with the
//! access state it was last left in, leaves it through an export, and takes
//! its new state from the report that retires the graph.

pub mod access;
pub mod geometry;
pub mod resource;
pub mod graph;
pub mod retirement;
pub mod temporal;
pub mod passes;
pub mod bytes;
pub mod input;
pub mod client;
pub mod protocol;

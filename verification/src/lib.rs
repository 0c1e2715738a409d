//! A node-based material graph: a small typed dataflow language whose nodes
//! (constants, PBR operators, math, patterns) are wired together by typed
//! connections and evaluated on demand into a final set of material
//! properties (base color, metallic, roughness, emission).
//!
//! All numeric quantities are fixed-point values: an `i64` counts millionths,
//! so `1_000_000` stands for one. The `fixed` module defines the arithmetic.

pub mod catalog;
pub mod eval;
pub mod fixed;
pub mod graph;
pub mod material;
pub mod value;

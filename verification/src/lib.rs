//! Graph model, wire framing and session decisions of a collaborative
//! signed-distance-field modelling tool, with their contracts.

pub mod canonical;
pub mod client;
pub mod graph;
pub mod id;
pub mod mesh;
pub mod node;
pub mod node_data;
pub mod protocol;
pub mod server;

pub use graph::Graph;
pub use node::{Node, NodeDiff, NodeId, Transform, TransformDiff};
pub use node_data::{
    BiconvexLens, BiconvexLensDiff, Box, BoxDiff, Capsule, CapsuleDiff, Cone, ConeDiff, Cylinder, CylinderDiff,
    Intersect, IntersectDiff, NodeCategory, NodeData, NodeDataDiff, NodeDataMeta, Plane, PlaneDiff, Sphere,
    SphereDiff, Subtract, SubtractDiff, TaperedCapsule, TaperedCapsuleDiff, Torus, TorusDiff, TorusSector,
    TorusSectorDiff, Union, UnionDiff,
};

use vstd::prelude::*;

verus! {

/// The TCP port a server listens on when none is given.
pub const DEFAULT_PORT: u16 = 23421;

} // verus!

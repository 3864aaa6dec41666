//! Linear-time approximate spherical Gaussian blur over the six faces of a
//! cube map: face topology, edge-crossing addressing and the fixed-point
//! sampling of a single blur pass.
pub mod accessor;
pub mod cubemap;
pub mod directional;
pub mod edge;
pub mod fixed;
pub mod ltasgblur;
pub mod radial;

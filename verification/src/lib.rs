//! A scene library for a forward-rendered, procedurally generated
//! Christmas-tree scene: mesh generators for the tree, baubles, ground and
//! snowflakes, a fixed-capacity material table, per-instance transform
//! buffers, and the per-frame snow simulation.
//!
//! All geometry is produced in a fixed-point scale (millionths of a world
//! unit, see [`fixed`]), so every coordinate, angle and colour component is
//! an exact integer and the generators can be verified end to end.  The
//! windowing, shader and GPU-upload layers consume the packed data this
//! library produces and stay outside of it.

pub mod camera;
pub mod coords;
pub mod drawable;
pub mod fps_calculator;
pub mod fixed;
pub mod lights;
pub mod linear;
pub mod material;
pub mod model;
pub mod observer;
pub mod shader;
pub mod triangle;
pub mod xmas_tree;

//! A field of independently rotating cubes, drawn through one shared shader
//! program: the layout of the field, the state of each cube and the exact
//! sequence of graphics commands that a frame issues.

pub mod buffer_storage;
pub mod cube;
pub mod geometry;
pub mod placement;
pub mod program;
pub mod rendering_context;
pub mod scene;

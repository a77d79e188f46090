//! Maps a decoded FBX scene onto engine-neutral asset records.
//!
//! The decoder turns bytes into a scene graph; this crate validates the input,
//! reads the graph into plain records and decides what the engine is to
//! register: materials with their texture slots, texture load paths, meshes,
//! the node hierarchy, skins and the default scene.

pub mod asset;
pub mod decoded;
pub mod decoder;
pub mod error;
pub mod hierarchy;
pub mod identity;
pub mod label;
pub mod loader;
pub mod material;
pub mod mesh;
pub mod names;
pub mod path;
pub mod reader;
pub mod scalar;
pub mod scene;

//! A small 3D scene with an interface on top of it, described as plain data.
//!
//! Three builders fill a [`World`] in turn: the scene and its cameras, the
//! camera that draws the interface, and the interface itself. Render layers
//! keep the two apart: a camera draws an entity only when their layer tags
//! intersect.

pub mod config;
pub mod entity;
pub mod laws;
pub mod layers;
pub mod scene;
pub mod world;

pub use config::Config;
pub use entity::{CameraUi, Entity, PlayerCamera};
pub use layers::Layers;
pub use scene::{build_scene, setup, setup_hand_ui, spawn_ui_camera};
pub use world::World;

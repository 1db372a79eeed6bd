//! The few values that a scene is built from.

use crate::layers::LAYER_LIMIT;
use vstd::prelude::*;

verus! {

/// Whether the scene gets a second camera that draws into an image.
pub const SPAWN_DUMMY_RENDER_LAYER_0_CAMERA: bool = true;

/// The layer of the interface camera.
pub const UI_RENDER_LAYER: usize = 1;

/// The layer of the 3D scene and its camera.
pub const MAIN_RENDER_LAYER: usize = 2;

/// The layer of the camera that draws into an image: the engine's default.
pub const OFFSCREEN_RENDER_LAYER: usize = 0;

/// The main camera draws first.
pub const MAIN_CAMERA_ORDER: isize = 1;

/// The interface camera draws after it, on top.
pub const UI_CAMERA_ORDER: isize = 2;

/// A configuration as the contracts see it.
pub struct ConfigView {
    pub ui_layer: nat,
    pub main_layer: nat,
    pub offscreen_camera: bool,
}

/// The layers of a scene, and whether it has the off-screen camera.
///
/// Both layers are below [`LAYER_LIMIT`].
#[derive(Clone, Copy, Debug, PartialEq, Eq)]
pub struct Config {
    ui_layer: usize,
    main_layer: usize,
    offscreen_camera: bool,
}

impl View for Config {
    type V = ConfigView;

    closed spec fn view(&self) -> ConfigView {
        ConfigView {
            ui_layer: self.ui_layer as nat,
            main_layer: self.main_layer as nat,
            offscreen_camera: self.offscreen_camera,
        }
    }
}

impl Config {
    #[verifier::type_invariant]
    spec fn inv(self) -> bool {
        self.ui_layer < LAYER_LIMIT && self.main_layer < LAYER_LIMIT
    }

    /// A configuration with the given layers, if both are below
    /// [`LAYER_LIMIT`].
    pub fn new(ui_layer: usize, main_layer: usize, offscreen_camera: bool) -> (config: Option<Config>)
        ensures
            config is Some <==> ui_layer < LAYER_LIMIT && main_layer < LAYER_LIMIT,
            config matches Some(c) ==> c@ == (ConfigView {
                ui_layer: ui_layer as nat,
                main_layer: main_layer as nat,
                offscreen_camera,
            }),
    {
        if ui_layer < LAYER_LIMIT && main_layer < LAYER_LIMIT {
            Some(Config { ui_layer, main_layer, offscreen_camera })
        } else {
            None
        }
    }

    /// The layer of the interface camera.
    pub fn ui_layer(&self) -> (layer: usize)
        ensures
            layer == self@.ui_layer,
            layer < LAYER_LIMIT,
    {
        proof {
            use_type_invariant(self);
        }
        self.ui_layer
    }

    /// The layer of the 3D scene and its camera.
    pub fn main_layer(&self) -> (layer: usize)
        ensures
            layer == self@.main_layer,
            layer < LAYER_LIMIT,
    {
        proof {
            use_type_invariant(self);
        }
        self.main_layer
    }

    /// Whether the scene gets the camera that draws into an image.
    pub fn offscreen_camera(&self) -> (on: bool)
        ensures
            on == self@.offscreen_camera,
    {
        self.offscreen_camera
    }
}

impl Default for Config {
    /// The interface on layer 1, the scene on layer 2, the off-screen camera
    /// switched on.
    fn default() -> (config: Config)
        ensures
            config@ == (ConfigView {
                ui_layer: UI_RENDER_LAYER as nat,
                main_layer: MAIN_RENDER_LAYER as nat,
                offscreen_camera: SPAWN_DUMMY_RENDER_LAYER_0_CAMERA,
            }),
    {
        Config {
            ui_layer: UI_RENDER_LAYER,
            main_layer: MAIN_RENDER_LAYER,
            offscreen_camera: SPAWN_DUMMY_RENDER_LAYER_0_CAMERA,
        }
    }
}

} // verus!

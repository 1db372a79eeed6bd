use bevy::camera::visibility::RenderLayers;
use layered_scene::config::{
    Config, MAIN_CAMERA_ORDER, MAIN_RENDER_LAYER, OFFSCREEN_RENDER_LAYER,
    SPAWN_DUMMY_RENDER_LAYER_0_CAMERA, UI_CAMERA_ORDER, UI_RENDER_LAYER,
};
use layered_scene::entity::Point;
use layered_scene::layers::{Layers, LAYER_LIMIT};

#[test]
fn tag_holds_the_engine_mask_of_its_layer() {
    let tag = Layers::layer(3);
    assert_eq!(tag.index(), 3);
    assert_eq!(tag.mask(), &RenderLayers::layer(3));
    assert_eq!(tag.mask().bits(), &[8u64][..]);
    assert_eq!(tag.mask().iter().collect::<Vec<usize>>(), vec![3usize]);
}

#[test]
fn tag_of_the_first_and_of_the_last_layer() {
    let first = Layers::layer(0);
    assert_eq!(first.index(), 0);
    assert_eq!(first.mask().bits(), &[1u64][..]);
    assert_eq!(first.mask(), &RenderLayers::default());
    let last = Layers::layer(LAYER_LIMIT - 1);
    assert_eq!(last.index(), 63);
    assert_eq!(last.mask().bits(), &[1u64 << 63][..]);
}

#[test]
fn tags_intersect_when_they_name_the_same_layer() {
    let ui = Layers::layer(1);
    let main = Layers::layer(2);
    let other_ui = Layers::layer(1);
    assert!(ui.intersects(&other_ui));
    assert!(other_ui.intersects(&ui));
    assert!(!ui.intersects(&main));
    assert!(!main.intersects(&ui));
}

#[test]
fn a_tag_intersects_itself() {
    let ui = Layers::layer(1);
    assert!(ui.intersects(&ui));
    assert!(ui.same_layers(&ui));
}

#[test]
fn tags_are_the_same_when_they_name_the_same_layer() {
    let ui = Layers::layer(1);
    let main = Layers::layer(2);
    let other_ui = Layers::layer(1);
    assert!(ui.same_layers(&other_ui));
    assert!(!ui.same_layers(&main));
    assert!(!main.same_layers(&ui));
}

#[test]
fn every_pair_of_layers_intersects_only_on_the_diagonal() {
    for a in 0..LAYER_LIMIT {
        for b in 0..LAYER_LIMIT {
            let x = Layers::layer(a);
            let y = Layers::layer(b);
            assert_eq!(x.intersects(&y), a == b);
            assert_eq!(x.same_layers(&y), a == b);
            assert_eq!(x.intersects(&y), x.mask().intersects(y.mask()));
        }
    }
}

#[test]
fn constants_have_their_values() {
    assert_eq!(UI_RENDER_LAYER, 1);
    assert_eq!(MAIN_RENDER_LAYER, 2);
    assert_eq!(OFFSCREEN_RENDER_LAYER, 0);
    assert_eq!(MAIN_CAMERA_ORDER, 1);
    assert_eq!(UI_CAMERA_ORDER, 2);
    assert!(SPAWN_DUMMY_RENDER_LAYER_0_CAMERA);
    assert_eq!(LAYER_LIMIT, 64);
}

#[test]
fn default_config_is_ui_one_main_two_offscreen_on() {
    let config = Config::default();
    assert_eq!(config.ui_layer(), 1);
    assert_eq!(config.main_layer(), 2);
    assert!(config.offscreen_camera());
    assert_eq!(Some(config), Config::new(1, 2, true));
}

#[test]
fn config_keeps_what_it_was_given() {
    let config = Config::new(0, 63, false).unwrap();
    assert_eq!(config.ui_layer(), 0);
    assert_eq!(config.main_layer(), 63);
    assert!(!config.offscreen_camera());
}

#[test]
fn config_refuses_a_layer_from_the_limit_on() {
    assert_eq!(Config::new(64, 2, true), None);
    assert_eq!(Config::new(1, 64, true), None);
    assert_eq!(Config::new(usize::MAX, usize::MAX, false), None);
    assert!(Config::new(63, 63, true).is_some());
}

#[test]
fn point_moves_by_an_offset() {
    let eye = Point { x: 0, y: 1000, z: -240 };
    let moved = eye.offset(Point { x: 0, y: 10, z: 10 });
    assert_eq!(moved, Point { x: 0, y: 1010, z: -230 });
    let back = moved.offset(Point { x: -1, y: -1010, z: 230 });
    assert_eq!(back, Point { x: -1, y: 0, z: 0 });
}

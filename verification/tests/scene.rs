use layered_scene::config::Config;
use layered_scene::entity::{
    Align, Body, Button, Camera, CameraUi, ClearColor, Color, Entity, FieldOfView, Label, Length,
    Light, Mesh, Orientation, PixelFormat, Placement, PlayerCamera, Point, RenderTarget, Shape,
    Style, TargetImage,
};
use layered_scene::layers::Layers;
use layered_scene::scene::{build_scene, setup, setup_hand_ui, spawn_ui_camera, OFFSCREEN_IMAGE_SIZE};
use layered_scene::world::World;

fn tagged(layer: usize, body: Body) -> Entity {
    Entity {
        layers: Some(Layers::layer(layer)),
        camera_ui: None,
        player_camera: None,
        parent: None,
        target_camera: None,
        text: None,
        body,
    }
}

fn node(parent: Option<usize>, target_camera: Option<usize>, text: Option<&'static str>, body: Body) -> Entity {
    Entity { layers: None, camera_ui: None, player_camera: None, parent, target_camera, text, body }
}

fn origin() -> Point {
    Point { x: 0, y: 0, z: 0 }
}

fn main_camera(layer: usize) -> Entity {
    let eye = Point { x: -2500, y: 4500, z: 9000 };
    Entity {
        player_camera: Some(PlayerCamera),
        ..tagged(
            layer,
            Body::Camera(Camera {
                order: 1,
                clear: ClearColor::Clear,
                field_of_view: FieldOfView::Degrees(90),
                placement: Placement {
                    position: eye,
                    orientation: Orientation::LookingAt { eye, target: origin() },
                },
                target: RenderTarget::Window,
            }),
        )
    }
}

fn offscreen_camera() -> Entity {
    tagged(
        0,
        Body::Camera(Camera {
            order: 0,
            clear: ClearColor::Clear,
            field_of_view: FieldOfView::Engine,
            placement: Placement { position: origin(), orientation: Orientation::Identity },
            target: RenderTarget::Image(TargetImage {
                width: 512,
                height: 512,
                format: PixelFormat::Rgba8UnormSrgb,
                fill: [0, 0, 0, 0],
                texture_binding: true,
                copy_destination: true,
                render_attachment: true,
            }),
        }),
    )
}

fn ui_camera(layer: usize) -> Entity {
    Entity {
        camera_ui: Some(CameraUi),
        ..tagged(
            layer,
            Body::Camera(Camera {
                order: 2,
                clear: ClearColor::Keep,
                field_of_view: FieldOfView::Degrees(10),
                placement: Placement {
                    position: Point { x: 0, y: 1010, z: -230 },
                    orientation: Orientation::LookingAt {
                        eye: Point { x: 0, y: 1010, z: -230 },
                        target: Point { x: 0, y: 1000, z: -5 },
                    },
                },
                target: RenderTarget::Window,
            }),
        )
    }
}

fn container(camera: usize) -> Entity {
    node(
        None,
        Some(camera),
        None,
        Body::Node(Style {
            width: Length::Percent(90),
            height: Length::Percent(90),
            border: Length::Px(0),
            align_items: Align::FlexEnd,
            justify_content: Align::FlexEnd,
        }),
    )
}

fn button(parent: usize) -> Entity {
    node(
        Some(parent),
        None,
        None,
        Body::Button(Button {
            style: Style {
                width: Length::Px(150),
                height: Length::Px(65),
                border: Length::Px(5),
                align_items: Align::Center,
                justify_content: Align::Center,
            },
            border_color: Color::Black,
            background: Color::Black,
            rounded: true,
        }),
    )
}

fn label(parent: usize) -> Entity {
    node(
        Some(parent),
        None,
        Some("Play Card"),
        Body::Label(Label {
            font_size: 20,
            color: Color::SrgbPercent { red: 90, green: 90, blue: 90 },
        }),
    )
}

fn is_camera(entity: &Entity) -> bool {
    matches!(entity.body, Body::Camera(_))
}

fn entities(world: &World) -> Vec<&Entity> {
    (0..world.len()).map(|id| world.get(id).unwrap()).collect()
}

#[test]
fn scene_builder_adds_ground_cube_light_and_cameras() {
    let mut world = World::new();
    setup(&mut world, &Config::default());
    assert_eq!(world.len(), 5);
    assert_eq!(
        world.get(0).unwrap(),
        &tagged(
            2,
            Body::Mesh(Mesh {
                shape: Shape::Circle { radius: 4000 },
                color: Color::White,
                placement: Placement {
                    position: origin(),
                    orientation: Orientation::AboutX { degrees: -90 },
                },
            }),
        )
    );
    assert_eq!(
        world.get(1).unwrap(),
        &tagged(
            2,
            Body::Mesh(Mesh {
                shape: Shape::Cuboid { x: 1000, y: 1000, z: 1000 },
                color: Color::Srgb8 { red: 124, green: 144, blue: 255 },
                placement: Placement {
                    position: Point { x: 0, y: 500, z: 0 },
                    orientation: Orientation::Identity,
                },
            }),
        )
    );
    assert_eq!(
        world.get(2).unwrap(),
        &tagged(
            2,
            Body::Light(Light { shadows: true, position: Point { x: 4000, y: 8000, z: 4000 } }),
        )
    );
    assert_eq!(world.get(3).unwrap(), &main_camera(2));
    assert_eq!(world.get(4).unwrap(), &offscreen_camera());
    assert!(world.get(5).is_none());
}

#[test]
fn scene_builder_leaves_the_offscreen_camera_out_when_switched_off() {
    let mut world = World::new();
    setup(&mut world, &Config::new(1, 2, false).unwrap());
    assert_eq!(world.len(), 4);
    assert_eq!(world.get(3).unwrap(), &main_camera(2));
    assert!(entities(&world).iter().all(|e| e.layers.as_ref().unwrap().index() == 2));
}

#[test]
fn scene_builder_tags_the_scene_with_the_main_layer() {
    let mut world = World::new();
    setup(&mut world, &Config::new(9, 7, true).unwrap());
    for id in 0..4 {
        assert_eq!(world.get(id).unwrap().layers.as_ref().unwrap().index(), 7);
    }
    assert_eq!(world.get(4).unwrap().layers.as_ref().unwrap().index(), 0);
}

#[test]
fn offscreen_image_is_512_square() {
    assert_eq!(OFFSCREEN_IMAGE_SIZE, 512);
}

#[test]
fn ui_camera_builder_adds_one_marked_camera() {
    let mut world = World::new();
    spawn_ui_camera(&mut world, &Config::default());
    assert_eq!(world.len(), 1);
    assert_eq!(world.get(0).unwrap(), &ui_camera(1));
    assert_eq!(world.ui_cameras(), vec![0]);
}

#[test]
fn ui_camera_looks_at_its_target_from_where_the_nudge_put_it() {
    let mut world = World::new();
    spawn_ui_camera(&mut world, &Config::default());
    match world.get(0).unwrap().body {
        Body::Camera(camera) => {
            let nudged = Point { x: 0, y: 1000, z: -240 }.offset(Point { x: 0, y: 10, z: 10 });
            assert_eq!(nudged, Point { x: 0, y: 1010, z: -230 });
            assert_eq!(camera.placement.position, nudged);
            assert_eq!(
                camera.placement.orientation,
                Orientation::LookingAt {
                    eye: Point { x: 0, y: 1010, z: -230 },
                    target: Point { x: 0, y: 1000, z: -5 },
                }
            );
            assert_ne!(
                camera.placement.orientation,
                Orientation::LookingAt {
                    eye: Point { x: 0, y: 1000, z: -240 },
                    target: Point { x: 0, y: 1000, z: -5 },
                }
            );
        }
        _ => panic!("the interface camera is a camera"),
    }
}

#[test]
fn builders_keep_what_is_already_there() {
    let mut world = World::new();
    spawn_ui_camera(&mut world, &Config::new(5, 6, true).unwrap());
    setup(&mut world, &Config::default());
    assert_eq!(world.len(), 6);
    assert_eq!(world.get(0).unwrap(), &ui_camera(5));
    assert_eq!(world.get(4).unwrap(), &main_camera(2));
    let built = setup_hand_ui(&mut world);
    assert_eq!(built, 1);
    assert_eq!(world.len(), 9);
    assert_eq!(world.get(0).unwrap(), &ui_camera(5));
    assert_eq!(world.get(5).unwrap(), &offscreen_camera());
    assert_eq!(world.get(6).unwrap(), &container(0));
    assert_eq!(world.get(7).unwrap(), &button(6));
    assert_eq!(world.get(8).unwrap(), &label(7));
}

#[test]
fn exactly_one_ui_camera_after_scene_and_ui_camera_builders() {
    let config = Config::default();
    let mut world = World::new();
    setup(&mut world, &config);
    assert_eq!(world.ui_cameras(), Vec::<usize>::new());
    spawn_ui_camera(&mut world, &config);
    assert_eq!(world.ui_cameras(), vec![5]);
    let marked = entities(&world).iter().filter(|e| e.camera_ui.is_some()).count();
    assert_eq!(marked, 1);
}

#[test]
fn button_builder_without_ui_camera_adds_nothing() {
    let mut world = World::new();
    assert_eq!(setup_hand_ui(&mut world), 0);
    assert_eq!(world.len(), 0);
    setup(&mut world, &Config::default());
    let before = world.len();
    assert_eq!(setup_hand_ui(&mut world), 0);
    assert_eq!(world.len(), before);
    assert_eq!(setup_hand_ui(&mut world), 0);
    assert_eq!(world.len(), 5);
    assert_eq!(world.get(3).unwrap(), &main_camera(2));
    assert!(entities(&world).iter().all(|e| e.parent.is_none() && e.target_camera.is_none()));
}

#[test]
fn container_puts_its_children_in_the_bottom_right_corner() {
    let world = build_scene(&Config::default());
    match world.get(6).unwrap().body {
        Body::Node(style) => {
            assert_eq!(style.align_items, Align::FlexEnd);
            assert_eq!(style.justify_content, Align::FlexEnd);
            assert_eq!(style.width, Length::Percent(90));
            assert_eq!(style.height, Length::Percent(90));
        }
        _ => panic!("the container is a plain node"),
    }
    match world.get(7).unwrap().body {
        Body::Button(button) => {
            assert_eq!(button.style.align_items, Align::Center);
            assert_eq!(button.style.justify_content, Align::Center);
        }
        _ => panic!("the button is a button"),
    }
}

#[test]
fn button_builder_adds_container_button_and_label() {
    let mut world = World::new();
    spawn_ui_camera(&mut world, &Config::default());
    assert_eq!(setup_hand_ui(&mut world), 1);
    assert_eq!(world.len(), 4);
    assert_eq!(world.get(1).unwrap(), &container(0));
    assert_eq!(world.get(2).unwrap(), &button(1));
    assert_eq!(world.get(3).unwrap(), &label(2));
}

#[test]
fn button_builder_builds_one_interface_for_each_ui_camera() {
    let config = Config::default();
    let mut world = World::new();
    spawn_ui_camera(&mut world, &config);
    setup(&mut world, &config);
    spawn_ui_camera(&mut world, &config);
    assert_eq!(world.ui_cameras(), vec![0, 6]);
    assert_eq!(setup_hand_ui(&mut world), 2);
    assert_eq!(world.len(), 13);
    assert_eq!(world.get(7).unwrap(), &container(0));
    assert_eq!(world.get(8).unwrap(), &button(7));
    assert_eq!(world.get(9).unwrap(), &label(8));
    assert_eq!(world.get(10).unwrap(), &container(6));
    assert_eq!(world.get(11).unwrap(), &button(10));
    assert_eq!(world.get(12).unwrap(), &label(11));
    assert_eq!(world.ui_camera_of(9), Some(0));
    assert_eq!(world.ui_camera_of(12), Some(6));
}

#[test]
fn button_builder_run_twice_builds_a_second_interface() {
    let mut world = build_scene(&Config::default());
    assert_eq!(world.len(), 9);
    assert_eq!(setup_hand_ui(&mut world), 1);
    assert_eq!(world.len(), 12);
    assert_eq!(world.get(9).unwrap(), &container(5));
    assert_eq!(world.get(10).unwrap(), &button(9));
    assert_eq!(world.get(11).unwrap(), &label(10));
}

#[test]
fn default_scene_end_to_end() {
    let world = build_scene(&Config::default());
    assert_eq!(world.len(), 9);
    let all = entities(&world);

    let main_cameras: Vec<&&Entity> = all.iter().filter(|e| e.player_camera.is_some()).collect();
    assert_eq!(main_cameras.len(), 1);
    assert_eq!(main_cameras[0], &&main_camera(2));
    match main_cameras[0].body {
        Body::Camera(camera) => assert_eq!(camera.order, 1),
        _ => panic!("the main camera is a camera"),
    }

    let ui_cameras = world.ui_cameras();
    assert_eq!(ui_cameras, vec![5]);
    match world.get(5).unwrap().body {
        Body::Camera(camera) => {
            assert_eq!(camera.order, 2);
            assert_eq!(camera.clear, ClearColor::Keep);
            assert_eq!(camera.field_of_view, FieldOfView::Degrees(10));
            assert_eq!(camera.target, RenderTarget::Window);
        }
        _ => panic!("the interface camera is a camera"),
    }
    assert_eq!(world.get(5).unwrap().layers.as_ref().unwrap().index(), 1);

    let offscreen: Vec<&&Entity> = all
        .iter()
        .filter(|e| match e.body {
            Body::Camera(camera) => matches!(camera.target, RenderTarget::Image(_)),
            _ => false,
        })
        .collect();
    assert_eq!(offscreen.len(), 1);
    assert_eq!(offscreen[0].layers.as_ref().unwrap().index(), 0);
    match offscreen[0].body {
        Body::Camera(camera) => match camera.target {
            RenderTarget::Image(image) => {
                assert_eq!((image.width, image.height), (512, 512));
                assert_eq!(image.format, PixelFormat::Rgba8UnormSrgb);
                assert_eq!(image.fill, [0, 0, 0, 0]);
                assert!(image.render_attachment && image.texture_binding && image.copy_destination);
            }
            RenderTarget::Window => panic!("the off-screen camera draws into an image"),
        },
        _ => panic!("the off-screen camera is a camera"),
    }
    assert_eq!(all.iter().filter(|e| is_camera(e)).count(), 3);

    let buttons: Vec<usize> =
        (0..world.len()).filter(|&id| matches!(all[id].body, Body::Button(_))).collect();
    assert_eq!(buttons, vec![7]);
    let labels: Vec<usize> = (0..world.len()).filter(|&id| all[id].text.is_some()).collect();
    assert_eq!(labels, vec![8]);
    assert_eq!(all[8].text, Some("Play Card"));
    assert_eq!(all[8].parent, Some(7));
    assert_eq!(all[7].parent, Some(6));
    assert!(matches!(all[6].body, Body::Node(_)));
    assert_eq!(all[6].parent, None);
    assert_eq!(all[6].target_camera, Some(5));

    assert_eq!(world.get(0).unwrap().layers.as_ref().unwrap().index(), 2);
    assert_eq!(world.get(6).unwrap(), &container(5));
    assert_eq!(world.get(7).unwrap(), &button(6));
    assert_eq!(world.get(8).unwrap(), &label(7));
}

#[test]
fn builders_and_markers_are_found_at_the_crate_root() {
    let mut world = layered_scene::World::new();
    let config = layered_scene::Config::default();
    layered_scene::setup(&mut world, &config);
    layered_scene::spawn_ui_camera(&mut world, &config);
    assert_eq!(layered_scene::setup_hand_ui(&mut world), 1);
    assert_eq!(world, layered_scene::build_scene(&config));
    assert_eq!(world.get(3).unwrap().player_camera, Some(layered_scene::PlayerCamera));
    assert_eq!(world.get(5).unwrap().camera_ui, Some(layered_scene::CameraUi));
    assert_eq!(world.get(5).unwrap().layers, Some(layered_scene::Layers::layer(1)));
}

#[test]
fn build_scene_is_the_three_builders_in_order() {
    let config = Config::new(4, 9, false).unwrap();
    let mut by_hand = World::new();
    setup(&mut by_hand, &config);
    spawn_ui_camera(&mut by_hand, &config);
    setup_hand_ui(&mut by_hand);
    assert_eq!(build_scene(&config), by_hand);
    assert_eq!(by_hand.len(), 8);
    assert_eq!(by_hand.get(4).unwrap(), &ui_camera(4));
    assert_eq!(by_hand.get(5).unwrap(), &container(4));
}

//! The three builders, run once each and in this order: the scene with its
//! cameras, the interface camera, the interface.
//!
//! Each adds its entities at the end of the world and changes nothing that is
//! already there. What is added is stated by a spec function of the same
//! shape, so that a caller knows the world after a builder exactly.

use crate::config::{Config, ConfigView, MAIN_CAMERA_ORDER, OFFSCREEN_RENDER_LAYER, UI_CAMERA_ORDER};
use crate::entity::{
    Align, Body, Button, Camera, CameraUi, ClearColor, Color, Entity, EntityView, FieldOfView,
    Label, Length, Light, Mesh, Orientation, PixelFormat, Placement, PlayerCamera, Point,
    RenderTarget, Shape, Style, TargetImage,
};
use crate::layers::Layers;
use crate::world::{ui_cameras, World};
use vstd::prelude::*;

verus! {

/// Width and height of the image that the off-screen camera draws into.
pub const OFFSCREEN_IMAGE_SIZE: u32 = 512;

/// An entity on one layer, with nothing else attached.
pub open spec fn on_layer(layer: nat, body: Body) -> EntityView {
    EntityView {
        layers: Some(set![layer]),
        camera_ui: false,
        player_camera: false,
        parent: None,
        target_camera: None,
        text: None,
        body,
    }
}

/// An interface node: untagged, so that it is drawn on the layers of its
/// camera.
pub open spec fn ui_node(
    parent: Option<usize>,
    target_camera: Option<usize>,
    text: Option<Seq<char>>,
    body: Body,
) -> EntityView {
    EntityView {
        layers: None,
        camera_ui: false,
        player_camera: false,
        parent,
        target_camera,
        text,
        body,
    }
}

/// A white disc of radius 4, turned from upright to lie flat.
pub open spec fn ground_body() -> Body {
    Body::Mesh(
        Mesh {
            shape: Shape::Circle { radius: 4000 },
            color: Color::White,
            placement: Placement {
                position: Point { x: 0, y: 0, z: 0 },
                orientation: Orientation::AboutX { degrees: -90i32 },
            },
        },
    )
}

/// A unit cube standing on the ground.
pub open spec fn cube_body() -> Body {
    Body::Mesh(
        Mesh {
            shape: Shape::Cuboid { x: 1000, y: 1000, z: 1000 },
            color: Color::Srgb8 { red: 124, green: 144, blue: 255 },
            placement: Placement {
                position: Point { x: 0, y: 500, z: 0 },
                orientation: Orientation::Identity,
            },
        },
    )
}

/// A point light above the scene that casts shadows.
pub open spec fn light_body() -> Body {
    Body::Light(Light { shadows: true, position: Point { x: 4000, y: 8000, z: 4000 } })
}

/// The main camera: 90 degrees wide, looking at the origin, drawn first.
pub open spec fn main_camera_body() -> Body {
    Body::Camera(
        Camera {
            order: MAIN_CAMERA_ORDER,
            clear: ClearColor::Clear,
            field_of_view: FieldOfView::Degrees(90),
            placement: Placement {
                position: Point { x: -2500i32, y: 4500, z: 9000 },
                orientation: Orientation::LookingAt {
                    eye: Point { x: -2500i32, y: 4500, z: 9000 },
                    target: Point { x: 0, y: 0, z: 0 },
                },
            },
            target: RenderTarget::Window,
        },
    )
}

/// The off-screen camera: the engine's camera as it comes, drawing into a
/// blank image that can be rendered into.
pub open spec fn offscreen_camera_body() -> Body {
    Body::Camera(
        Camera {
            order: 0,
            clear: ClearColor::Clear,
            field_of_view: FieldOfView::Engine,
            placement: Placement {
                position: Point { x: 0, y: 0, z: 0 },
                orientation: Orientation::Identity,
            },
            target: RenderTarget::Image(
                TargetImage {
                    width: OFFSCREEN_IMAGE_SIZE,
                    height: OFFSCREEN_IMAGE_SIZE,
                    format: PixelFormat::Rgba8UnormSrgb,
                    fill: [0u8, 0u8, 0u8, 0u8],
                    texture_binding: true,
                    copy_destination: true,
                    render_attachment: true,
                },
            ),
        },
    )
}

/// Where the interface camera starts out, before it is nudged.
pub open spec fn ui_camera_eye() -> Point {
    Point { x: 0, y: 1000, z: -240i32 }
}

/// By how much the interface camera is moved before it is oriented.
pub open spec fn ui_camera_nudge() -> Point {
    Point { x: 0, y: 10, z: 10 }
}

/// The interface camera: 10 degrees wide, nudged from its eye point and
/// looking from where it then stands at a point just in front of it, drawn
/// second and without clearing what the main camera drew.
pub open spec fn ui_camera_body() -> Body {
    Body::Camera(
        Camera {
            order: UI_CAMERA_ORDER,
            clear: ClearColor::Keep,
            field_of_view: FieldOfView::Degrees(10),
            placement: Placement {
                position: ui_camera_eye().moved(ui_camera_nudge()),
                orientation: Orientation::LookingAt {
                    eye: ui_camera_eye().moved(ui_camera_nudge()),
                    target: Point { x: 0, y: 1000, z: -5i32 },
                },
            },
            target: RenderTarget::Window,
        },
    )
}

/// The container: nine tenths of the screen each way, its children in the
/// bottom right corner, pushed to the end both along and across.
pub open spec fn container_body() -> Body {
    Body::Node(
        Style {
            width: Length::Percent(90),
            height: Length::Percent(90),
            border: Length::Px(0),
            align_items: Align::FlexEnd,
            justify_content: Align::FlexEnd,
        },
    )
}

/// The button: 150 by 65 pixels, black with a rounded black border of 5
/// pixels, its label centred.
pub open spec fn button_body() -> Body {
    Body::Button(
        Button {
            style: Style {
                width: Length::Px(150),
                height: Length::Px(65),
                border: Length::Px(5),
                align_items: Align::Center,
                justify_content: Align::Center,
            },
            border_color: Color::Black,
            background: Color::Black,
            rounded: true,
        },
    )
}

/// The label: light grey, 20 pixels high.
pub open spec fn label_body() -> Body {
    Body::Label(Label { font_size: 20, color: Color::SrgbPercent { red: 90, green: 90, blue: 90 } })
}

/// What the button says.
pub open spec fn label_text() -> Seq<char> {
    "Play Card"@
}

/// The main camera, on the main layer and marked as the player's.
pub open spec fn main_camera(config: ConfigView) -> EntityView {
    EntityView { player_camera: true, ..on_layer(config.main_layer, main_camera_body()) }
}

/// The interface camera, on the interface layer and marked as such.
pub open spec fn ui_camera(config: ConfigView) -> EntityView {
    EntityView { camera_ui: true, ..on_layer(config.ui_layer, ui_camera_body()) }
}

/// What the scene builder adds: ground, cube, light and main camera on the
/// main layer, then, if it is switched on, the off-screen camera on the
/// default layer.
pub open spec fn scene_entities(config: ConfigView) -> Seq<EntityView> {
    let main = seq![
        on_layer(config.main_layer, ground_body()),
        on_layer(config.main_layer, cube_body()),
        on_layer(config.main_layer, light_body()),
        main_camera(config),
    ];
    if config.offscreen_camera {
        main.push(on_layer(OFFSCREEN_RENDER_LAYER as nat, offscreen_camera_body()))
    } else {
        main
    }
}

/// The interface for one camera, spawned from entity number `at` on: a
/// container that targets the camera, a button in the container, a label in
/// the button.
pub open spec fn button_tree(camera: usize, at: nat) -> Seq<EntityView> {
    seq![
        ui_node(None, Some(camera), None, container_body()),
        ui_node(Some(at as usize), None, None, button_body()),
        ui_node(Some((at + 1) as usize), None, Some(label_text()), label_body()),
    ]
}

/// The interfaces for the first `k` of `cameras`, one after the other from
/// entity number `at` on.
pub open spec fn button_trees(cameras: Seq<usize>, at: nat, k: nat) -> Seq<EntityView>
    decreases k,
{
    if k == 0 {
        Seq::<EntityView>::empty()
    } else {
        button_trees(cameras, at, (k - 1) as nat) + button_tree(
            cameras[k - 1],
            at + 3 * (k - 1) as nat,
        )
    }
}

/// What the button builder adds to world `w`: one interface for each entity
/// that carries the interface-camera marker, in the order of those entities.
pub open spec fn hand_ui(w: Seq<EntityView>) -> Seq<EntityView> {
    button_trees(ui_cameras(w), w.len(), ui_cameras(w).len())
}

/// The world after the three builders have run in order on an empty one.
pub open spec fn full_scene(config: ConfigView) -> Seq<EntityView> {
    let cameras_done = scene_entities(config).push(ui_camera(config));
    cameras_done + hand_ui(cameras_done)
}

/// `k` interfaces are `3 * k` entities.
pub proof fn lemma_button_trees_len(cameras: Seq<usize>, at: nat, k: nat)
    ensures
        button_trees(cameras, at, k).len() == 3 * k,
    decreases k,
{
    if k > 0 {
        lemma_button_trees_len(cameras, at, (k - 1) as nat);
    }
}

/// An entity on one layer, with nothing else attached.
fn tagged(layer: usize, body: Body) -> (entity: Entity)
    requires
        layer < crate::layers::LAYER_LIMIT,
    ensures
        entity@ == on_layer(layer as nat, body),
{
    Entity {
        layers: Some(Layers::layer(layer)),
        camera_ui: None,
        player_camera: None,
        parent: None,
        target_camera: None,
        text: None,
        body,
    }
}

/// The scene builder: adds ground, cube, light and main camera on the main
/// layer and, if the configuration says so, the off-screen camera on the
/// default layer.
pub fn setup(world: &mut World, config: &Config)
    ensures
        final(world)@ == old(world)@ + scene_entities(config@),
{
    let main_layer = config.main_layer();
    world.spawn(
        tagged(
            main_layer,
            Body::Mesh(
                Mesh {
                    shape: Shape::Circle { radius: 4000 },
                    color: Color::White,
                    placement: Placement {
                        position: Point { x: 0, y: 0, z: 0 },
                        orientation: Orientation::AboutX { degrees: -90 },
                    },
                },
            ),
        ),
    );
    world.spawn(
        tagged(
            main_layer,
            Body::Mesh(
                Mesh {
                    shape: Shape::Cuboid { x: 1000, y: 1000, z: 1000 },
                    color: Color::Srgb8 { red: 124, green: 144, blue: 255 },
                    placement: Placement {
                        position: Point { x: 0, y: 500, z: 0 },
                        orientation: Orientation::Identity,
                    },
                },
            ),
        ),
    );
    world.spawn(
        tagged(
            main_layer,
            Body::Light(Light { shadows: true, position: Point { x: 4000, y: 8000, z: 4000 } }),
        ),
    );
    let eye = Point { x: -2500, y: 4500, z: 9000 };
    let mut main_camera = tagged(
        main_layer,
        Body::Camera(
            Camera {
                order: MAIN_CAMERA_ORDER,
                clear: ClearColor::Clear,
                field_of_view: FieldOfView::Degrees(90),
                placement: Placement {
                    position: eye,
                    orientation: Orientation::LookingAt { eye, target: Point { x: 0, y: 0, z: 0 } },
                },
                target: RenderTarget::Window,
            },
        ),
    );
    main_camera.player_camera = Some(PlayerCamera);
    world.spawn(main_camera);
    if config.offscreen_camera() {
        world.spawn(
            tagged(
                OFFSCREEN_RENDER_LAYER,
                Body::Camera(
                    Camera {
                        order: 0,
                        clear: ClearColor::Clear,
                        field_of_view: FieldOfView::Engine,
                        placement: Placement {
                            position: Point { x: 0, y: 0, z: 0 },
                            orientation: Orientation::Identity,
                        },
                        target: RenderTarget::Image(
                            TargetImage {
                                width: OFFSCREEN_IMAGE_SIZE,
                                height: OFFSCREEN_IMAGE_SIZE,
                                format: PixelFormat::Rgba8UnormSrgb,
                                fill: [0u8, 0u8, 0u8, 0u8],
                                texture_binding: true,
                                copy_destination: true,
                                render_attachment: true,
                            },
                        ),
                    },
                ),
            ),
        );
    }
    assert(world@ =~= old(world)@ + scene_entities(config@));
}

/// The interface-camera builder: adds one camera, on the interface layer and
/// marked as the interface camera.
pub fn spawn_ui_camera(world: &mut World, config: &Config)
    ensures
        final(world)@ == old(world)@.push(ui_camera(config@)),
{
    let eye = Point { x: 0, y: 1000, z: -240 }.offset(Point { x: 0, y: 10, z: 10 });
    let target = Point { x: 0, y: 1000, z: -5 };
    let mut camera = tagged(
        config.ui_layer(),
        Body::Camera(
            Camera {
                order: UI_CAMERA_ORDER,
                clear: ClearColor::Keep,
                field_of_view: FieldOfView::Degrees(10),
                placement: Placement {
                    position: eye,
                    orientation: Orientation::LookingAt { eye, target },
                },
                target: RenderTarget::Window,
            },
        ),
    );
    camera.camera_ui = Some(CameraUi);
    world.spawn(camera);
}

/// An interface node: untagged, so that it is drawn on the layers of its
/// camera.
fn node(
    parent: Option<usize>,
    target_camera: Option<usize>,
    text: Option<&'static str>,
    body: Body,
) -> (entity: Entity)
    ensures
        entity@ == ui_node(
            parent,
            target_camera,
            match text {
                Some(t) => Some(t@),
                None => None,
            },
            body,
        ),
{
    Entity {
        layers: None,
        camera_ui: None,
        player_camera: None,
        parent,
        target_camera,
        text,
        body,
    }
}

/// The button builder: for each entity that carries the interface-camera
/// marker, in their order, adds a container that targets it, a button in the
/// container and the label "Play Card" in the button. Returns the number of
/// interfaces built; with no such camera it adds nothing.
pub fn setup_hand_ui(world: &mut World) -> (built: usize)
    ensures
        final(world)@ == old(world)@ + hand_ui(old(world)@),
        built == ui_cameras(old(world)@).len(),
        built == 0 ==> final(world)@ == old(world)@,
        final(world)@.len() == old(world)@.len() + 3 * built,
{
    let cameras = world.ui_cameras();
    let ghost at = world@.len();
    let mut k: usize = 0;
    assert(world@ =~= old(world)@ + button_trees(cameras@, at, 0));
    while k < cameras.len()
        invariant
            k <= cameras.len(),
            at == old(world)@.len(),
            cameras@ == ui_cameras(old(world)@),
            world@ == old(world)@ + button_trees(cameras@, at, k as nat),
        decreases cameras.len() - k,
    {
        proof {
            lemma_button_trees_len(cameras@, at, k as nat);
        }
        let container = world.spawn(
            node(
                None,
                Some(cameras[k]),
                None,
                Body::Node(
                    Style {
                        width: Length::Percent(90),
                        height: Length::Percent(90),
                        border: Length::Px(0),
                        align_items: Align::FlexEnd,
                        justify_content: Align::FlexEnd,
                    },
                ),
            ),
        );
        let button = world.spawn(
            node(
                Some(container),
                None,
                None,
                Body::Button(
                    Button {
                        style: Style {
                            width: Length::Px(150),
                            height: Length::Px(65),
                            border: Length::Px(5),
                            align_items: Align::Center,
                            justify_content: Align::Center,
                        },
                        border_color: Color::Black,
                        background: Color::Black,
                        rounded: true,
                    },
                ),
            ),
        );
        world.spawn(
            node(
                Some(button),
                None,
                Some("Play Card"),
                Body::Label(
                    Label {
                        font_size: 20,
                        color: Color::SrgbPercent { red: 90, green: 90, blue: 90 },
                    },
                ),
            ),
        );
        assert(world@ =~= old(world)@ + button_trees(cameras@, at, (k + 1) as nat));
        k = k + 1;
    }
    proof {
        lemma_button_trees_len(cameras@, at, k as nat);
        assert(button_trees(cameras@, at, 0) =~= Seq::<EntityView>::empty());
    }
    k
}

/// Runs the three builders in order on an empty world.
pub fn build_scene(config: &Config) -> (world: World)
    ensures
        world@ == full_scene(config@),
{
    let mut world = World::new();
    setup(&mut world, config);
    spawn_ui_camera(&mut world, config);
    setup_hand_ui(&mut world);
    assert(world@ =~= full_scene(config@));
    world
}

} // verus!

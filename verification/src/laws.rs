//! What holds of every scene that the builders make.

use crate::config::ConfigView;
use crate::entity::{Align, Body, ClearColor, EntityView, Orientation, Point};
use crate::scene::{
    button_tree, button_trees, full_scene, hand_ui, scene_entities, ui_camera, ui_camera_eye,
    ui_camera_nudge,
};
use crate::world::{
    ascending, cameras_sharing_layers, interface_of, interface_set, layers_of, lemma_ascending,
    renders, root_of, shares_layers, sharing_camera_set, ui_camera_of, ui_cameras,
};
use vstd::prelude::*;

verus! {

/// The number that the interface camera gets when the builders run on an
/// empty world: it comes right after the scene.
pub open spec fn ui_camera_id(config: ConfigView) -> usize {
    scene_entities(config).len() as usize
}

/// After the scene builder and the interface-camera builder, exactly one
/// entity carries the interface-camera marker: the camera that the second
/// builder added. This holds whatever the configuration.
pub proof fn law_one_ui_camera(config: ConfigView)
    ensures
        ui_cameras(scene_entities(config).push(ui_camera(config))) == seq![ui_camera_id(config)],
        ui_cameras(scene_entities(config).push(ui_camera(config))).len() == 1,
{
    reveal_with_fuel(ascending, 7);
    let w = scene_entities(config).push(ui_camera(config));
    assert(ui_cameras(w) =~= seq![ui_camera_id(config)]);
}

/// On a world in which no entity carries the interface-camera marker, the
/// button builder adds nothing: the world after it is the world before it.
pub proof fn law_no_camera_no_interface(w: Seq<EntityView>)
    requires
        ui_cameras(w).len() == 0,
    ensures
        hand_ui(w) == Seq::<EntityView>::empty(),
        w + hand_ui(w) == w,
{
    assert(hand_ui(w) =~= Seq::<EntityView>::empty());
    assert(w + hand_ui(w) =~= w);
}

/// The finished scene is the scene, the interface camera and one interface:
/// container, button and label, in this order, right after the camera.
pub proof fn lemma_full_scene(config: ConfigView)
    ensures
        ui_camera_id(config) == if config.offscreen_camera {
            5usize
        } else {
            4usize
        },
        full_scene(config) == scene_entities(config).push(ui_camera(config)) + button_tree(
            ui_camera_id(config),
            (ui_camera_id(config) + 1) as nat,
        ),
        full_scene(config).len() == ui_camera_id(config) + 4,
{
    law_one_ui_camera(config);
    reveal_with_fuel(button_trees, 2);
    let before = scene_entities(config).push(ui_camera(config));
    assert(hand_ui(before) =~= button_tree(ui_camera_id(config), (ui_camera_id(config) + 1) as nat));
}

/// In the finished scene the interface camera draws after the main camera and
/// keeps what that one drew, so the interface comes out on top of the scene.
pub proof fn law_interface_drawn_on_top(config: ConfigView)
    ensures
        full_scene(config)[3].player_camera,
        full_scene(config)[ui_camera_id(config) as int].camera_ui,
        full_scene(config)[3].body matches Body::Camera(main) && full_scene(config)[ui_camera_id(
            config,
        ) as int].body matches Body::Camera(ui) && main.order < ui.order && ui.clear
            == ClearColor::Keep,
{
    lemma_full_scene(config);
}

/// In the finished scene the interface camera looks at its target from where
/// it stands after the nudge, and the container puts the button in its bottom
/// right corner.
pub proof fn law_interface_camera_and_container(config: ConfigView)
    ensures
        full_scene(config)[ui_camera_id(config) as int].body matches Body::Camera(ui)
            && ui.placement.position == ui_camera_eye().moved(ui_camera_nudge())
            && ui.placement.position == (Point { x: 0, y: 1010, z: -230i32 })
            && ui.placement.orientation == (Orientation::LookingAt {
            eye: ui.placement.position,
            target: Point { x: 0, y: 1000, z: -5i32 },
        }),
        full_scene(config)[ui_camera_id(config) + 1].body matches Body::Node(style)
            && style.align_items == Align::FlexEnd && style.justify_content == Align::FlexEnd,
{
    lemma_full_scene(config);
}

/// With the interface and the main scene on two different layers, neither of
/// them the default layer, the whole interface hangs below the interface
/// camera and is drawn by it, and it shares no layer with anything that the
/// scene builder made: walking down from the interface camera reaches
/// container, button and label; walking up from any interface node reaches
/// the interface camera; and the layers of an interface node are disjoint
/// from those of ground, cube, light, main camera and off-screen camera.
pub proof fn law_interface_apart_from_scene(config: ConfigView)
    requires
        config.ui_layer != 0,
        config.main_layer != 0,
        config.ui_layer != config.main_layer,
    ensures
        interface_of(full_scene(config), ui_camera_id(config)) == seq![
            (ui_camera_id(config) + 1) as usize,
            (ui_camera_id(config) + 2) as usize,
            (ui_camera_id(config) + 3) as usize,
        ],
        forall|id: usize|
            id < full_scene(config).len() && (#[trigger] full_scene(config)[id as int]).body.is_ui()
                ==> ui_camera_of(full_scene(config), id) == Some(ui_camera_id(config)),
        forall|id: usize|
            id < full_scene(config).len() && (#[trigger] full_scene(config)[id as int]).body.is_ui()
                ==> renders(full_scene(config), ui_camera_id(config), id),
        forall|id: usize, other: usize|
            id < full_scene(config).len() && (#[trigger] full_scene(config)[id as int]).body.is_ui()
                && other < ui_camera_id(config) ==> (#[trigger] layers_of(
                full_scene(config),
                other,
            )).disjoint(layers_of(full_scene(config), id)),
{
    lemma_full_scene(config);
    lemma_interface_layers(config);
    lemma_interface(config);
    let w = full_scene(config);
    let cam = ui_camera_id(config);
    assert(layers_of(w, cam) == set![config.ui_layer]);
    assert forall|id: usize| id < w.len() && (#[trigger] w[id as int]).body.is_ui() implies renders(
        w,
        cam,
        id,
    ) by {
        assert(layers_of(w, cam).contains(config.ui_layer) && layers_of(w, id).contains(
            config.ui_layer,
        ));
    }
}

/// In the finished scene the interface of the interface camera is the three
/// nodes that come right after it.
proof fn lemma_interface(config: ConfigView)
    ensures
        interface_of(full_scene(config), ui_camera_id(config)) == seq![
            (ui_camera_id(config) + 1) as usize,
            (ui_camera_id(config) + 2) as usize,
            (ui_camera_id(config) + 3) as usize,
        ],
{
    lemma_full_scene(config);
    lemma_interface_layers(config);
    let w = full_scene(config);
    let cam = ui_camera_id(config);
    let nodes = interface_set(w, cam);
    assert forall|id: usize| id <= cam implies !nodes.contains(id) by {
        if id < w.len() && w[id as int].body.is_ui() {
        }
    }
    assert(w[cam + 1].body.is_ui() && w[cam + 2].body.is_ui() && w[cam + 3].body.is_ui());
    assert(nodes.contains((cam + 1) as usize) && nodes.contains((cam + 2) as usize)
        && nodes.contains((cam + 3) as usize));
    reveal_with_fuel(ascending, 10);
    assert(interface_of(w, cam) =~= seq![
        (cam + 1) as usize,
        (cam + 2) as usize,
        (cam + 3) as usize,
    ]);
}

/// In the finished scene every interface node is drawn by the interface
/// camera and so is on the interface layer; nothing else is an interface
/// node. What the scene builder made is on the main layer or on the default
/// layer.
proof fn lemma_interface_layers(config: ConfigView)
    ensures
        forall|id: usize|
            id < full_scene(config).len() && (#[trigger] full_scene(config)[id as int]).body.is_ui()
                ==> ui_camera_id(config) < id && ui_camera_of(full_scene(config), id) == Some(
                ui_camera_id(config),
            ) && layers_of(full_scene(config), id) == set![config.ui_layer],
        forall|id: usize|
            ui_camera_id(config) < id < full_scene(config).len() ==> (#[trigger] full_scene(
                config,
            )[id as int]).body.is_ui(),
        forall|other: usize|
            other < ui_camera_id(config) ==> #[trigger] layers_of(full_scene(config), other) == set![
                config.main_layer,
            ] || layers_of(full_scene(config), other) == set![0nat],
        layers_of(full_scene(config), 3) == set![config.main_layer],
        config.offscreen_camera ==> layers_of(full_scene(config), 4) == set![0nat],
{
    lemma_full_scene(config);
    reveal_with_fuel(root_of, 4);
    let w = full_scene(config);
    let cam = ui_camera_id(config);
    assert forall|id: usize| id < w.len() && (#[trigger] w[id as int]).body.is_ui() implies cam < id
        && ui_camera_of(w, id) == Some(cam) && layers_of(w, id) == set![config.ui_layer] by {
        if id == cam + 1 {
            assert(root_of(w, id) == cam + 1);
        } else if id == cam + 2 {
            assert(root_of(w, id) == cam + 1);
        } else if id == cam + 3 {
            assert(root_of(w, id) == cam + 1);
        }
    }
}

/// With the interface on the default layer and the off-screen camera switched
/// on, the button is drawn on exactly the layers of the off-screen camera:
/// comparing the two layer sets finds them equal, the off-screen camera is
/// among the cameras that share the button's layers, and it draws the button.
pub proof fn law_default_layer_collides(config: ConfigView)
    requires
        config.ui_layer == 0,
        config.offscreen_camera,
    ensures
        full_scene(config)[7].body is Button,
        full_scene(config)[4].body matches Body::Camera(offscreen) && offscreen.target is Image,
        layers_of(full_scene(config), 7) == set![0nat],
        layers_of(full_scene(config), 4) == set![0nat],
        shares_layers(full_scene(config), 7, 4),
        cameras_sharing_layers(full_scene(config), 7).contains(4),
        renders(full_scene(config), 4, 7),
{
    lemma_full_scene(config);
    lemma_interface_layers(config);
    let w = full_scene(config);
    assert(w[7].body.is_ui());
    assert(sharing_camera_set(w, 7).contains(4));
    lemma_ascending(sharing_camera_set(w, 7), w.len());
    assert(layers_of(w, 4).contains(0nat) && layers_of(w, 7).contains(0nat));
}

/// The same on the other side: with the main scene on the default layer and
/// the off-screen camera switched on, the off-screen camera shares the layers
/// of the main camera and draws the ground, the cube and the light as well.
pub proof fn law_main_on_default_layer_collides(config: ConfigView)
    requires
        config.main_layer == 0,
        config.offscreen_camera,
    ensures
        full_scene(config)[3].player_camera,
        shares_layers(full_scene(config), 3, 4),
        cameras_sharing_layers(full_scene(config), 3).contains(4),
        forall|id: usize| id < 3 ==> #[trigger] renders(full_scene(config), 4, id),
{
    lemma_full_scene(config);
    lemma_interface_layers(config);
    let w = full_scene(config);
    assert(sharing_camera_set(w, 3).contains(4));
    lemma_ascending(sharing_camera_set(w, 3), w.len());
    assert forall|id: usize| id < 3 implies #[trigger] renders(w, 4, id) by {
        assert(layers_of(w, 4).contains(0nat) && layers_of(w, id).contains(0nat));
    }
}

} // verus!

//! What a scene is made of: entities, and the plain values that describe them.
//!
//! Lengths and positions are whole numbers: positions and sizes of shapes in
//! thousandths of a world unit, angles in degrees, interface sizes in pixels or
//! percent.

use crate::layers::Layers;
use vstd::prelude::*;

verus! {

/// Marks the camera that draws the interface.
#[derive(Clone, Copy, Debug, PartialEq, Eq)]
pub struct CameraUi;

/// Marks the camera that shows the 3D scene to the player.
#[derive(Clone, Copy, Debug, PartialEq, Eq)]
pub struct PlayerCamera;

/// A point or an offset, in thousandths of a world unit.
#[derive(Clone, Copy, Debug, PartialEq, Eq)]
pub struct Point {
    pub x: i32,
    pub y: i32,
    pub z: i32,
}

impl Point {
    /// The point moved by `by`, coordinate by coordinate.
    pub open spec fn moved(self, by: Point) -> Point {
        Point { x: (self.x + by.x) as i32, y: (self.y + by.y) as i32, z: (self.z + by.z) as i32 }
    }

    /// Both points' coordinates can be added without leaving `i32`.
    pub open spec fn can_move(self, by: Point) -> bool {
        &&& i32::MIN <= self.x + by.x <= i32::MAX
        &&& i32::MIN <= self.y + by.y <= i32::MAX
        &&& i32::MIN <= self.z + by.z <= i32::MAX
    }

    /// Moves the point by an offset.
    pub fn offset(self, by: Point) -> (p: Point)
        requires
            self.can_move(by),
        ensures
            p == self.moved(by),
            p.x == self.x + by.x,
            p.y == self.y + by.y,
            p.z == self.z + by.z,
    {
        Point { x: self.x + by.x, y: self.y + by.y, z: self.z + by.z }
    }
}

/// Which way an entity faces.
#[derive(Clone, Copy, Debug, PartialEq, Eq)]
pub enum Orientation {
    /// Unrotated.
    Identity,
    /// Turned about the x axis by this many degrees.
    AboutX { degrees: i32 },
    /// Facing `target` as seen from `eye`, with the y axis up.
    LookingAt { eye: Point, target: Point },
}

/// Where an entity stands and which way it faces.
#[derive(Clone, Copy, Debug, PartialEq, Eq)]
pub struct Placement {
    pub position: Point,
    pub orientation: Orientation,
}

/// A flat colour.
#[derive(Clone, Copy, Debug, PartialEq, Eq)]
pub enum Color {
    Black,
    White,
    /// sRGB, each channel out of 255.
    Srgb8 { red: u8, green: u8, blue: u8 },
    /// sRGB, each channel in percent.
    SrgbPercent { red: u8, green: u8, blue: u8 },
}

/// The outline of a mesh, in thousandths of a world unit.
#[derive(Clone, Copy, Debug, PartialEq, Eq)]
pub enum Shape {
    Circle { radius: u32 },
    Cuboid { x: u32, y: u32, z: u32 },
}

/// A coloured mesh.
#[derive(Clone, Copy, Debug, PartialEq, Eq)]
pub struct Mesh {
    pub shape: Shape,
    pub color: Color,
    pub placement: Placement,
}

/// A point light.
#[derive(Clone, Copy, Debug, PartialEq, Eq)]
pub struct Light {
    pub shadows: bool,
    pub position: Point,
}

/// What a camera does to the picture that is already there.
#[derive(Clone, Copy, Debug, PartialEq, Eq)]
pub enum ClearColor {
    /// Clears it, as the engine does unless told otherwise.
    Clear,
    /// Leaves it, and so draws on top of the cameras before it.
    Keep,
}

/// A camera's vertical field of view.
#[derive(Clone, Copy, Debug, PartialEq, Eq)]
pub enum FieldOfView {
    /// Whatever the engine takes when none is given.
    Engine,
    Degrees(u32),
}

/// How the four bytes of a pixel are read.
#[derive(Clone, Copy, Debug, PartialEq, Eq)]
pub enum PixelFormat {
    /// Red, green, blue and alpha, eight bits each, in sRGB.
    Rgba8UnormSrgb,
}

/// A two-dimensional image that a camera draws into.
#[derive(Clone, Copy, Debug, PartialEq, Eq)]
pub struct TargetImage {
    pub width: u32,
    pub height: u32,
    pub format: PixelFormat,
    /// The four bytes that every pixel starts with.
    pub fill: [u8; 4],
    /// The image can be bound as a texture.
    pub texture_binding: bool,
    /// The image can be copied into.
    pub copy_destination: bool,
    /// The image can be rendered into.
    pub render_attachment: bool,
}

/// Where a camera's picture goes.
#[derive(Clone, Copy, Debug, PartialEq, Eq)]
pub enum RenderTarget {
    Window,
    Image(TargetImage),
}

/// A perspective camera.
#[derive(Clone, Copy, Debug, PartialEq, Eq)]
pub struct Camera {
    /// Cameras draw in ascending order; a later one draws on top.
    pub order: isize,
    pub clear: ClearColor,
    pub field_of_view: FieldOfView,
    pub placement: Placement,
    pub target: RenderTarget,
}

/// A length in an interface layout.
#[derive(Clone, Copy, Debug, PartialEq, Eq)]
pub enum Length {
    Auto,
    Px(u32),
    Percent(u32),
}

/// Where a node puts its children along one axis.
#[derive(Clone, Copy, Debug, PartialEq, Eq)]
pub enum Align {
    /// Left to the layout engine.
    Unset,
    Center,
    FlexEnd,
}

/// The layout of an interface node.
#[derive(Clone, Copy, Debug, PartialEq, Eq)]
pub struct Style {
    pub width: Length,
    pub height: Length,
    /// The border's width on all four sides.
    pub border: Length,
    pub align_items: Align,
    pub justify_content: Align,
}

/// How a button looks.
#[derive(Clone, Copy, Debug, PartialEq, Eq)]
pub struct Button {
    pub style: Style,
    pub border_color: Color,
    pub background: Color,
    /// The corners are rounded as far as they go.
    pub rounded: bool,
}

/// How a piece of text is set.
#[derive(Clone, Copy, Debug, PartialEq, Eq)]
pub struct Label {
    pub font_size: u32,
    pub color: Color,
}

/// What an entity is.
#[derive(Clone, Copy, Debug, PartialEq, Eq)]
pub enum Body {
    Mesh(Mesh),
    Light(Light),
    Camera(Camera),
    /// An interface node that only lays out its children.
    Node(Style),
    /// An interface node drawn as a button.
    Button(Button),
    /// An interface node that shows the entity's text.
    Label(Label),
}

impl Body {
    pub open spec fn is_camera(self) -> bool {
        self is Camera
    }

    /// The entity is part of the interface.
    pub open spec fn is_ui(self) -> bool {
        self is Node || self is Button || self is Label
    }
}

/// One entity of a scene.
///
/// `parent` and `target_camera` name other entities by their number in the
/// world that holds them all.
#[derive(Debug, PartialEq, Eq)]
pub struct Entity {
    /// The render-layer tag; an entity without one is on the engine's default
    /// layer.
    pub layers: Option<Layers>,
    pub camera_ui: Option<CameraUi>,
    pub player_camera: Option<PlayerCamera>,
    /// The interface node that this one is laid out in.
    pub parent: Option<usize>,
    /// The only camera that draws this interface node and what is below it.
    pub target_camera: Option<usize>,
    /// The text that the entity shows.
    pub text: Option<&'static str>,
    pub body: Body,
}

/// An entity as the contracts see it: its tag as a set of layers, its markers
/// as flags, its text as a sequence of characters.
pub struct EntityView {
    pub layers: Option<Set<nat>>,
    pub camera_ui: bool,
    pub player_camera: bool,
    pub parent: Option<usize>,
    pub target_camera: Option<usize>,
    pub text: Option<Seq<char>>,
    pub body: Body,
}

impl View for Entity {
    type V = EntityView;

    open spec fn view(&self) -> EntityView {
        EntityView {
            layers: match self.layers {
                Some(tag) => Some(tag@),
                None => None,
            },
            camera_ui: self.camera_ui is Some,
            player_camera: self.player_camera is Some,
            parent: self.parent,
            target_camera: self.target_camera,
            text: match self.text {
                Some(text) => Some(text@),
                None => None,
            },
            body: self.body,
        }
    }
}

} // verus!

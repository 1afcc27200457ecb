//! The vocabulary shared by the engine and its bodies: points, viewport
//! sizes, the physical state of a body, and the `GameObject` trait through
//! which the engine drives bodies of any kind.

use crate::scalar::Scalar;
use vstd::prelude::*;

verus! {

/// Restitution of a body that does not choose its own: eight tenths.
pub const DEFAULT_COLLISION_DAMPING_FACTOR: i64 = 800_000;

/// Restitution suggested for rectangular bodies: one half.
pub const DEFAULT_COLLISION_DAMPING_FACTOR_RECTANGLE: i64 = 500_000;

/// A pair of scalars: a position in pixels (origin top-left, `y` growing
/// downward) or a velocity in pixels per step.
#[derive(Clone, Copy, Debug, PartialEq, Eq)]
pub struct XYPair {
    pub x: Scalar,
    pub y: Scalar,
}

impl Default for XYPair {
    fn default() -> (r: XYPair)
        ensures
            r == (XYPair { x: Scalar { micro: 0 }, y: Scalar { micro: 0 } }),
    {
        XYPair { x: Scalar::zero(), y: Scalar::zero() }
    }
}

/// The size of the viewport in whole pixels.
#[derive(Clone, Copy, Debug, PartialEq, Eq)]
pub struct WindowSize {
    pub height: usize,
    pub width: usize,
}

/// What a body knows of its surroundings: the viewport as last observed.
#[derive(Clone, Copy, Debug, PartialEq, Eq)]
pub struct ObjectInfo {
    pub window_size: WindowSize,
}

/// The physical state every body owns.
#[derive(Clone, Copy, Debug, PartialEq, Eq)]
pub struct GameObjectCommon {
    pub coords: XYPair,
    pub velocities: XYPair,
    pub object_info: Option<ObjectInfo>,
}

impl Default for GameObjectCommon {
    fn default() -> (r: GameObjectCommon)
        ensures
            r == (GameObjectCommon {
                coords: XYPair { x: Scalar { micro: 0 }, y: Scalar { micro: 0 } },
                velocities: XYPair { x: Scalar { micro: 0 }, y: Scalar { micro: 0 } },
                object_info: None,
            }),
    {
        GameObjectCommon {
            coords: XYPair::default(),
            velocities: XYPair::default(),
            object_info: None,
        }
    }
}

/// The geometry a body collides with: a circle of the given radius.
#[derive(Clone, Copy, Debug, PartialEq, Eq)]
pub enum CollisionShape {
    Circle(Scalar),
}

/// The kinds of collision geometry; only circles are resolved.
#[derive(Clone, Copy, Debug, PartialEq, Eq)]
pub enum CollisionType {
    Circle,
    Rectangle,
}

/// A key of the keyboard.
#[derive(Clone, Copy, Debug, PartialEq, Eq, Structural, Hash)]
pub enum Key {
    Key0,
    Key1,
    Key2,
    Key3,
    Key4,
    Key5,
    Key6,
    Key7,
    Key8,
    Key9,
    A,
    B,
    C,
    D,
    E,
    F,
    G,
    H,
    I,
    J,
    K,
    L,
    M,
    N,
    O,
    P,
    Q,
    R,
    S,
    T,
    U,
    V,
    W,
    X,
    Y,
    Z,
    F1,
    F2,
    F3,
    F4,
    F5,
    F6,
    F7,
    F8,
    F9,
    F10,
    F11,
    F12,
    F13,
    F14,
    F15,
    Down,
    Left,
    Right,
    Up,
    Apostrophe,
    Backquote,
    Backslash,
    Comma,
    Equal,
    LeftBracket,
    Minus,
    Period,
    RightBracket,
    Semicolon,
    Slash,
    Backspace,
    Delete,
    End,
    Enter,
    Escape,
    Home,
    Insert,
    Menu,
    PageDown,
    PageUp,
    Pause,
    Space,
    Tab,
    NumLock,
    CapsLock,
    ScrollLock,
    LeftShift,
    RightShift,
    LeftCtrl,
    RightCtrl,
    NumPad0,
    NumPad1,
    NumPad2,
    NumPad3,
    NumPad4,
    NumPad5,
    NumPad6,
    NumPad7,
    NumPad8,
    NumPad9,
    NumPadDot,
    NumPadSlash,
    NumPadAsterisk,
    NumPadMinus,
    NumPadPlus,
    NumPadEnter,
    LeftAlt,
    RightAlt,
    LeftSuper,
    RightSuper,
    Unknown,
}

/// A body's raster as a grid of colours, row by row.
pub open spec fn grid_of(raster: Vec<Vec<u32>>) -> Seq<Seq<u32>> {
    raster.deep_view()
}

/// Whether `a` and `b` are the same body up to its physical state: equal
/// weight, restitution, shape and raster, and the same reaction to input.
pub open spec fn same_body(a: &Box<dyn GameObject>, b: &Box<dyn GameObject>) -> bool {
    &&& a.spec_weight_factor() == b.spec_weight_factor()
    &&& a.spec_bounciness() == b.spec_bounciness()
    &&& a.spec_collision_shape() == b.spec_collision_shape()
    &&& a.spec_draw() == b.spec_draw()
    &&& forall|state: GameObjectCommon, keys: Seq<Key>|
        #![trigger a.reaction(state, keys)]
        #![trigger b.reaction(state, keys)]
        a.reaction(state, keys) == b.reaction(state, keys)
}

/// What the engine asks of a body.
pub trait GameObject {
    /// The body's physical state.
    spec fn state(&self) -> GameObjectCommon;

    /// What `weight_factor` returns.
    spec fn spec_weight_factor(&self) -> Scalar;

    /// What `bounciness` returns: eight tenths, unless the body says
    /// otherwise.
    open spec fn spec_bounciness(&self) -> Scalar {
        Scalar { micro: DEFAULT_COLLISION_DAMPING_FACTOR }
    }

    /// What `collision_shape` returns.
    spec fn spec_collision_shape(&self) -> CollisionShape;

    /// What `draw` returns, as a grid of colours.
    spec fn spec_draw(&self) -> Seq<Seq<u32>>;

    /// The physical state in which the body leaves `handle_input` when it
    /// enters it in `state` with `keys` held down: the same state, unless the
    /// body says otherwise.
    open spec fn reaction(&self, state: GameObjectCommon, keys: Seq<Key>) -> GameObjectCommon {
        state
    }

    /// Hands out the physical state for reading and writing. Nothing else
    /// about the body changes, whatever is written.
    fn common(&mut self) -> (r: &mut GameObjectCommon)
        ensures
            *r == old(self).state(),
            final(self).state() == *final(r),
            final(self).spec_weight_factor() == old(self).spec_weight_factor(),
            final(self).spec_bounciness() == old(self).spec_bounciness(),
            final(self).spec_collision_shape() == old(self).spec_collision_shape(),
            final(self).spec_draw() == old(self).spec_draw(),
            forall|state: GameObjectCommon, keys: Seq<Key>|
                #![trigger final(self).reaction(state, keys)]
                #![trigger old(self).reaction(state, keys)]
                final(self).reaction(state, keys) == old(self).reaction(state, keys),
    ;

    /// The factor by which gravity pulls on this body.
    fn weight_factor(&self) -> (r: Scalar)
        ensures
            r == self.spec_weight_factor(),
    ;

    /// The share of its speed that the body keeps when it bounces.
    fn bounciness(&self) -> (r: Scalar)
        ensures
            r == self.spec_bounciness(),
    ;

    fn collision_shape(&self) -> (r: CollisionShape)
        ensures
            r == self.spec_collision_shape(),
    ;

    /// The body's image in its own frame, row by row, origin at the top-left
    /// corner of its bounding box. A cell of colour 0 is transparent.
    fn draw(&self) -> (r: Vec<Vec<u32>>)
        ensures
            grid_of(r) == self.spec_draw(),
    ;

    /// Lets the body react to the keys that are held down. Only its physical
    /// state may change.
    fn handle_input(&mut self, keys: &[Key])
        ensures
            final(self).state() == old(self).reaction(old(self).state(), keys@),
            final(self).spec_weight_factor() == old(self).spec_weight_factor(),
            final(self).spec_bounciness() == old(self).spec_bounciness(),
            final(self).spec_collision_shape() == old(self).spec_collision_shape(),
            final(self).spec_draw() == old(self).spec_draw(),
            forall|state: GameObjectCommon, held: Seq<Key>|
                #![trigger final(self).reaction(state, held)]
                #![trigger old(self).reaction(state, held)]
                final(self).reaction(state, held) == old(self).reaction(state, held),
    ;
}

} // verus!

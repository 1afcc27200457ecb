//! A small fixed-step physics engine: bodies fall under gravity, are slowed
//! by drag, bounce off the edges of a rectangular viewport and are painted
//! into a shared pixel buffer once per frame.
//!
//! All quantities are signed fixed-point numbers (`Scalar`), so every step
//! of the pipeline is exact, total and machine-checked.

pub mod ball;
pub mod body;
pub mod canvas;
pub mod color;
pub mod engine;
pub mod physics;
pub mod scalar;

pub use crate::ball::Ball;
pub use crate::body::{
    CollisionShape, CollisionType, GameObject, GameObjectCommon, Key, ObjectInfo, WindowSize,
    XYPair,
};
pub use crate::engine::Engine;
pub use crate::scalar::Scalar;

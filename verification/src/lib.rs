//! Scene graph of a six-legged walking robot.
//!
//! The crate keeps the robot's rigid bodies in an append-only tree of
//! parent-relative transforms, builds the fixed body/coxa/femur/tibia layout
//! from a table of per-leg offsets, and advances the joint poses once per
//! frame. All quantities are fixed-point integers, so every operation is
//! exact and its result is stated in full by its contract.

pub mod leg;
pub mod transform;
pub mod hierarchy;
pub mod scene;
pub mod animation;

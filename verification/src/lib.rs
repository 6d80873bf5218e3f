//! A two-dimensional particle simulation in exact fixed-point arithmetic.
//!
//! Circular bodies attract one another, bounce off the borders of a fixed
//! rectangle, exchange velocities when they overlap, and receive an impulse
//! when the pointer is pressed on them. Every quantity is a [`scalar::Scalar`],
//! so one tick is a total function from state to state.

pub mod scalar;
pub mod vector;
pub mod particle;
pub mod interaction;
pub mod simulation;
pub mod theorems;
pub mod render;
pub mod spawn;

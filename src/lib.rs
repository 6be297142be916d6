//! The core of a small solar-system simulation: a handful of bodies pulled
//! together by Newtonian gravity and advanced step by step.
//!
//! - `step`: which pairs of bodies interact and in what order, how their
//!   forces are accumulated with opposite signs, and how positions and
//!   velocities advance by semi-implicit Euler unless the simulation is paused.
//! - `trail`: the bounded history of a body's recent positions.
//! - `lagrange`: the reference bodies and the points placed from them.
//! - `ops`: what is asked of the operations a caller hands in.
//! - `session`: the screens of the program and the choices made on them.
//! - `clock`: speed, pause and the simulated time elapsed.
//! - `calendar`: the date shown for the elapsed simulated time.
//!
//! Vectors, masses and times are type parameters: the caller supplies the
//! number type and the few operations each stage applies to it.

pub mod calendar;
pub mod clock;
pub mod lagrange;
pub mod ops;
pub mod session;
pub mod step;
pub mod trail;

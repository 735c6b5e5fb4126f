//! Server-authoritative simulation of a two-player pong match, the
//! notification protocol that keeps client mirrors in step with it, and a
//! small effect system for characters.
//!
//! All lengths are integer milli-units of the playing field, so a velocity in
//! milli-units per millisecond is the same number as a speed in field units
//! per second. Time steps are given in milliseconds.
pub mod client;
pub mod components;
pub mod effect_system;
pub mod geometry;
pub mod server;

//! An animated noisy circle, computed in exact integer arithmetic.
//!
//! Every frame a closed polygon is drawn around the centre of the screen. Each
//! corner sits at a radius made of a fixed inner floor and a band that a noise
//! field modulates; the noise field is sampled on a circle that drifts through
//! simulated time. This crate holds the state of that figure and everything that
//! is decided or computed about it. Sines, cosines, noise values, the clock and
//! the screen come in as plain integers and the figure goes out as a list of
//! lines in integer coordinates; see [`units`] for what the integers count.

mod arith;
pub mod circle;
pub mod color;
pub mod frame;
pub mod generator;
pub mod menu;
pub mod shape;
pub mod units;

//! The decision core of a transparent overlay that draws one triangle at the
//! top centre of the primary display.
//!
//! Everything here works on plain values. The surrounding program talks to the
//! window system and the GPU, hands what they report to this library, and
//! carries out what the library answers.

pub mod context;
pub mod driver;
pub mod error;
pub mod frame;
pub mod geometry;
pub mod gpu;
pub mod platform;
pub mod startup;
pub mod window;

//! Driver core for a 128 by 64 monochrome dot-matrix display on a bit-banged
//! four-line serial link, plus the interface stub of a range sensor.
//!
//! The display driver renders text and numbers into an off-screen framebuffer
//! that mirrors the controller's page-addressed RAM, and serializes command
//! and data bytes into a wire queue; the surrounding platform layer shifts
//! those bytes out over the physical lines.

pub mod display;
pub mod font;
pub mod lidar;
pub mod link;

//! Coordinate resolution and G-code rendering for a catalog of CNC router bits.
//!
//! Lengths are fixed-point integers counting ten-thousandths of an inch, the
//! precision at which machine offsets are recorded.
pub mod bits;
pub mod defaults;
pub mod error;
pub mod fixed;
pub mod gcode;
pub mod ident;
pub mod resolver;
pub mod store;

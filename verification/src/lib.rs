//! A small image toolkit built around an escape-time fractal renderer.
//!
//! The heart of the crate is [`fractal::render`]: it assembles a row-major
//! RGB8 raster whose red and blue channels form a coordinate gradient and
//! whose green channel carries a caller-supplied escape count per pixel.
//! Around it stand the command model ([`command::Command`] and its
//! [`command::Plan`]) and the rotation-argument validator
//! ([`rotate::rotate_valid`]).
//!
//! Encoding, file output and the floating-point escape iteration itself are
//! left to the surrounding application; this crate states and proves what the
//! raster and the command decisions look like.

pub mod command;
pub mod fractal;
pub mod raster;
pub mod rotate;

pub use command::{Command, ImageOp, Plan, RotationOp};
pub use command::{open_failure_message, write_failure_message};
pub use fractal::{render, FractalError};
pub use raster::{Raster, Rgb};
pub use rotate::rotate_valid;

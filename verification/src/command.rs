//! The command model: what each image command asks the application to do.
//!
//! A [`Command`] names an operation the way the command line does; its
//! [`Command::plan`] turns it into the [`Plan`] the surrounding application
//! carries out: open an input image and apply one [`ImageOp`], render a
//! fractal, or acknowledge the unimplemented generator. Everything the
//! application decides — which transform, with which arguments, which
//! quarter- or half-turn a rotation takes — is fixed here and proved.

use vstd::prelude::*;
use vstd::string::*;

verus! {

/// One image command, as the command line names it.
#[derive(Debug, Clone)]
pub enum Command {
    /// Blur an image by a given percentage.
    Blur { infile: String, outfile: String, percent: u32 },
    /// Brighten an image by a given amount.
    Brighten { infile: String, outfile: String, amount: i32 },
    /// Crop an image to x, y, width, height.
    Crop { infile: String, outfile: String, x: u32, y: u32, width: u32, height: u32 },
    /// Rotate an image by the given degrees; valid values 90, 180 or 270.
    Rotate { infile: String, outfile: String, degrees: u32 },
    /// Generate a new image in outfile.
    Generate { outfile: String, value: i32 },
    /// Invert an image from infile to outfile.
    Invert { infile: String, outfile: String },
    /// Convert an image to grey scale.
    Grayscale { infile: String, outfile: String },
    /// Generate a fractal image in the file provided.
    Fractal { outfile: String, width: u32, height: u32 },
}

/// How far a rotation turns the image.
#[derive(Clone, Copy, PartialEq, Eq, Structural, Debug)]
pub enum RotationOp {
    /// A single quarter turn clockwise.
    Quarter,
    /// A half turn.
    Half,
}

/// A transform of one loaded image.
#[derive(Clone, Copy, PartialEq, Eq, Structural, Debug)]
pub enum ImageOp {
    Blur { percent: u32 },
    Brighten { amount: i32 },
    Crop { x: u32, y: u32, width: u32, height: u32 },
    /// A hue rotation by `degrees`, followed by the turn that
    /// [`rotation_for`] picks for `degrees`.
    Rotate { degrees: u32 },
    Invert,
    Grayscale,
}

/// What the application is to do for a command.
#[derive(Debug, Clone, PartialEq)]
pub enum Plan {
    /// Open `infile`, apply `op`, write the result to `outfile`.
    Transform { infile: String, outfile: String, op: ImageOp },
    /// Render the escape-time fractal raster and encode it to `outfile`.
    Fractal { outfile: String, width: u32, height: u32 },
    /// The unimplemented generator: announce it and change nothing.
    Generate { outfile: String, value: i32 },
}

/// The turn a rotation command performs: a quarter turn for 90 degrees, a
/// half turn for 180 — and for 270 as well, which turns the image half-way
/// rather than three quarters; any other number of degrees is refused.
pub open spec fn rotation_for_spec(degrees: u32) -> Option<RotationOp> {
    if degrees == 90 {
        Some(RotationOp::Quarter)
    } else if degrees == 180 || degrees == 270 {
        Some(RotationOp::Half)
    } else {
        None
    }
}

/// Picks the turn for a number of degrees; see [`rotation_for_spec`].
pub fn rotation_for(degrees: u32) -> (r: Option<RotationOp>)
    ensures
        r == rotation_for_spec(degrees),
{
    if degrees == 90 {
        Some(RotationOp::Quarter)
    } else if degrees == 180 || degrees == 270 {
        Some(RotationOp::Half)
    } else {
        None
    }
}

impl Command {
    /// The plan each command stands for: every transform keeps its input,
    /// output and arguments; the fractal and generate commands pass their
    /// arguments through unchanged.
    pub open spec fn plan_spec(self) -> Plan {
        match self {
            Command::Blur { infile, outfile, percent } => Plan::Transform {
                infile,
                outfile,
                op: ImageOp::Blur { percent },
            },
            Command::Brighten { infile, outfile, amount } => Plan::Transform {
                infile,
                outfile,
                op: ImageOp::Brighten { amount },
            },
            Command::Crop { infile, outfile, x, y, width, height } => Plan::Transform {
                infile,
                outfile,
                op: ImageOp::Crop { x, y, width, height },
            },
            Command::Rotate { infile, outfile, degrees } => Plan::Transform {
                infile,
                outfile,
                op: ImageOp::Rotate { degrees },
            },
            Command::Generate { outfile, value } => Plan::Generate { outfile, value },
            Command::Invert { infile, outfile } => Plan::Transform {
                infile,
                outfile,
                op: ImageOp::Invert,
            },
            Command::Grayscale { infile, outfile } => Plan::Transform {
                infile,
                outfile,
                op: ImageOp::Grayscale,
            },
            Command::Fractal { outfile, width, height } => Plan::Fractal {
                outfile,
                width,
                height,
            },
        }
    }

    /// Decides what to do for this command.
    pub fn plan(self) -> (p: Plan)
        ensures
            p == self.plan_spec(),
    {
        match self {
            Command::Blur { infile, outfile, percent } => Plan::Transform {
                infile,
                outfile,
                op: ImageOp::Blur { percent },
            },
            Command::Brighten { infile, outfile, amount } => Plan::Transform {
                infile,
                outfile,
                op: ImageOp::Brighten { amount },
            },
            Command::Crop { infile, outfile, x, y, width, height } => Plan::Transform {
                infile,
                outfile,
                op: ImageOp::Crop { x, y, width, height },
            },
            Command::Rotate { infile, outfile, degrees } => Plan::Transform {
                infile,
                outfile,
                op: ImageOp::Rotate { degrees },
            },
            Command::Generate { outfile, value } => Plan::Generate { outfile, value },
            Command::Invert { infile, outfile } => Plan::Transform {
                infile,
                outfile,
                op: ImageOp::Invert,
            },
            Command::Grayscale { infile, outfile } => Plan::Transform {
                infile,
                outfile,
                op: ImageOp::Grayscale,
            },
            Command::Fractal { outfile, width, height } => Plan::Fractal {
                outfile,
                width,
                height,
            },
        }
    }
}

/// The context attached to an image that cannot be opened.
pub fn open_failure_message(path: &str) -> (m: String)
    ensures
        m@ == "Failed to open "@ + path@,
{
    String::from_str("Failed to open ").concat(path)
}

/// The context attached to an image that cannot be written.
pub fn write_failure_message(path: &str) -> (m: String)
    ensures
        m@ == "Failed writing "@ + path@ + "."@,
{
    String::from_str("Failed writing ").concat(path).concat(".")
}

} // verus!

//! Driver logic for Adafruit 2.9" e-paper displays.
use vstd::prelude::*;

pub mod color;
pub mod displays;
pub mod driver;
pub mod graphics;

verus! {

/// Maximum display height this driver supports
pub const MAX_HEIGHT: u16 = 296;

/// Maximum display width this driver supports
pub const MAX_WIDTH: u16 = 176;

} // verus!

//! BlazePose model geometry and landmark numbering.

pub mod lm;

use vstd::prelude::*;

verus! {

/// Side, in pixels, of the square patch the pose model reads.
pub const BLAZEPOSE_INPUT_SIZE: u32 = 256;

/// Number of landmarks the pose model reports.
pub const N_LANDMARKS: usize = 33;

} // verus!

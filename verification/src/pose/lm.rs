//! MediaPipe BlazePose landmark indices.

use vstd::prelude::*;

verus! {

pub const NOSE: usize = 0;

pub const LEFT_SHOULDER: usize = 11;

pub const RIGHT_SHOULDER: usize = 12;

pub const LEFT_HIP: usize = 23;

pub const RIGHT_HIP: usize = 24;

pub const LEFT_ANKLE: usize = 27;

pub const RIGHT_ANKLE: usize = 28;

} // verus!

//! Verified core of a polar rose-curve animator: fixed-point curve sampling,
//! a fading trail buffer, surface projection, a live session driver, and the
//! frame-export state machine. Windowing, rendering and image encoding are
//! external collaborators and live outside this library.

pub mod curve;
pub mod export;
pub mod num;
pub mod session;
pub mod surface;
pub mod trail;
pub mod trig;

use vstd::prelude::*;

verus! {

} // verus!

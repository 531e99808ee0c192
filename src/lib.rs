//! A small rendering-session library: the static mesh, the choice of the
//! surface format, and the per-frame decisions of a window's render loop.
//! The GPU and window calls themselves are made by the caller.

use vstd::prelude::*;

pub mod driver;
pub mod geometry;
pub mod session;
pub mod surface;

verus! {

} // verus!

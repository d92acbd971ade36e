//! General vector paths.

use vstd::prelude::*;

verus! {

/// A general vector path; its drawing lives with the rasterizing backend.
pub struct Path {}

} // verus!

//! The Metal renderer's public surface.
use vstd::prelude::*;

verus! {

/// A structure that manages rendering scenes using a particular hardware
/// device.
pub struct Renderer;

} // verus!

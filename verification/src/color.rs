//! Colors are vectors: the components carry the red, green and blue
//! channels, each nominally in `[0, 1]`.

use crate::vec3::Vec3;
use vstd::prelude::*;

verus! {

pub type Color = Vec3;

} // verus!

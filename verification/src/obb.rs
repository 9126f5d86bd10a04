//! Oriented bounding boxes.

use vstd::prelude::*;

verus! {

/// The bounding volume of a node. Each coordinate is the bit pattern of a
/// binary64 number; the box is carried, not computed with.
#[derive(Debug, Clone, PartialEq, Eq)]
pub struct OrientedBoundingBox {
    /// Center: x, y, z.
    pub center: Vec<u64>,
    /// Half size: x, y, z.
    pub half_size: Vec<u64>,
    /// Rotation quaternion: x, y, z, w.
    pub quaternion: Vec<u64>,
}

impl OrientedBoundingBox {
    /// Whether the box has three center coordinates, three half sizes and
    /// four quaternion components, as computing its corners requires.
    pub fn is_complete(&self) -> (r: bool)
        ensures
            r == (self.center@.len() == 3 && self.half_size@.len() == 3 && self.quaternion@.len()
                == 4),
    {
        self.center.len() == 3 && self.half_size.len() == 3 && self.quaternion.len() == 4
    }
}

} // verus!

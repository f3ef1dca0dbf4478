//! The kind tag of a light source: the one piece of the lighting data layout
//! that is plain data, kept apart from the GPU-side record packing.

use vstd::prelude::*;

verus! {

/// The kind of a light source, as stored numerically in GPU-side records.
#[derive(Debug, Copy, Clone, PartialEq, Eq, Structural)]
pub enum LightType {
    Point,
    Directional,
    Ambient,
}

impl LightType {
    /// The numeric tag this kind carries in a GPU-side light record.
    pub open spec fn tag_spec(self) -> u32 {
        match self {
            LightType::Point => 0,
            LightType::Directional => 1,
            LightType::Ambient => 2,
        }
    }

    /// The numeric tag of this kind.
    pub fn tag(self) -> (r: u32)
        ensures
            r == self.tag_spec(),
    {
        match self {
            LightType::Point => 0,
            LightType::Directional => 1,
            LightType::Ambient => 2,
        }
    }

    /// The kind carrying the given numeric tag: the inverse of `tag`.
    /// Exactly the tags `0`, `1` and `2` name a kind.
    pub fn from_u32(tag: u32) -> (r: Option<LightType>)
        ensures
            match r {
                Some(k) => k.tag_spec() == tag,
                None => tag >= 3,
            },
    {
        if tag == 0 {
            Some(LightType::Point)
        } else if tag == 1 {
            Some(LightType::Directional)
        } else if tag == 2 {
            Some(LightType::Ambient)
        } else {
            None
        }
    }
}

} // verus!

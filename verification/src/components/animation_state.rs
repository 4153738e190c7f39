//! Kinds of animation channels.
use vstd::prelude::*;

verus! {

/// What an animation channel drives on its target node.
#[derive(Clone, Copy, Debug, PartialEq, Eq, Structural)]
pub enum AnimationType {
    Translation,
    Rotation,
    Scale,
}

impl AnimationType {
    /// The number of values per keyframe of a channel of this type: a
    /// rotation is a quaternion, a translation or a scale a 3-vector.
    pub fn components(&self) -> (res: usize)
        ensures
            res == match *self {
                AnimationType::Rotation => 4usize,
                _ => 3usize,
            },
    {
        match self {
            AnimationType::Translation | AnimationType::Scale => 3,
            AnimationType::Rotation => 4,
        }
    }
}

} // verus!

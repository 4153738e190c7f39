//! The rigid-body component.
use vstd::prelude::*;

verus! {

/// A body taking part in physics, with its momentum.
#[derive(Clone, Copy, Debug)]
pub struct RigidBody {
    pub momentum: i32,
}

impl RigidBody {
    /// A rigid body with unit momentum.
    pub fn new() -> (res: Self)
        ensures
            res.momentum == 1,
    {
        RigidBody { momentum: 1 }
    }
}

} // verus!

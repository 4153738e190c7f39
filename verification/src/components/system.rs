//! The trait that game systems implement.
use vstd::prelude::*;
use crate::event_system::event_types::Event;

verus! {

/// A game system: it may react to events and may run a per-frame update.
/// Both default to doing nothing.
pub trait System<P>: Send + Sync {
    fn event(&self, _event: &Event<P>) {
    }

    fn update() where Self: Sized {
    }
}

} // verus!

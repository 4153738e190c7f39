//! Shorthands over the entity-component store.
use vstd::prelude::*;
use crate::modules::ecs::{self, ComponentMap, EntityId, is_uuid_v4_text, upsert};

verus! {

/// Spawns an entity with no components in `map`, by [`ecs::spawn`].
pub fn spawn<T>(map: &mut ComponentMap<T>) -> (id: EntityId)
    requires
        old(map).wf(),
    ensures
        final(map).wf(),
        final(map)@ == upsert(old(map)@, id@, Seq::empty()),
        is_uuid_v4_text(id@),
{
    ecs::spawn(map)
}

} // verus!

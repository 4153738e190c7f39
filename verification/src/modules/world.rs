//! The `World` handle: the entity operations as methods on one store.
use vstd::prelude::*;
use crate::modules::ecs::{
    ComponentKind, ComponentMap, EntityId, EntityView, StoredComponent, components_copied,
    components_of, contains_entity, copies_of, copies_of2, copies_of3, copy_entity, deleted,
    delete_entity, get_all_entities, get_component, insert, inserted, lookup, query_all,
    query_all2, query_all3, query_get_all_ids, query_ids, query_one, query_three, query_two,
    is_uuid_v4_text, spawn, upsert, well_formed,
};

verus! {

/// A world of entities, holding its component store.
pub struct World<T> {
    components: ComponentMap<T>,
}

impl<T> View for World<T> {
    type V = Seq<EntityView<T>>;

    closed spec fn view(&self) -> Seq<EntityView<T>> {
        self.components@
    }
}

impl<T> World<T> {
    /// The store's invariant holds.
    pub open spec fn wf(&self) -> bool {
        well_formed(self@)
    }

    /// An empty world.
    pub fn new() -> (res: Self)
        ensures
            res@ == Seq::<EntityView<T>>::empty(),
            res.wf(),
    {
        World { components: ComponentMap::new() }
    }

    /// Spawns an entity with no components; see [`spawn`].
    pub fn spawn(&mut self) -> (id: EntityId)
        requires
            old(self).wf(),
        ensures
            final(self).wf(),
            final(self)@ == upsert(old(self)@, id@, Seq::empty()),
            is_uuid_v4_text(id@),
    {
        spawn(&mut self.components)
    }

    /// Inserts a component, replacing the one of the same kind; see [`insert`].
    pub fn insert(&mut self, entity_id: &EntityId, kind: ComponentKind, component: T)
        requires
            old(self).wf(),
        ensures
            final(self).wf(),
            final(self)@ == inserted(old(self)@, entity_id@, StoredComponent { kind, value: component }),
    {
        insert(&mut self.components, entity_id, kind, component)
    }

    /// A copy of a component's payload; see [`get_component`].
    pub fn get_component_readonly(&self, entity_id: &EntityId, kind: ComponentKind) -> (res: Option<T>) where
        T: Clone,
        requires
            self.wf(),
        ensures
            res is Some <==> lookup(self@, entity_id@, kind) is Some,
            res is Some ==> cloned::<T>(lookup(self@, entity_id@, kind).unwrap(), res.unwrap()),
    {
        get_component(&self.components, entity_id, kind)
    }

    /// The entities with a component of one kind; see [`query_all`].
    pub fn query_get_all(&self, kind: ComponentKind) -> (res: Vec<(EntityId, T)>) where T: Clone,
        requires
            self.wf(),
        ensures
            copies_of(res@, query_one(self@, kind)),
    {
        query_all(&self.components, kind)
    }

    /// The entities with components of two kinds; see [`query_all2`].
    pub fn query_get_all2(&self, kind1: ComponentKind, kind2: ComponentKind) -> (res: Vec<
        (EntityId, T, T),
    >) where T: Clone,
        requires
            self.wf(),
        ensures
            copies_of2(res@, query_two(self@, kind1, kind2)),
    {
        query_all2(&self.components, kind1, kind2)
    }

    /// The entities with components of three kinds; see [`query_all3`].
    pub fn query_get_all3(&self, kind1: ComponentKind, kind2: ComponentKind, kind3: ComponentKind) -> (res: Vec<
        (EntityId, T, T, T),
    >) where T: Clone,
        requires
            self.wf(),
        ensures
            copies_of3(res@, query_three(self@, kind1, kind2, kind3)),
    {
        query_all3(&self.components, kind1, kind2, kind3)
    }

    /// The ids of the entities with a component of one kind; see
    /// [`query_get_all_ids`].
    pub fn query_get_all_ids(&self, kind: ComponentKind) -> (res: Vec<EntityId>)
        requires
            self.wf(),
        ensures
            res@.map_values(|id: EntityId| id@) == query_ids(self@, kind),
    {
        query_get_all_ids(&self.components, kind)
    }

    /// Copies an entity to a fresh id; see [`copy_entity`].
    pub fn copy_entity(&mut self, source_entity_id: &EntityId) -> (res: Option<EntityId>) where
        T: Clone,
        requires
            old(self).wf(),
        ensures
            final(self).wf(),
            res is None <==> !contains_entity(old(self)@, source_entity_id@),
            res is None ==> final(self)@ == old(self)@,
            res matches Some(id) ==> is_uuid_v4_text(id@),
            res matches Some(id) ==> exists|comps: Seq<StoredComponent<T>>|
                #[trigger] components_copied(
                    components_of(old(self)@, source_entity_id@).unwrap(),
                    comps,
                ) && final(self)@ == upsert(old(self)@, id@, comps),
    {
        copy_entity(&mut self.components, source_entity_id)
    }

    /// Deletes an entity; see [`delete_entity`].
    pub fn delete_entity(&mut self, entity_id: &EntityId) -> (res: bool)
        requires
            old(self).wf(),
        ensures
            final(self).wf(),
            res == contains_entity(old(self)@, entity_id@),
            final(self)@ == deleted(old(self)@, entity_id@),
    {
        delete_entity(&mut self.components, entity_id)
    }

    /// Every entity's id with its number of components; see
    /// [`get_all_entities`].
    pub fn get_all_entities(&self) -> (res: Vec<(EntityId, usize)>)
        requires
            self.wf(),
        ensures
            res@.len() == self@.len(),
            forall|j: int|
                0 <= j < res@.len() ==> (#[trigger] res@[j]).0@ == self@[j].0 && res@[j].1
                    == self@[j].1.len(),
    {
        get_all_entities(&self.components)
    }
}

impl<T> Default for World<T> {
    fn default() -> (res: Self)
        ensures
            res@ == Seq::<EntityView<T>>::empty(),
            res.wf(),
    {
        World::new()
    }
}

} // verus!

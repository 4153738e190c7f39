//! The entity-component store.
//!
//! Every entity is identified by a string id and owns a list of components.
//! An entity holds at most one component of each kind: inserting a component
//! replaces the one of the same kind. The payload of a component is carried
//! through unchanged; the store reads only its kind.
use vstd::prelude::*;
use uuid::Uuid;

verus! {

pub type EntityId = String;

/// The kind of a stored component: one per variant of the engine's
/// component enum.
#[derive(Clone, Copy, PartialEq, Eq, Structural, Debug)]
pub enum ComponentKind {
    Transform,
    Metadata,
    Camera,
    Collider,
    StaticObject3D,
    AnimatedObject3D,
    Shape,
    RigidBody,
}

/// A component as the store keeps it: its kind and its payload.
pub struct StoredComponent<T> {
    pub kind: ComponentKind,
    pub value: T,
}

impl<T: Clone> Clone for StoredComponent<T> {
    fn clone(&self) -> (res: Self)
        ensures
            res.kind == self.kind,
            cloned::<T>(self.value, res.value),
    {
        StoredComponent { kind: self.kind, value: self.value.clone() }
    }
}

/// One entity as the contracts see it: its id and its components, in order.
pub type EntityView<T> = (Seq<char>, Seq<StoredComponent<T>>);

// ------------------------------------------------------------ spec model ----

/// `comps` holds a component of kind `k`.
pub open spec fn has_kind<T>(comps: Seq<StoredComponent<T>>, k: ComponentKind) -> bool {
    exists|i: int| 0 <= i < comps.len() && (#[trigger] comps[i]).kind == k
}

/// No two components in `comps` share a kind.
pub open spec fn kinds_distinct<T>(comps: Seq<StoredComponent<T>>) -> bool {
    forall|i: int, j: int|
        0 <= i < comps.len() && 0 <= j < comps.len() && i != j ==> (#[trigger] comps[i]).kind
            != (#[trigger] comps[j]).kind
}

/// The position of the component of kind `k` (meaningful when `has_kind`).
pub open spec fn kind_index<T>(comps: Seq<StoredComponent<T>>, k: ComponentKind) -> int {
    choose|i: int| 0 <= i < comps.len() && (#[trigger] comps[i]).kind == k
}

/// The payload of the component of kind `k`, if there is one.
pub open spec fn value_of_kind<T>(comps: Seq<StoredComponent<T>>, k: ComponentKind) -> Option<T> {
    if has_kind(comps, k) {
        Some(comps[kind_index(comps, k)].value)
    } else {
        None
    }
}

/// `comps` with its component of kind `k` taken out, if there is one.
pub open spec fn without_kind<T>(comps: Seq<StoredComponent<T>>, k: ComponentKind) -> Seq<
    StoredComponent<T>,
> {
    if has_kind(comps, k) {
        comps.remove(kind_index(comps, k))
    } else {
        comps
    }
}

/// No two entities share an id.
pub open spec fn ids_distinct<T>(v: Seq<EntityView<T>>) -> bool {
    forall|i: int, j: int|
        0 <= i < v.len() && 0 <= j < v.len() && i != j ==> (#[trigger] v[i]).0 != (#[trigger] v[j]).0
}

/// The store's invariant: ids are unique, and so is each entity's kinds.
pub open spec fn well_formed<T>(v: Seq<EntityView<T>>) -> bool {
    &&& ids_distinct(v)
    &&& forall|i: int| 0 <= i < v.len() ==> kinds_distinct(#[trigger] v[i].1)
}

pub open spec fn contains_entity<T>(v: Seq<EntityView<T>>, id: Seq<char>) -> bool {
    exists|i: int| 0 <= i < v.len() && (#[trigger] v[i]).0 == id
}

pub open spec fn entity_index<T>(v: Seq<EntityView<T>>, id: Seq<char>) -> int {
    choose|i: int| 0 <= i < v.len() && (#[trigger] v[i]).0 == id
}

/// The components of entity `id`, if it exists.
pub open spec fn components_of<T>(v: Seq<EntityView<T>>, id: Seq<char>) -> Option<
    Seq<StoredComponent<T>>,
> {
    if contains_entity(v, id) {
        Some(v[entity_index(v, id)].1)
    } else {
        None
    }
}

/// The payload of entity `id`'s component of kind `k`, if both exist.
pub open spec fn lookup<T>(v: Seq<EntityView<T>>, id: Seq<char>, k: ComponentKind) -> Option<T> {
    match components_of(v, id) {
        Some(comps) => value_of_kind(comps, k),
        None => None,
    }
}

/// `v` with entity `id` given the components `comps`: replaced where `id`
/// exists, appended where it does not.
pub open spec fn upsert<T>(
    v: Seq<EntityView<T>>,
    id: Seq<char>,
    comps: Seq<StoredComponent<T>>,
) -> Seq<EntityView<T>> {
    if contains_entity(v, id) {
        v.update(entity_index(v, id), (id, comps))
    } else {
        v.push((id, comps))
    }
}

/// `v` after inserting `c` into entity `id`: the entity's component of the
/// same kind goes, and `c` is appended. An unknown entity is left out.
pub open spec fn inserted<T>(v: Seq<EntityView<T>>, id: Seq<char>, c: StoredComponent<T>) -> Seq<
    EntityView<T>,
> {
    if contains_entity(v, id) {
        let i = entity_index(v, id);
        v.update(i, (id, without_kind(v[i].1, c.kind).push(c)))
    } else {
        v
    }
}

/// `v` without entity `id`.
pub open spec fn deleted<T>(v: Seq<EntityView<T>>, id: Seq<char>) -> Seq<EntityView<T>> {
    if contains_entity(v, id) {
        v.remove(entity_index(v, id))
    } else {
        v
    }
}

/// The entities that hold a component of kind `k`, in store order, each with
/// that component's payload.
pub open spec fn query_one<T>(v: Seq<EntityView<T>>, k: ComponentKind) -> Seq<(Seq<char>, T)>
    decreases v.len(),
{
    if v.len() == 0 {
        Seq::empty()
    } else {
        let rest = query_one(v.drop_last(), k);
        let e = v.last();
        if has_kind(e.1, k) {
            rest.push((e.0, value_of_kind(e.1, k).unwrap()))
        } else {
            rest
        }
    }
}

/// The ids of the entities that hold a component of kind `k`, in store order.
pub open spec fn query_ids<T>(v: Seq<EntityView<T>>, k: ComponentKind) -> Seq<Seq<char>>
    decreases v.len(),
{
    if v.len() == 0 {
        Seq::empty()
    } else {
        let rest = query_ids(v.drop_last(), k);
        if has_kind(v.last().1, k) {
            rest.push(v.last().0)
        } else {
            rest
        }
    }
}

/// `res` holds, pair by pair, the ids of `expected` and copies of its payloads.
pub open spec fn copies_of<T: Clone>(res: Seq<(EntityId, T)>, expected: Seq<(Seq<char>, T)>) -> bool {
    &&& res.len() == expected.len()
    &&& forall|j: int|
        0 <= j < res.len() ==> (#[trigger] res[j]).0@ == expected[j].0 && cloned::<T>(
            expected[j].1,
            res[j].1,
        )
}

/// `res` holds copies of `expected`, component by component.
pub open spec fn components_copied<T: Clone>(
    expected: Seq<StoredComponent<T>>,
    res: Seq<StoredComponent<T>>,
) -> bool {
    &&& res.len() == expected.len()
    &&& forall|j: int|
        0 <= j < res.len() ==> (#[trigger] res[j]).kind == expected[j].kind && cloned::<T>(
            expected[j].value,
            res[j].value,
        )
}

/// The entities that hold components of the distinct kinds `k1` and `k2`,
/// in store order, with those payloads. Asking for one kind twice matches
/// no entity, since an entity holds one component of each kind.
pub open spec fn query_two<T>(v: Seq<EntityView<T>>, k1: ComponentKind, k2: ComponentKind) -> Seq<
    (Seq<char>, T, T),
>
    decreases v.len(),
{
    if v.len() == 0 {
        Seq::empty()
    } else {
        let rest = query_two(v.drop_last(), k1, k2);
        let e = v.last();
        if has_kind(e.1, k1) && has_kind(e.1, k2) && k1 != k2 {
            rest.push((e.0, value_of_kind(e.1, k1).unwrap(), value_of_kind(e.1, k2).unwrap()))
        } else {
            rest
        }
    }
}

/// The entities that hold components of the pairwise distinct kinds `k1`,
/// `k2` and `k3`, in store order, with those payloads.
pub open spec fn query_three<T>(
    v: Seq<EntityView<T>>,
    k1: ComponentKind,
    k2: ComponentKind,
    k3: ComponentKind,
) -> Seq<(Seq<char>, T, T, T)>
    decreases v.len(),
{
    if v.len() == 0 {
        Seq::empty()
    } else {
        let rest = query_three(v.drop_last(), k1, k2, k3);
        let e = v.last();
        if has_kind(e.1, k1) && has_kind(e.1, k2) && has_kind(e.1, k3) && k1 != k2 && k1 != k3
            && k2 != k3 {
            rest.push(
                (
                    e.0,
                    value_of_kind(e.1, k1).unwrap(),
                    value_of_kind(e.1, k2).unwrap(),
                    value_of_kind(e.1, k3).unwrap(),
                ),
            )
        } else {
            rest
        }
    }
}

/// `res` holds, triple by triple, the ids of `expected` and copies of its
/// payloads.
pub open spec fn copies_of2<T: Clone>(res: Seq<(EntityId, T, T)>, expected: Seq<(Seq<char>, T, T)>) -> bool {
    &&& res.len() == expected.len()
    &&& forall|j: int|
        0 <= j < res.len() ==> (#[trigger] res[j]).0@ == expected[j].0 && cloned::<T>(
            expected[j].1,
            res[j].1,
        ) && cloned::<T>(expected[j].2, res[j].2)
}

/// `res` holds, entry by entry, the ids of `expected` and copies of its
/// payloads.
pub open spec fn copies_of3<T: Clone>(
    res: Seq<(EntityId, T, T, T)>,
    expected: Seq<(Seq<char>, T, T, T)>,
) -> bool {
    &&& res.len() == expected.len()
    &&& forall|j: int|
        0 <= j < res.len() ==> (#[trigger] res[j]).0@ == expected[j].0 && cloned::<T>(
            expected[j].1,
            res[j].1,
        ) && cloned::<T>(expected[j].2, res[j].2) && cloned::<T>(expected[j].3, res[j].3)
}

/// `v` with the payload of entity `id`'s component of kind `k` set to `value`,
/// in place.
pub open spec fn with_value<T>(v: Seq<EntityView<T>>, id: Seq<char>, k: ComponentKind, value: T) -> Seq<
    EntityView<T>,
> {
    let i = entity_index(v, id);
    let comps = v[i].1;
    v.update(i, (id, comps.update(kind_index(comps, k), StoredComponent { kind: k, value })))
}

/// The first component of each kind in `comps`, in order: a component whose
/// kind occurs earlier in `comps` is left out.
pub open spec fn first_of_each_kind<T>(comps: Seq<StoredComponent<T>>) -> Seq<StoredComponent<T>>
    decreases comps.len(),
{
    if comps.len() == 0 {
        Seq::empty()
    } else {
        let front = first_of_each_kind(comps.drop_last());
        if has_kind(front, comps.last().kind) {
            front
        } else {
            front.push(comps.last())
        }
    }
}

/// `v` with entity `id` set to hold the first component of each kind in
/// `comps`, added where it is missing.
pub open spec fn restored<T>(
    v: Seq<EntityView<T>>,
    id: Seq<char>,
    comps: Seq<StoredComponent<T>>,
) -> Seq<EntityView<T>> {
    upsert(v, id, first_of_each_kind(comps))
}

/// The ids and components of `entries`, as the contracts see them.
pub open spec fn entries_view<T>(entries: Seq<(EntityId, Vec<StoredComponent<T>>)>) -> Seq<
    (Seq<char>, Seq<StoredComponent<T>>),
> {
    entries.map_values(|e: (EntityId, Vec<StoredComponent<T>>)| (e.0@, e.1@))
}

/// The store made from `entries`, restored one after the other into an
/// empty store.
pub open spec fn loaded<T>(entries: Seq<(Seq<char>, Seq<StoredComponent<T>>)>) -> Seq<EntityView<T>>
    decreases entries.len(),
{
    if entries.len() == 0 {
        Seq::empty()
    } else {
        restored(loaded(entries.drop_last()), entries.last().0, entries.last().1)
    }
}

// ------------------------------------------------------------------ store ----

struct EntityRecord<T> {
    id: EntityId,
    components: Vec<StoredComponent<T>>,
}

/// The map from entity ids to their components.
pub struct ComponentMap<T> {
    entities: Vec<EntityRecord<T>>,
}

impl<T> View for ComponentMap<T> {
    type V = Seq<EntityView<T>>;

    closed spec fn view(&self) -> Seq<EntityView<T>> {
        self.entities@.map_values(|e: EntityRecord<T>| (e.id@, e.components@))
    }
}

impl<T> ComponentMap<T> {
    /// The store's invariant holds.
    pub open spec fn wf(&self) -> bool {
        well_formed(self@)
    }

    /// An empty store.
    pub fn new() -> (res: Self)
        ensures
            res@ == Seq::<EntityView<T>>::empty(),
            res.wf(),
    {
        let res = ComponentMap { entities: Vec::new() };
        assert(res@ =~= Seq::<EntityView<T>>::empty());
        res
    }

    /// The position of entity `id`, if it exists.
    fn find_entity(&self, id: &EntityId) -> (res: Option<usize>)
        requires
            self.wf(),
        ensures
            match res {
                Some(i) => i < self@.len() && self@[i as int].0 == id@ && entity_index(self@, id@)
                    == i && contains_entity(self@, id@),
                None => !contains_entity(self@, id@),
            },
    {
        let n = self.entities.len();
        let mut i: usize = 0;
        while i < n
            invariant
                self.wf(),
                n == self.entities@.len(),
                n == self@.len(),
                i <= n,
                forall|j: int| 0 <= j < i ==> (#[trigger] self@[j]).0 != id@,
            decreases n - i,
        {
            if self.entities[i].id == *id {
                assert(self@[i as int].0 == id@);
                proof {
                    let k = entity_index(self@, id@);
                    assert(0 <= k < self@.len() && self@[k].0 == id@);
                    assert(k == i as int);
                }
                return Some(i);
            }
            i = i + 1;
        }
        None
    }
}

/// The position of the component of kind `k` in `comps`, if there is one.
fn find_kind<T>(comps: &Vec<StoredComponent<T>>, k: ComponentKind) -> (res: Option<usize>)
    requires
        kinds_distinct(comps@),
    ensures
        match res {
            Some(j) => j < comps@.len() && comps@[j as int].kind == k && kind_index(comps@, k)
                == j && has_kind(comps@, k),
            None => !has_kind(comps@, k),
        },
{
    let n = comps.len();
    let mut j: usize = 0;
    while j < n
        invariant
            kinds_distinct(comps@),
            n == comps@.len(),
            j <= n,
            forall|m: int| 0 <= m < j ==> (#[trigger] comps@[m]).kind != k,
        decreases n - j,
    {
        if comps[j].kind == k {
            proof {
                let m = kind_index(comps@, k);
                assert(0 <= m < comps@.len() && comps@[m].kind == k);
                assert(m == j as int);
            }
            return Some(j);
        }
        j = j + 1;
    }
    None
}


impl<T> ComponentMap<T> {
    /// Gives entity `id` the components `comps`, replacing its components
    /// where it exists and appending it where it does not.
    fn upsert_entity(&mut self, id: EntityId, comps: Vec<StoredComponent<T>>)
        requires
            old(self).wf(),
            kinds_distinct(comps@),
        ensures
            final(self).wf(),
            final(self)@ == upsert(old(self)@, id@, comps@),
    {
        let ghost old_v = self@;
        match self.find_entity(&id) {
            Some(i) => {
                self.entities[i].components = comps;
                assert(self@ =~= old_v.update(i as int, (id@, comps@)));
            },
            None => {
                let ghost cv = comps@;
                self.entities.push(EntityRecord { id, components: comps });
                assert(self@ =~= old_v.push((id@, cv)));
            },
        }
    }
}

/// A lowercase hexadecimal digit.
pub open spec fn is_lower_hex(c: char) -> bool {
    ('0' <= c && c <= '9') || ('a' <= c && c <= 'f')
}

/// The text of a version 4 UUID: 36 characters, lowercase hexadecimal
/// digits in groups of 8, 4, 4, 4 and 12 joined by '-', with the version
/// digit '4' and a variant digit of 8, 9, a or b.
pub open spec fn is_uuid_v4_text(s: Seq<char>) -> bool {
    &&& s.len() == 36
    &&& forall|i: int|
        0 <= i < 36 ==> (if i == 8 || i == 13 || i == 18 || i == 23 {
            #[trigger] s[i] == '-'
        } else {
            is_lower_hex(s[i])
        })
    &&& s[14] == '4'
    &&& (s[19] == '8' || s[19] == '9' || s[19] == 'a' || s[19] == 'b')
}

/// A fresh entity id: the hyphenated text of a random (version 4) UUID.
///
/// Calls `uuid::Uuid::new_v4`, which fixes the version and variant bits of
/// random bits, and formats the result with `to_string`, which writes the
/// lowercase hyphenated form. Which UUID comes out is random and is not
/// stated; only the shape of its text is.
#[verifier::external_body]
fn new_entity_id() -> (id: EntityId)
    ensures
        is_uuid_v4_text(id@),
{
    Uuid::new_v4().to_string()
}

/// Spawns a new entity with no components and returns its id.
///
/// The id is a fresh random UUID; should it equal an existing id, that
/// entity's components are reset to none, as a map insert would do.
pub fn spawn<T>(map: &mut ComponentMap<T>) -> (id: EntityId)
    requires
        old(map).wf(),
    ensures
        final(map).wf(),
        final(map)@ == upsert(old(map)@, id@, Seq::empty()),
        is_uuid_v4_text(id@),
{
    let id = new_entity_id();
    let comps: Vec<StoredComponent<T>> = Vec::new();
    assert(comps@ =~= Seq::<StoredComponent<T>>::empty());
    map.upsert_entity(id.clone(), comps);
    id
}

/// Inserts a component of kind `kind` into entity `entity_id`, replacing
/// the entity's component of that kind if it has one. An unknown entity is
/// left alone.
pub fn insert<T>(map: &mut ComponentMap<T>, entity_id: &EntityId, kind: ComponentKind, component: T)
    requires
        old(map).wf(),
    ensures
        final(map).wf(),
        final(map)@ == inserted(old(map)@, entity_id@, StoredComponent { kind, value: component }),
{
    let ghost old_v = map@;
    match map.find_entity(entity_id) {
        Some(i) => {
            let ghost old_comps = old_v[i as int].1;
            if let Some(j) = find_kind(&map.entities[i].components, kind) {
                map.entities[i].components.remove(j);
            }
            assert(map.entities@[i as int].components@ =~= without_kind(old_comps, kind));
            map.entities[i].components.push(StoredComponent { kind, value: component });
            let ghost c = StoredComponent { kind, value: component };
            assert(map@ =~= old_v.update(i as int, (entity_id@, without_kind(old_comps, kind).push(c))));
            proof {
                let nc = map@[i as int].1;
                assert forall|a: int, b: int|
                    0 <= a < nc.len() && 0 <= b < nc.len() && a != b implies (#[trigger] nc[a]).kind
                    != (#[trigger] nc[b]).kind by {
                    lemma_without_kind(old_comps, kind);
                }
            }
        },
        None => {},
    }
}

/// Facts about `without_kind` on a list with distinct kinds.
pub proof fn lemma_without_kind<T>(comps: Seq<StoredComponent<T>>, k: ComponentKind)
    requires
        kinds_distinct(comps),
    ensures
        kinds_distinct(without_kind(comps, k)),
        !has_kind(without_kind(comps, k), k),
        forall|m: int|
            0 <= m < without_kind(comps, k).len() ==> #[trigger] without_kind(comps, k)[m].kind != k,
{
    let w = without_kind(comps, k);
    if has_kind(comps, k) {
        let ki = kind_index(comps, k);
        assert forall|m: int| 0 <= m < w.len() implies #[trigger] w[m].kind != k by {
            if m < ki {
                assert(w[m] == comps[m]);
            } else {
                assert(w[m] == comps[m + 1]);
            }
        }
        assert forall|a: int, b: int|
            0 <= a < w.len() && 0 <= b < w.len() && a != b implies (#[trigger] w[a]).kind != (
            #[trigger] w[b]).kind by {
            let oa = if a < ki { a } else { a + 1 };
            let ob = if b < ki { b } else { b + 1 };
            assert(w[a] == comps[oa]);
            assert(w[b] == comps[ob]);
        }
    }
}

/// A copy of the payload of entity `entity_id`'s component of kind `kind`,
/// or `None` where the entity or such a component is missing.
pub fn get_component<T: Clone>(map: &ComponentMap<T>, entity_id: &EntityId, kind: ComponentKind) -> (res: Option<T>)
    requires
        map.wf(),
    ensures
        res is Some <==> lookup(map@, entity_id@, kind) is Some,
        res is Some ==> cloned::<T>(lookup(map@, entity_id@, kind).unwrap(), res.unwrap()),
{
    match map.find_entity(entity_id) {
        Some(i) => {
            match find_kind(&map.entities[i].components, kind) {
                Some(j) => Some(map.entities[i].components[j].value.clone()),
                None => None,
            }
        },
        None => None,
    }
}

/// Deletes entity `entity_id` and its components; true where it existed.
pub fn delete_entity<T>(map: &mut ComponentMap<T>, entity_id: &EntityId) -> (res: bool)
    requires
        old(map).wf(),
    ensures
        final(map).wf(),
        res == contains_entity(old(map)@, entity_id@),
        final(map)@ == deleted(old(map)@, entity_id@),
{
    let ghost old_v = map@;
    match map.find_entity(entity_id) {
        Some(i) => {
            map.entities.remove(i);
            assert(map@ =~= old_v.remove(i as int));
            proof {
                let v = map@;
                assert forall|a: int, b: int|
                    0 <= a < v.len() && 0 <= b < v.len() && a != b implies (#[trigger] v[a]).0 != (
                    #[trigger] v[b]).0 by {
                    let oa = if a < i { a } else { a + 1 };
                    let ob = if b < i { b } else { b + 1 };
                    assert(v[a] == old_v[oa]);
                    assert(v[b] == old_v[ob]);
                }
                assert forall|a: int| 0 <= a < v.len() implies kinds_distinct(#[trigger] v[a].1) by {
                    let oa = if a < i { a } else { a + 1 };
                    assert(v[a] == old_v[oa]);
                }
            }
            true
        },
        None => false,
    }
}

/// Removes every entity.
pub fn clear_world<T>(map: &mut ComponentMap<T>)
    requires
        old(map).wf(),
    ensures
        final(map).wf(),
        final(map)@ == Seq::<EntityView<T>>::empty(),
{
    map.entities.clear();
    assert(map@ =~= Seq::<EntityView<T>>::empty());
}


/// Every entity that holds a component of kind `kind`, with a copy of that
/// component, in store order. Each entity appears at most once.
pub fn query_all<T: Clone>(map: &ComponentMap<T>, kind: ComponentKind) -> (res: Vec<(EntityId, T)>)
    requires
        map.wf(),
    ensures
        copies_of(res@, query_one(map@, kind)),
{
    let ghost v = map@;
    let n = map.entities.len();
    let mut res: Vec<(EntityId, T)> = Vec::new();
    for i in 0..n
        invariant
            map.wf(),
            v == map@,
            n == v.len(),
            copies_of(res@, query_one(v.take(i as int), kind)),
    {
        assert(v.take(i + 1).drop_last() =~= v.take(i as int));
        let e = &map.entities[i];
        assert(kinds_distinct(map@[i as int].1));
        if let Some(j) = find_kind(&e.components, kind) {
            res.push((e.id.clone(), e.components[j].value.clone()));
        }
    }
    assert(v.take(n as int) =~= v);
    res
}

/// The ids of every entity that holds a component of kind `kind`, in store
/// order.
pub fn query_get_all_ids<T>(map: &ComponentMap<T>, kind: ComponentKind) -> (res: Vec<EntityId>)
    requires
        map.wf(),
    ensures
        res@.map_values(|id: EntityId| id@) == query_ids(map@, kind),
{
    let ghost v = map@;
    let n = map.entities.len();
    let mut res: Vec<EntityId> = Vec::new();
    for i in 0..n
        invariant
            map.wf(),
            v == map@,
            n == v.len(),
            res@.map_values(|id: EntityId| id@) == query_ids(v.take(i as int), kind),
    {
        assert(v.take(i + 1).drop_last() =~= v.take(i as int));
        let e = &map.entities[i];
        assert(kinds_distinct(map@[i as int].1));
        if let Some(_j) = find_kind(&e.components, kind) {
            let ghost before = res@;
            res.push(e.id.clone());
            assert(res@.map_values(|id: EntityId| id@) =~= before.map_values(|id: EntityId| id@).push(
                v[i as int].0,
            ));
        }
    }
    assert(v.take(n as int) =~= v);
    res
}

/// Every entity's id with its number of components, in store order.
pub fn get_all_entities<T>(map: &ComponentMap<T>) -> (res: Vec<(EntityId, usize)>)
    requires
        map.wf(),
    ensures
        res@.len() == map@.len(),
        forall|j: int|
            0 <= j < res@.len() ==> (#[trigger] res@[j]).0@ == map@[j].0 && res@[j].1
                == map@[j].1.len(),
{
    let n = map.entities.len();
    let mut res: Vec<(EntityId, usize)> = Vec::new();
    for i in 0..n
        invariant
            n == map@.len(),
            res@.len() == i,
            forall|j: int|
                0 <= j < i ==> (#[trigger] res@[j]).0@ == map@[j].0 && res@[j].1 == map@[j].1.len(),
    {
        let e = &map.entities[i];
        res.push((e.id.clone(), e.components.len()));
    }
    res
}

/// A copy of every component of entity `entity_id`; none where it is
/// missing.
pub fn get_all_components<T: Clone>(map: &ComponentMap<T>, entity_id: &EntityId) -> (res: Vec<
    StoredComponent<T>,
>)
    requires
        map.wf(),
    ensures
        match components_of(map@, entity_id@) {
            Some(comps) => components_copied(comps, res@),
            None => res@.len() == 0,
        },
{
    match map.find_entity(entity_id) {
        Some(i) => map.entities[i].components.clone(),
        None => Vec::new(),
    }
}


/// Whether `comps[..j + 1]` holds kind `k`, from whether `comps[..j]` does.
proof fn lemma_has_kind_step<T>(comps: Seq<StoredComponent<T>>, j: int, k: ComponentKind)
    requires
        0 <= j < comps.len(),
        kinds_distinct(comps),
    ensures
        has_kind(comps.take(j + 1), k) <==> (has_kind(comps.take(j), k) || comps[j].kind == k),
        comps[j].kind == k ==> has_kind(comps, k) && kind_index(comps, k) == j,
        has_kind(comps.take(j), k) ==> comps[j].kind != k,
{
    let a = comps.take(j + 1);
    let b = comps.take(j);
    if has_kind(a, k) {
        let w = choose|i: int| 0 <= i < a.len() && (#[trigger] a[i]).kind == k;
        if w < j {
            assert(b[w].kind == k);
        }
    }
    if has_kind(b, k) {
        let w = choose|i: int| 0 <= i < b.len() && (#[trigger] b[i]).kind == k;
        assert(a[w].kind == k);
        assert(comps[w].kind == k);
    }
    if comps[j].kind == k {
        assert(a[j].kind == k);
        assert(comps[j].kind == k);
        let m = kind_index(comps, k);
        assert(comps[m].kind == k);
    }
}

/// The payloads of the components of kinds `k1` and `k2` in `comps`, picked
/// in one pass: a component goes to the first slot that is still empty and
/// asks for its kind.
fn pick_two<T: Clone>(comps: &Vec<StoredComponent<T>>, k1: ComponentKind, k2: ComponentKind) -> (res: (
    Option<T>,
    Option<T>,
))
    requires
        kinds_distinct(comps@),
    ensures
        res.0 is Some <==> has_kind(comps@, k1),
        res.0 is Some ==> cloned::<T>(value_of_kind(comps@, k1).unwrap(), res.0.unwrap()),
        res.1 is Some <==> has_kind(comps@, k2) && k1 != k2,
        res.1 is Some ==> cloned::<T>(value_of_kind(comps@, k2).unwrap(), res.1.unwrap()),
{
    let ghost cs = comps@;
    let m = comps.len();
    let mut comp1: Option<T> = None;
    let mut comp2: Option<T> = None;
    for j in 0..m
        invariant
            cs == comps@,
            m == cs.len(),
            kinds_distinct(cs),
            comp1 is Some <==> has_kind(cs.take(j as int), k1),
            comp1 is Some ==> cloned::<T>(value_of_kind(cs, k1).unwrap(), comp1.unwrap()),
            comp2 is Some <==> has_kind(cs.take(j as int), k2) && k1 != k2,
            comp2 is Some ==> cloned::<T>(value_of_kind(cs, k2).unwrap(), comp2.unwrap()),
    {
        proof {
            lemma_has_kind_step(cs, j as int, k1);
            lemma_has_kind_step(cs, j as int, k2);
        }
        let c = &comps[j];
        if comp1.is_none() && c.kind == k1 {
            comp1 = Some(c.value.clone());
        } else if comp2.is_none() && c.kind == k2 {
            comp2 = Some(c.value.clone());
        }
    }
    assert(cs.take(m as int) =~= cs);
    (comp1, comp2)
}

/// As `pick_two`, for three kinds.
fn pick_three<T: Clone>(
    comps: &Vec<StoredComponent<T>>,
    k1: ComponentKind,
    k2: ComponentKind,
    k3: ComponentKind,
) -> (res: (Option<T>, Option<T>, Option<T>))
    requires
        kinds_distinct(comps@),
    ensures
        res.0 is Some <==> has_kind(comps@, k1),
        res.0 is Some ==> cloned::<T>(value_of_kind(comps@, k1).unwrap(), res.0.unwrap()),
        res.1 is Some <==> has_kind(comps@, k2) && k1 != k2,
        res.1 is Some ==> cloned::<T>(value_of_kind(comps@, k2).unwrap(), res.1.unwrap()),
        res.2 is Some <==> has_kind(comps@, k3) && k1 != k3 && k2 != k3,
        res.2 is Some ==> cloned::<T>(value_of_kind(comps@, k3).unwrap(), res.2.unwrap()),
{
    let ghost cs = comps@;
    let m = comps.len();
    let mut comp1: Option<T> = None;
    let mut comp2: Option<T> = None;
    let mut comp3: Option<T> = None;
    for j in 0..m
        invariant
            cs == comps@,
            m == cs.len(),
            kinds_distinct(cs),
            comp1 is Some <==> has_kind(cs.take(j as int), k1),
            comp1 is Some ==> cloned::<T>(value_of_kind(cs, k1).unwrap(), comp1.unwrap()),
            comp2 is Some <==> has_kind(cs.take(j as int), k2) && k1 != k2,
            comp2 is Some ==> cloned::<T>(value_of_kind(cs, k2).unwrap(), comp2.unwrap()),
            comp3 is Some <==> has_kind(cs.take(j as int), k3) && k1 != k3 && k2 != k3,
            comp3 is Some ==> cloned::<T>(value_of_kind(cs, k3).unwrap(), comp3.unwrap()),
    {
        proof {
            lemma_has_kind_step(cs, j as int, k1);
            lemma_has_kind_step(cs, j as int, k2);
            lemma_has_kind_step(cs, j as int, k3);
        }
        let c = &comps[j];
        if comp1.is_none() && c.kind == k1 {
            comp1 = Some(c.value.clone());
        } else if comp2.is_none() && c.kind == k2 {
            comp2 = Some(c.value.clone());
        } else if comp3.is_none() && c.kind == k3 {
            comp3 = Some(c.value.clone());
        }
    }
    assert(cs.take(m as int) =~= cs);
    (comp1, comp2, comp3)
}

/// Every entity that holds components of both kinds, with copies of them,
/// in store order.
pub fn query_all2<T: Clone>(map: &ComponentMap<T>, kind1: ComponentKind, kind2: ComponentKind) -> (res: Vec<
    (EntityId, T, T),
>)
    requires
        map.wf(),
    ensures
        copies_of2(res@, query_two(map@, kind1, kind2)),
{
    let ghost v = map@;
    let n = map.entities.len();
    let mut res: Vec<(EntityId, T, T)> = Vec::new();
    for i in 0..n
        invariant
            map.wf(),
            v == map@,
            n == v.len(),
            copies_of2(res@, query_two(v.take(i as int), kind1, kind2)),
    {
        assert(v.take(i + 1).drop_last() =~= v.take(i as int));
        let e = &map.entities[i];
        assert(kinds_distinct(map@[i as int].1));
        let (c1, c2) = pick_two(&e.components, kind1, kind2);
        if let (Some(a), Some(b)) = (c1, c2) {
            res.push((e.id.clone(), a, b));
        }
    }
    assert(v.take(n as int) =~= v);
    res
}

/// Every entity that holds components of all three kinds, with copies of
/// them, in store order.
pub fn query_all3<T: Clone>(
    map: &ComponentMap<T>,
    kind1: ComponentKind,
    kind2: ComponentKind,
    kind3: ComponentKind,
) -> (res: Vec<(EntityId, T, T, T)>)
    requires
        map.wf(),
    ensures
        copies_of3(res@, query_three(map@, kind1, kind2, kind3)),
{
    let ghost v = map@;
    let n = map.entities.len();
    let mut res: Vec<(EntityId, T, T, T)> = Vec::new();
    for i in 0..n
        invariant
            map.wf(),
            v == map@,
            n == v.len(),
            copies_of3(res@, query_three(v.take(i as int), kind1, kind2, kind3)),
    {
        assert(v.take(i + 1).drop_last() =~= v.take(i as int));
        let e = &map.entities[i];
        assert(kinds_distinct(map@[i as int].1));
        let (c1, c2, c3) = pick_three(&e.components, kind1, kind2, kind3);
        if let (Some(a), Some(b), Some(c)) = (c1, c2, c3) {
            res.push((e.id.clone(), a, b, c));
        }
    }
    assert(v.take(n as int) =~= v);
    res
}

/// Copies entity `source_entity_id` with all its components to a new entity
/// with a fresh id, and returns that id; `None` where the source is missing.
pub fn copy_entity<T: Clone>(map: &mut ComponentMap<T>, source_entity_id: &EntityId) -> (res: Option<
    EntityId,
>)
    requires
        old(map).wf(),
    ensures
        final(map).wf(),
        res is None <==> !contains_entity(old(map)@, source_entity_id@),
        res is None ==> final(map)@ == old(map)@,
        res matches Some(id) ==> is_uuid_v4_text(id@),
        res matches Some(id) ==> exists|comps: Seq<StoredComponent<T>>|
            #[trigger] components_copied(
                components_of(old(map)@, source_entity_id@).unwrap(),
                comps,
            ) && final(map)@ == upsert(old(map)@, id@, comps),
{
    match map.find_entity(source_entity_id) {
        Some(i) => {
            let comps = map.entities[i].components.clone();
            let ghost src = map@[i as int].1;
            assert(kinds_distinct(src));
            assert(components_copied(src, comps@));
            let new_id = new_entity_id();
            let ghost cv = comps@;
            let ghost old_v = map@;
            map.upsert_entity(new_id.clone(), comps);
            assert(components_of(old_v, source_entity_id@).unwrap() == src);
            assert(components_copied(components_of(old_v, source_entity_id@).unwrap(), cv));
            Some(new_id)
        },
        None => None,
    }
}

/// Applies `f` to a copy of entity `entity_id`'s component of kind `kind`,
/// stores the changed copy in its place, and returns what `f` returned;
/// `None`, with nothing changed, where the entity or such a component is
/// missing.
pub fn get_component_mut<T: Clone, F: FnOnce(&mut T) -> R, R>(
    map: &mut ComponentMap<T>,
    entity_id: &EntityId,
    kind: ComponentKind,
    f: F,
) -> (res: Option<R>)
    requires
        old(map).wf(),
        forall|m: &mut T| call_requires(f, (m,)),
    ensures
        final(map).wf(),
        res is Some <==> lookup(old(map)@, entity_id@, kind) is Some,
        res is None ==> final(map)@ == old(map)@,
        res matches Some(r) ==> exists|m: &mut T|
            call_ensures(f, (m,), r) && cloned::<T>(
                lookup(old(map)@, entity_id@, kind).unwrap(),
                *m,
            ) && final(map)@ == with_value(old(map)@, entity_id@, kind, *final(m)),
{
    let ghost old_v = map@;
    match map.find_entity(entity_id) {
        Some(i) => {
            match find_kind(&map.entities[i].components, kind) {
                Some(j) => {
                    let mut typed = map.entities[i].components[j].value.clone();
                    let r = f(&mut typed);
                    map.entities[i].components.set(j, StoredComponent { kind, value: typed });
                    let ghost comps = old_v[i as int].1;
                    assert(map@ =~= with_value(old_v, entity_id@, kind, typed));
                    proof {
                        let nc = map@[i as int].1;
                        assert forall|a: int, b: int|
                            0 <= a < nc.len() && 0 <= b < nc.len() && a != b implies (
                            #[trigger] nc[a]).kind != (#[trigger] nc[b]).kind by {
                            assert(nc[a].kind == comps[a].kind);
                            assert(nc[b].kind == comps[b].kind);
                        }
                    }
                    Some(r)
                },
                None => None,
            }
        },
        None => None,
    }
}


/// Sets entity `entity_id` to hold `components`, added where it is missing.
/// Of two components of one kind the first one is kept, the one a read
/// finds first.
pub fn restore_entity<T>(
    map: &mut ComponentMap<T>,
    entity_id: EntityId,
    components: Vec<StoredComponent<T>>,
)
    requires
        old(map).wf(),
    ensures
        final(map).wf(),
        final(map)@ == restored(old(map)@, entity_id@, components@),
{
    let ghost comps = components@;
    let n = components.len();
    let mut remaining = components;
    let mut kept: Vec<StoredComponent<T>> = Vec::new();
    let mut i: usize = 0;
    assert(comps.take(0) =~= Seq::<StoredComponent<T>>::empty());
    assert(remaining@ =~= comps.skip(0));
    while remaining.len() > 0
        invariant
            n == comps.len(),
            i <= n,
            remaining@ == comps.skip(i as int),
            kept@ == first_of_each_kind(comps.take(i as int)),
            kinds_distinct(kept@),
        decreases remaining@.len(),
    {
        let c = remaining.remove(0);
        assert(c == comps[i as int]);
        let ghost t = comps.take(i + 1);
        assert(t.drop_last() =~= comps.take(i as int));
        assert(t.last() == c);
        if find_kind(&kept, c.kind).is_none() {
            let ghost before = kept@;
            kept.push(c);
            assert forall|a: int, b: int|
                0 <= a < kept@.len() && 0 <= b < kept@.len() && a != b implies (
                #[trigger] kept@[a]).kind != (#[trigger] kept@[b]).kind by {
                if a < before.len() && b < before.len() {
                    assert(kept@[a] == before[a] && kept@[b] == before[b]);
                } else if a < before.len() {
                    assert(kept@[a] == before[a]);
                } else if b < before.len() {
                    assert(kept@[b] == before[b]);
                }
            }
        }
        assert(remaining@ =~= comps.skip(i + 1));
        i = i + 1;
    }
    assert(comps.take(i as int) =~= comps);
    map.upsert_entity(entity_id, kept);
}

/// Replaces the whole store with the entities of `entries`, restored one
/// after the other into an empty store.
pub fn load_entities<T>(
    map: &mut ComponentMap<T>,
    entries: Vec<(EntityId, Vec<StoredComponent<T>>)>,
)
    requires
        old(map).wf(),
    ensures
        final(map).wf(),
        final(map)@ == loaded(entries_view(entries@)),
{
    let ghost es = entries_view(entries@);
    clear_world(map);
    let n = entries.len();
    let mut remaining = entries;
    let mut i: usize = 0;
    assert(es.take(0) =~= Seq::<(Seq<char>, Seq<StoredComponent<T>>)>::empty());
    assert(entries_view(remaining@) =~= es.skip(0));
    while remaining.len() > 0
        invariant
            map.wf(),
            n == es.len(),
            i <= n,
            entries_view(remaining@) == es.skip(
                i as int,
            ),
            map@ == loaded(es.take(i as int)),
        decreases remaining@.len(),
    {
        let ghost before = remaining@;
        assert(entries_view(before).len() == n - i);
        let (id, comps) = remaining.remove(0);
        assert(entries_view(before)[0] == es.skip(
            i as int,
        )[0]);
        assert(es[i as int] == (id@, comps@));
        restore_entity(map, id, comps);
        assert(es.take(i + 1).drop_last() =~= es.take(i as int));
        assert(remaining@ == before.remove(0));
        let ghost bm = entries_view(before);
        assert forall|j: int| 0 <= j < remaining@.len() implies #[trigger] entries_view(remaining@)[j] == es.skip(i + 1)[j] by {
            assert(remaining@[j] == before[j + 1]);
            assert(bm[j + 1] == es.skip(i as int)[j + 1]);
        }
        assert(entries_view(remaining@) =~= es.skip(
            i + 1,
        ));
        i = i + 1;
    }
    assert(es.take(i as int) =~= es);
}

} // verus!

//! Laws of the entity-component store, stated over the spec model that the
//! store's operations use in their contracts.
use vstd::prelude::*;
use crate::modules::ecs::{
    ComponentKind, EntityView, StoredComponent, components_copied, components_of,
    contains_entity, deleted, entity_index, has_kind, ids_distinct, inserted, kind_index,
    kinds_distinct, lemma_without_kind, lookup, query_ids, query_one, query_three, query_two, upsert,
    value_of_kind, well_formed, with_value, without_kind, first_of_each_kind, loaded, restored,
};

verus! {

/// In a well-formed store, the entity at position `i` is the one `id` names.
pub proof fn lemma_entity_at<T>(v: Seq<EntityView<T>>, i: int, id: Seq<char>)
    requires
        ids_distinct(v),
        0 <= i < v.len(),
        v[i].0 == id,
    ensures
        contains_entity(v, id),
        entity_index(v, id) == i,
        components_of(v, id) == Some(v[i].1),
{
    let k = entity_index(v, id);
    assert(0 <= k < v.len() && v[k].0 == id);
}

/// In a list with distinct kinds, the component at position `j` is the one of
/// its kind.
pub proof fn lemma_kind_at<T>(comps: Seq<StoredComponent<T>>, j: int, k: ComponentKind)
    requires
        kinds_distinct(comps),
        0 <= j < comps.len(),
        comps[j].kind == k,
    ensures
        has_kind(comps, k),
        kind_index(comps, k) == j,
        value_of_kind(comps, k) == Some(comps[j].value),
{
    let m = kind_index(comps, k);
    assert(0 <= m < comps.len() && comps[m].kind == k);
}

/// Read what was written: after a component is inserted into an existing
/// entity, looking up its kind there gives the inserted payload; inserting
/// into an unknown entity leaves it unknown.
pub proof fn law_insert_then_lookup<T>(v: Seq<EntityView<T>>, id: Seq<char>, c: StoredComponent<T>)
    requires
        well_formed(v),
    ensures
        lookup(inserted(v, id, c), id, c.kind) == if contains_entity(v, id) {
            Some(c.value)
        } else {
            None::<T>
        },
{
    if contains_entity(v, id) {
        let i = entity_index(v, id);
        let w = without_kind(v[i].1, c.kind);
        lemma_without_kind(v[i].1, c.kind);
        let nv = inserted(v, id, c);
        let nc = w.push(c);
        assert forall|a: int, b: int|
            0 <= a < nc.len() && 0 <= b < nc.len() && a != b implies (#[trigger] nc[a]).kind != (
            #[trigger] nc[b]).kind by {
            if a < w.len() {
                assert(nc[a] == w[a]);
            }
            if b < w.len() {
                assert(nc[b] == w[b]);
            }
        }
        assert(ids_distinct(nv)) by {
            assert forall|a: int, b: int|
                0 <= a < nv.len() && 0 <= b < nv.len() && a != b implies (#[trigger] nv[a]).0 != (
                #[trigger] nv[b]).0 by {
                assert(nv[a].0 == v[a].0);
                assert(nv[b].0 == v[b].0);
            }
        }
        lemma_entity_at(nv, i, id);
        lemma_kind_at(nc, w.len() as int, c.kind);
    }
}

/// Inserting a component leaves every other kind of the same entity, and
/// every kind of every other entity, as it was.
#[verifier::spinoff_prover]
#[verifier::rlimit(40)]
pub proof fn law_insert_keeps_others<T>(
    v: Seq<EntityView<T>>,
    id: Seq<char>,
    c: StoredComponent<T>,
    other_id: Seq<char>,
    k: ComponentKind,
)
    requires
        well_formed(v),
        other_id != id || k != c.kind,
    ensures
        lookup(inserted(v, id, c), other_id, k) == lookup(v, other_id, k),
{
    if contains_entity(v, id) {
        let i = entity_index(v, id);
        let nv = inserted(v, id, c);
        assert(ids_distinct(nv)) by {
            assert forall|a: int, b: int|
                0 <= a < nv.len() && 0 <= b < nv.len() && a != b implies (#[trigger] nv[a]).0 != (
                #[trigger] nv[b]).0 by {
                assert(nv[a].0 == v[a].0);
                assert(nv[b].0 == v[b].0);
            }
        }
        if contains_entity(v, other_id) {
            let oi = entity_index(v, other_id);
            lemma_entity_at(nv, oi, other_id);
            if other_id == id {
                let comps = v[i].1;
                let w = without_kind(comps, c.kind);
                lemma_without_kind(comps, c.kind);
                let nc = w.push(c);
                if has_kind(comps, k) {
                    let j = kind_index(comps, k);
                    assert(comps[j].kind == k);
                    // the component of kind k survives the removal
                    let pos = if has_kind(comps, c.kind) && kind_index(comps, c.kind) < j {
                        j - 1
                    } else {
                        j
                    };
                    if has_kind(comps, c.kind) {
                        let r = kind_index(comps, c.kind);
                        assert(comps[r].kind == c.kind);
                        assert(r != j);
                    }
                    assert(w[pos] == comps[j]);
                    assert(nc[pos] == comps[j]);
                    assert(kinds_distinct(nc)) by {
                        assert forall|a: int, b: int|
                            0 <= a < nc.len() && 0 <= b < nc.len() && a != b implies (
                            #[trigger] nc[a]).kind != (#[trigger] nc[b]).kind by {
                            if a < w.len() {
                                assert(nc[a] == w[a]);
                            }
                            if b < w.len() {
                                assert(nc[b] == w[b]);
                            }
                        }
                    }
                    lemma_kind_at(nc, pos, k);
                    lemma_kind_at(comps, j, k);
                } else {
                    assert(!has_kind(nc, k)) by {
                        if has_kind(nc, k) {
                            let m = choose|m: int| 0 <= m < nc.len() && (#[trigger] nc[m]).kind == k;
                            if m < w.len() {
                                assert(nc[m] == w[m]);
                                if has_kind(comps, c.kind) {
                                    let r = kind_index(comps, c.kind);
                                    let om = if m < r { m } else { m + 1 };
                                    assert(w[m] == comps[om]);
                                } else {
                                    assert(w[m] == comps[m]);
                                }
                            }
                        }
                    }
                }
            } else {
                assert(nv[oi] == v[oi]);
            }
        } else {
            assert(!contains_entity(nv, other_id)) by {
                if contains_entity(nv, other_id) {
                    let m = choose|m: int| 0 <= m < nv.len() && (#[trigger] nv[m]).0 == other_id;
                    assert(nv[m].0 == v[m].0);
                }
            }
        }
    }
}

/// A deleted entity is gone, so deleting it again reports that it was not
/// there, and no kind can be looked up in it; every other entity stays.
pub proof fn law_delete<T>(v: Seq<EntityView<T>>, id: Seq<char>, other_id: Seq<char>)
    requires
        well_formed(v),
    ensures
        !contains_entity(deleted(v, id), id),
        forall|k: ComponentKind| lookup(deleted(v, id), id, k) is None,
        other_id != id ==> components_of(deleted(v, id), other_id) == components_of(v, other_id),
{
    let nv = deleted(v, id);
    if contains_entity(v, id) {
        let i = entity_index(v, id);
        assert forall|m: int| 0 <= m < nv.len() implies (#[trigger] nv[m]).0 != id by {
            let om = if m < i { m } else { m + 1 };
            assert(nv[m] == v[om]);
        }
        assert(ids_distinct(nv)) by {
            assert forall|a: int, b: int|
                0 <= a < nv.len() && 0 <= b < nv.len() && a != b implies (#[trigger] nv[a]).0 != (
                #[trigger] nv[b]).0 by {
                let oa = if a < i { a } else { a + 1 };
                let ob = if b < i { b } else { b + 1 };
                assert(nv[a] == v[oa]);
                assert(nv[b] == v[ob]);
            }
        }
        if other_id != id {
            if contains_entity(v, other_id) {
                let oi = entity_index(v, other_id);
                assert(v[oi].0 == other_id);
                assert(oi != i);
                let ni = if oi < i { oi } else { oi - 1 };
                assert(nv[ni] == v[oi]);
                lemma_entity_at(nv, ni, other_id);
            } else {
                assert(!contains_entity(nv, other_id)) by {
                    if contains_entity(nv, other_id) {
                        let m = choose|m: int| 0 <= m < nv.len() && (#[trigger] nv[m]).0 == other_id;
                        let om = if m < i { m } else { m + 1 };
                        assert(nv[m] == v[om]);
                    }
                }
            }
        }
    }
}

/// A freshly spawned entity holds no component of any kind.
pub proof fn law_spawned_is_empty<T>(v: Seq<EntityView<T>>, id: Seq<char>, k: ComponentKind)
    requires
        well_formed(v),
    ensures
        components_of(upsert(v, id, Seq::empty()), id) == Some(Seq::<StoredComponent<T>>::empty()),
        lookup(upsert(v, id, Seq::<StoredComponent<T>>::empty()), id, k) is None,
{
    let nv = upsert(v, id, Seq::<StoredComponent<T>>::empty());
    if contains_entity(v, id) {
        let i = entity_index(v, id);
        assert(ids_distinct(nv)) by {
            assert forall|a: int, b: int|
                0 <= a < nv.len() && 0 <= b < nv.len() && a != b implies (#[trigger] nv[a]).0 != (
                #[trigger] nv[b]).0 by {
                assert(nv[a].0 == v[a].0);
                assert(nv[b].0 == v[b].0);
            }
        }
        lemma_entity_at(nv, i, id);
    } else {
        assert(ids_distinct(nv)) by {
            assert forall|a: int, b: int|
                0 <= a < nv.len() && 0 <= b < nv.len() && a != b implies (#[trigger] nv[a]).0 != (
                #[trigger] nv[b]).0 by {
                if a < v.len() && b < v.len() {
                    assert(nv[a] == v[a]);
                    assert(nv[b] == v[b]);
                } else if a < v.len() {
                    assert(nv[a] == v[a]);
                } else {
                    assert(nv[b] == v[b]);
                }
            }
        }
        lemma_entity_at(nv, v.len() as int, id);
    }
}

/// A copy holds a component of exactly the kinds that its source holds, and
/// each of them is a copy of the source's.
pub proof fn law_copy_same_kinds<T: Clone>(
    source: Seq<StoredComponent<T>>,
    copy: Seq<StoredComponent<T>>,
    k: ComponentKind,
)
    requires
        kinds_distinct(source),
        components_copied(source, copy),
    ensures
        kinds_distinct(copy),
        has_kind(copy, k) == has_kind(source, k),
        has_kind(source, k) ==> cloned::<T>(
            value_of_kind(source, k).unwrap(),
            value_of_kind(copy, k).unwrap(),
        ),
{
    assert forall|a: int, b: int|
        0 <= a < copy.len() && 0 <= b < copy.len() && a != b implies (#[trigger] copy[a]).kind != (
        #[trigger] copy[b]).kind by {
        assert(copy[a].kind == source[a].kind);
        assert(copy[b].kind == source[b].kind);
    }
    if has_kind(source, k) {
        let j = kind_index(source, k);
        assert(source[j].kind == k);
        assert(copy[j].kind == k);
        lemma_kind_at(copy, j, k);
    }
    if has_kind(copy, k) {
        let j = choose|j: int| 0 <= j < copy.len() && (#[trigger] copy[j]).kind == k;
        assert(source[j].kind == k);
    }
}

/// A component changed in place reads back as its new payload.
pub proof fn law_with_value_then_lookup<T>(v: Seq<EntityView<T>>, id: Seq<char>, k: ComponentKind, x: T)
    requires
        well_formed(v),
        lookup(v, id, k) is Some,
    ensures
        lookup(with_value(v, id, k, x), id, k) == Some(x),
{
    let i = entity_index(v, id);
    let comps = v[i].1;
    let j = kind_index(comps, k);
    let nv = with_value(v, id, k, x);
    let nc = comps.update(j, StoredComponent { kind: k, value: x });
    assert(ids_distinct(nv)) by {
        assert forall|a: int, b: int|
            0 <= a < nv.len() && 0 <= b < nv.len() && a != b implies (#[trigger] nv[a]).0 != (
            #[trigger] nv[b]).0 by {
            assert(nv[a].0 == v[a].0);
            assert(nv[b].0 == v[b].0);
        }
    }
    assert(v[i].0 == id);
    lemma_entity_at(nv, i, id);
    assert(comps[j].kind == k);
    assert(kinds_distinct(nc)) by {
        assert forall|a: int, b: int|
            0 <= a < nc.len() && 0 <= b < nc.len() && a != b implies (#[trigger] nc[a]).kind != (
            #[trigger] nc[b]).kind by {
            assert(nc[a].kind == comps[a].kind);
            assert(nc[b].kind == comps[b].kind);
        }
    }
    lemma_kind_at(nc, j, k);
}

/// The id query and the payload query agree: they list the same entities in
/// the same order.
pub proof fn law_ids_match_query<T>(v: Seq<EntityView<T>>, k: ComponentKind)
    ensures
        query_ids(v, k) == query_one(v, k).map_values(|p: (Seq<char>, T)| p.0),
    decreases v.len(),
{
    if v.len() > 0 {
        law_ids_match_query(v.drop_last(), k);
        assert(query_ids(v, k) =~= query_one(v, k).map_values(|p: (Seq<char>, T)| p.0));
    }
}

/// Asking for one kind twice matches no entity: an entity holds one
/// component of each kind.
pub proof fn law_query_two_same_kind<T>(v: Seq<EntityView<T>>, k: ComponentKind)
    ensures
        query_two(v, k, k).len() == 0,
    decreases v.len(),
{
    if v.len() > 0 {
        law_query_two_same_kind(v.drop_last(), k);
    }
}

/// Dropping the last entity of a well-formed store keeps it well formed and
/// keeps every other entity's components.
pub proof fn lemma_drop_last<T>(v: Seq<EntityView<T>>, id: Seq<char>)
    requires
        well_formed(v),
        v.len() > 0,
    ensures
        well_formed(v.drop_last()),
        id != v.last().0 ==> components_of(v, id) == components_of(v.drop_last(), id),
        components_of(v, v.last().0) == Some(v.last().1),
        !contains_entity(v.drop_last(), v.last().0),
{
    let d = v.drop_last();
    assert forall|a: int, b: int|
        0 <= a < d.len() && 0 <= b < d.len() && a != b implies (#[trigger] d[a]).0 != (
        #[trigger] d[b]).0 by {
        assert(d[a] == v[a]);
        assert(d[b] == v[b]);
    }
    assert forall|a: int| 0 <= a < d.len() implies kinds_distinct(#[trigger] d[a].1) by {
        assert(d[a] == v[a]);
    }
    lemma_entity_at(v, v.len() - 1, v.last().0);
    assert(!contains_entity(d, v.last().0)) by {
        if contains_entity(d, v.last().0) {
            let m = choose|m: int| 0 <= m < d.len() && (#[trigger] d[m]).0 == v.last().0;
            assert(d[m] == v[m]);
        }
    }
    if id != v.last().0 {
        if contains_entity(v, id) {
            let i = entity_index(v, id);
            assert(i != v.len() - 1);
            assert(d[i] == v[i]);
            lemma_entity_at(d, i, id);
        } else {
            assert(!contains_entity(d, id)) by {
                if contains_entity(d, id) {
                    let m = choose|m: int| 0 <= m < d.len() && (#[trigger] d[m]).0 == id;
                    assert(d[m] == v[m]);
                }
            }
        }
    }
}

/// One component of each kind per entity, so each entity appears at most
/// once in a query for a kind; the query lists exactly the entities that
/// hold that kind, each with its component of that kind.
pub proof fn law_query_one_members<T>(v: Seq<EntityView<T>>, k: ComponentKind)
    requires
        well_formed(v),
    ensures
        forall|j: int|
            0 <= j < query_one(v, k).len() ==> lookup(v, (#[trigger] query_one(v, k)[j]).0, k)
                == Some(query_one(v, k)[j].1),
        forall|id: Seq<char>|
            #[trigger] lookup(v, id, k) is Some ==> exists|j: int|
                0 <= j < query_one(v, k).len() && (#[trigger] query_one(v, k)[j]).0 == id,
        forall|a: int, b: int|
            0 <= a < query_one(v, k).len() && 0 <= b < query_one(v, k).len() && a != b ==> (
            #[trigger] query_one(v, k)[a]).0 != (#[trigger] query_one(v, k)[b]).0,
    decreases v.len(),
{
    if v.len() > 0 {
        let d = v.drop_last();
        let e = v.last();
        lemma_drop_last(v, e.0);
        law_query_one_members(d, k);
        let q = query_one(v, k);
        let qd = query_one(d, k);
        assert forall|j: int| 0 <= j < q.len() implies lookup(v, (#[trigger] q[j]).0, k) == Some(
            q[j].1,
        ) by {
            if j < qd.len() {
                assert(q[j] == qd[j]);
                lemma_drop_last(v, qd[j].0);
                if qd[j].0 == e.0 {
                    assert(lookup(d, qd[j].0, k) is Some);
                }
            }
        }
        assert forall|id: Seq<char>| #[trigger] lookup(v, id, k) is Some implies exists|j: int|
            0 <= j < q.len() && (#[trigger] q[j]).0 == id by {
            lemma_drop_last(v, id);
            if id == e.0 {
                assert(q[q.len() - 1].0 == id);
            } else {
                assert(lookup(d, id, k) is Some);
                let j = choose|j: int| 0 <= j < qd.len() && (#[trigger] qd[j]).0 == id;
                assert(q[j] == qd[j]);
            }
        }
        assert forall|a: int, b: int|
            0 <= a < q.len() && 0 <= b < q.len() && a != b implies (#[trigger] q[a]).0 != (
            #[trigger] q[b]).0 by {
            if a < qd.len() && b < qd.len() {
                assert(q[a] == qd[a]);
                assert(q[b] == qd[b]);
            } else if a < qd.len() {
                assert(q[a] == qd[a]);
                lemma_drop_last(v, qd[a].0);
                assert(lookup(d, qd[a].0, k) is Some);
            } else if b < qd.len() {
                assert(q[b] == qd[b]);
                lemma_drop_last(v, qd[b].0);
                assert(lookup(d, qd[b].0, k) is Some);
            }
        }
    }
}

/// The two-kind query lists exactly the entities that hold components of
/// both distinct kinds, each once, each with its components of those kinds.
pub proof fn law_query_two_members<T>(v: Seq<EntityView<T>>, k1: ComponentKind, k2: ComponentKind)
    requires
        well_formed(v),
    ensures
        forall|j: int|
            0 <= j < query_two(v, k1, k2).len() ==> k1 != k2 && lookup(
                v,
                (#[trigger] query_two(v, k1, k2)[j]).0,
                k1,
            ) == Some(query_two(v, k1, k2)[j].1) && lookup(v, query_two(v, k1, k2)[j].0, k2)
                == Some(query_two(v, k1, k2)[j].2),
        forall|id: Seq<char>|
            k1 != k2 && #[trigger] lookup(v, id, k1) is Some && lookup(v, id, k2) is Some
                ==> exists|j: int|
                0 <= j < query_two(v, k1, k2).len() && (#[trigger] query_two(v, k1, k2)[j]).0
                    == id,
        forall|a: int, b: int|
            0 <= a < query_two(v, k1, k2).len() && 0 <= b < query_two(v, k1, k2).len() && a
                != b ==> (#[trigger] query_two(v, k1, k2)[a]).0 != (#[trigger] query_two(
                v,
                k1,
                k2,
            )[b]).0,
    decreases v.len(),
{
    if v.len() > 0 {
        let d = v.drop_last();
        let e = v.last();
        lemma_drop_last(v, e.0);
        law_query_two_members(d, k1, k2);
        let q = query_two(v, k1, k2);
        let qd = query_two(d, k1, k2);
        assert forall|j: int| 0 <= j < q.len() implies k1 != k2 && lookup(v, (#[trigger] q[j]).0, k1)
            == Some(q[j].1) && lookup(v, q[j].0, k2) == Some(q[j].2) by {
            if j < qd.len() {
                assert(q[j] == qd[j]);
                lemma_drop_last(v, qd[j].0);
                if qd[j].0 == e.0 {
                    assert(lookup(d, qd[j].0, k1) is Some);
                }
            }
        }
        assert forall|id: Seq<char>|
            k1 != k2 && #[trigger] lookup(v, id, k1) is Some && lookup(v, id, k2) is Some implies exists|
            j: int|
            0 <= j < q.len() && (#[trigger] q[j]).0 == id by {
            lemma_drop_last(v, id);
            if id == e.0 {
                assert(q[q.len() - 1].0 == id);
            } else {
                assert(lookup(d, id, k1) is Some);
                let j = choose|j: int| 0 <= j < qd.len() && (#[trigger] qd[j]).0 == id;
                assert(q[j] == qd[j]);
            }
        }
        assert forall|a: int, b: int|
            0 <= a < q.len() && 0 <= b < q.len() && a != b implies (#[trigger] q[a]).0 != (
            #[trigger] q[b]).0 by {
            if a < qd.len() && b < qd.len() {
                assert(q[a] == qd[a]);
                assert(q[b] == qd[b]);
            } else if a < qd.len() {
                assert(q[a] == qd[a]);
                lemma_drop_last(v, qd[a].0);
                assert(lookup(d, qd[a].0, k1) is Some);
            } else if b < qd.len() {
                assert(q[b] == qd[b]);
                lemma_drop_last(v, qd[b].0);
                assert(lookup(d, qd[b].0, k1) is Some);
            }
        }
    }
}

/// The three-kind query lists exactly the entities that hold components of
/// all three pairwise distinct kinds, each once, each with its components
/// of those kinds.
pub proof fn law_query_three_members<T>(
    v: Seq<EntityView<T>>,
    k1: ComponentKind,
    k2: ComponentKind,
    k3: ComponentKind,
)
    requires
        well_formed(v),
    ensures
        forall|j: int|
            0 <= j < query_three(v, k1, k2, k3).len() ==> k1 != k2 && k1 != k3 && k2 != k3
                && lookup(v, (#[trigger] query_three(v, k1, k2, k3)[j]).0, k1) == Some(
                query_three(v, k1, k2, k3)[j].1,
            ) && lookup(v, query_three(v, k1, k2, k3)[j].0, k2) == Some(
                query_three(v, k1, k2, k3)[j].2,
            ) && lookup(v, query_three(v, k1, k2, k3)[j].0, k3) == Some(
                query_three(v, k1, k2, k3)[j].3,
            ),
        forall|id: Seq<char>|
            k1 != k2 && k1 != k3 && k2 != k3 && #[trigger] lookup(v, id, k1) is Some && lookup(
                v,
                id,
                k2,
            ) is Some && lookup(v, id, k3) is Some ==> exists|j: int|
                0 <= j < query_three(v, k1, k2, k3).len() && (#[trigger] query_three(
                    v,
                    k1,
                    k2,
                    k3,
                )[j]).0 == id,
        forall|a: int, b: int|
            0 <= a < query_three(v, k1, k2, k3).len() && 0 <= b < query_three(v, k1, k2, k3).len()
                && a != b ==> (#[trigger] query_three(v, k1, k2, k3)[a]).0 != (
            #[trigger] query_three(v, k1, k2, k3)[b]).0,
    decreases v.len(),
{
    if v.len() > 0 {
        let d = v.drop_last();
        let e = v.last();
        lemma_drop_last(v, e.0);
        law_query_three_members(d, k1, k2, k3);
        let q = query_three(v, k1, k2, k3);
        let qd = query_three(d, k1, k2, k3);
        assert forall|j: int| 0 <= j < q.len() implies k1 != k2 && k1 != k3 && k2 != k3 && lookup(
            v,
            (#[trigger] q[j]).0,
            k1,
        ) == Some(q[j].1) && lookup(v, q[j].0, k2) == Some(q[j].2) && lookup(v, q[j].0, k3)
            == Some(q[j].3) by {
            if j < qd.len() {
                assert(q[j] == qd[j]);
                lemma_drop_last(v, qd[j].0);
                if qd[j].0 == e.0 {
                    assert(lookup(d, qd[j].0, k1) is Some);
                }
            }
        }
        assert forall|id: Seq<char>|
            k1 != k2 && k1 != k3 && k2 != k3 && #[trigger] lookup(v, id, k1) is Some && lookup(
                v,
                id,
                k2,
            ) is Some && lookup(v, id, k3) is Some implies exists|j: int|
            0 <= j < q.len() && (#[trigger] q[j]).0 == id by {
            lemma_drop_last(v, id);
            if id == e.0 {
                assert(q[q.len() - 1].0 == id);
            } else {
                assert(lookup(d, id, k1) is Some);
                let j = choose|j: int| 0 <= j < qd.len() && (#[trigger] qd[j]).0 == id;
                assert(q[j] == qd[j]);
            }
        }
        assert forall|a: int, b: int|
            0 <= a < q.len() && 0 <= b < q.len() && a != b implies (#[trigger] q[a]).0 != (
            #[trigger] q[b]).0 by {
            if a < qd.len() && b < qd.len() {
                assert(q[a] == qd[a]);
                assert(q[b] == qd[b]);
            } else if a < qd.len() {
                assert(q[a] == qd[a]);
                lemma_drop_last(v, qd[a].0);
                assert(lookup(d, qd[a].0, k1) is Some);
            } else if b < qd.len() {
                assert(q[b] == qd[b]);
                lemma_drop_last(v, qd[b].0);
                assert(lookup(d, qd[b].0, k1) is Some);
            }
        }
    }
}

/// Where no two components share a kind, keeping the first of each kind
/// keeps them all.
pub proof fn lemma_first_of_each_kind_distinct<T>(comps: Seq<StoredComponent<T>>)
    requires
        kinds_distinct(comps),
    ensures
        first_of_each_kind(comps) == comps,
    decreases comps.len(),
{
    if comps.len() > 0 {
        let front = comps.drop_last();
        let c = comps.last();
        assert(kinds_distinct(front)) by {
            assert forall|a: int, b: int|
                0 <= a < front.len() && 0 <= b < front.len() && a != b implies (
                #[trigger] front[a]).kind != (#[trigger] front[b]).kind by {
                assert(front[a] == comps[a]);
                assert(front[b] == comps[b]);
            }
        }
        lemma_first_of_each_kind_distinct(front);
        assert(!has_kind(front, c.kind)) by {
            if has_kind(front, c.kind) {
                let m = choose|m: int| 0 <= m < front.len() && (#[trigger] front[m]).kind == c.kind;
                assert(front[m] == comps[m]);
                assert(comps[comps.len() - 1].kind == c.kind);
            }
        }
        assert(front.push(c) =~= comps);
    } else {
        assert(comps =~= Seq::<StoredComponent<T>>::empty());
    }
}

/// Restoring every entity of a well-formed store, one after the other, into
/// an empty store gives back the same store: what is saved entity by
/// entity loads back unchanged.
pub proof fn law_load_restores_store<T>(v: Seq<EntityView<T>>)
    requires
        well_formed(v),
    ensures
        loaded(v) == v,
    decreases v.len(),
{
    if v.len() > 0 {
        let d = v.drop_last();
        let e = v.last();
        lemma_drop_last(v, e.0);
        law_load_restores_store(d);
        assert(kinds_distinct(v[v.len() - 1].1));
        lemma_first_of_each_kind_distinct(e.1);
        assert(upsert(d, e.0, e.1) == d.push((e.0, e.1)));
        assert(d.push((e.0, e.1)) =~= v);
    } else {
        assert(v =~= Seq::<EntityView<T>>::empty());
    }
}

/// Loading the entities of a well-formed store in any order, each once,
/// gives every id the components it had in the store, and no other id any:
/// only the order of the entities may differ.
pub proof fn law_load_reordered<T>(v: Seq<EntityView<T>>, es: Seq<EntityView<T>>, id: Seq<char>)
    requires
        well_formed(v),
        ids_distinct(es),
        forall|e: EntityView<T>| #[trigger] es.contains(e) <==> v.contains(e),
    ensures
        components_of(loaded(es), id) == components_of(v, id),
{
    assert forall|i: int| 0 <= i < es.len() implies kinds_distinct(#[trigger] es[i].1) by {
        assert(es.contains(es[i]));
        assert(v.contains(es[i]));
        let j = choose|j: int| 0 <= j < v.len() && v[j] == es[i];
        assert(kinds_distinct(v[j].1));
    }
    law_load_restores_store(es);
    if contains_entity(es, id) {
        let i = entity_index(es, id);
        lemma_entity_at(es, i, id);
        assert(es.contains(es[i]));
        assert(v.contains(es[i]));
        let j = choose|j: int| 0 <= j < v.len() && v[j] == es[i];
        lemma_entity_at(v, j, id);
    } else if contains_entity(v, id) {
        let j = entity_index(v, id);
        assert(v[j].0 == id);
        assert(v.contains(v[j]));
        assert(es.contains(v[j]));
        let i = choose|i: int| 0 <= i < es.len() && es[i] == v[j];
        assert(es[i].0 == id);
    }
}

} // verus!

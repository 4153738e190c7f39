//! A small table from asset names to values, read by its first entry of
//! each name.
use vstd::prelude::*;

verus! {

/// The value stored under `name` in `entries`, if any: the first entry with
/// that name.
pub open spec fn table_get<K, V>(entries: Seq<(K, V)>, name: K) -> Option<V>
    decreases entries.len(),
{
    if entries.len() == 0 {
        None
    } else if entries[0].0 == name {
        Some(entries[0].1)
    } else {
        table_get(entries.drop_first(), name)
    }
}

/// Where the first entry named `name` is at `i`, the table gives its value.
pub proof fn lemma_table_at<K, V>(entries: Seq<(K, V)>, name: K, i: int)
    requires
        0 <= i < entries.len(),
        entries[i].0 == name,
        forall|j: int| 0 <= j < i ==> (#[trigger] entries[j]).0 != name,
    ensures
        table_get(entries, name) == Some(entries[i].1),
    decreases i,
{
    if i > 0 {
        let d = entries.drop_first();
        assert forall|j: int| 0 <= j < i - 1 implies (#[trigger] d[j]).0 != name by {
            assert(d[j] == entries[j + 1]);
        }
        lemma_table_at(d, name, i - 1);
        assert(entries[0].0 != name);
    }
}

/// Where no entry is named `name`, the table gives nothing for it.
pub proof fn lemma_table_absent<K, V>(entries: Seq<(K, V)>, name: K)
    requires
        forall|j: int| 0 <= j < entries.len() ==> (#[trigger] entries[j]).0 != name,
    ensures
        table_get(entries, name) is None,
    decreases entries.len(),
{
    if entries.len() > 0 {
        let d = entries.drop_first();
        assert forall|j: int| 0 <= j < d.len() implies (#[trigger] d[j]).0 != name by {
            assert(d[j] == entries[j + 1]);
        }
        lemma_table_absent(d, name);
        assert(entries[0].0 != name);
    }
}

} // verus!

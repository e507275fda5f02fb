//! The collection as a mathematical sequence of records, and what each
//! operation makes of it. Every executable operation of the crate is stated
//! against the functions of this module.

use vstd::prelude::*;
use crate::item::Record;

verus! {

/// Some record of `s` carries the identifier `id`.
pub open spec fn has_id(s: Seq<Record>, id: nat) -> bool {
    exists|i: int| 0 <= i < s.len() && (#[trigger] s[i]).id == id
}

/// `i` is the position of the first record of `s` that carries `id`.
pub open spec fn is_first_with_id(s: Seq<Record>, id: nat, i: int) -> bool {
    &&& 0 <= i < s.len()
    &&& s[i].id == id
    &&& forall|j: int| 0 <= j < i ==> (#[trigger] s[j]).id != id
}

/// The position of the first record of `s` that carries `id`. It is
/// meaningful only where `has_id(s, id)` holds.
pub open spec fn first_with_id(s: Seq<Record>, id: nat) -> int {
    choose|i: int| is_first_with_id(s, id, i)
}

/// The test that a record carries `id`.
pub open spec fn carries(id: nat) -> spec_fn(Record) -> bool {
    |r: Record| r.id == id
}

/// The test that a record carries another identifier than `id`.
pub open spec fn carries_other(id: nat) -> spec_fn(Record) -> bool {
    |r: Record| r.id != id
}

/// How many records of `s` carry `id`.
pub open spec fn count_with_id(s: Seq<Record>, id: nat) -> nat {
    s.filter(carries(id)).len()
}

/// The collection after a record was created: the record stands at the
/// end, whatever identifiers are already present.
pub open spec fn appended(s: Seq<Record>, r: Record) -> Seq<Record> {
    s.push(r)
}

/// The collection after an update by identifier: the first record that
/// carries `id` has the new name, and nothing else has changed. Without such
/// a record the collection is unchanged.
pub open spec fn renamed(s: Seq<Record>, id: nat, name: Seq<char>) -> Seq<Record> {
    if has_id(s, id) {
        s.update(first_with_id(s, id), Record { id, name })
    } else {
        s
    }
}

/// The collection after a delete by identifier: every record that carries
/// `id` is gone, the others keep their order.
pub open spec fn without_id(s: Seq<Record>, id: nat) -> Seq<Record> {
    s.filter(carries_other(id))
}

/// A change to the collection.
pub enum Change {
    Create(Record),
    Update { id: nat, name: Seq<char> },
    Delete { id: nat },
}

/// The collection after one change.
pub open spec fn applied(s: Seq<Record>, change: Change) -> Seq<Record> {
    match change {
        Change::Create(r) => appended(s, r),
        Change::Update { id, name } => renamed(s, id, name),
        Change::Delete { id } => without_id(s, id),
    }
}

/// Whether a change finds what it asks for: a create always does, an update
/// and a delete only where a record carries the identifier.
pub open spec fn takes_effect(s: Seq<Record>, change: Change) -> bool {
    match change {
        Change::Create(_) => true,
        Change::Update { id, .. } => has_id(s, id),
        Change::Delete { id } => has_id(s, id),
    }
}

/// The collection after a sequence of changes, applied from first to last.
pub open spec fn replayed(s: Seq<Record>, changes: Seq<Change>) -> Seq<Record> {
    changes.fold_left(s, |acc: Seq<Record>, change: Change| applied(acc, change))
}

/// At most one position is the first with a given identifier.
pub proof fn lemma_first_with_id_unique(s: Seq<Record>, id: nat, i: int, j: int)
    requires
        is_first_with_id(s, id, i),
        is_first_with_id(s, id, j),
    ensures
        i == j,
{
    if i < j {
        assert(s[i].id != id);
    } else if j < i {
        assert(s[j].id != id);
    }
}

/// Where a record carries `id`, `first_with_id` is the first such position.
pub proof fn lemma_first_with_id_exists(s: Seq<Record>, id: nat)
    requires
        has_id(s, id),
    ensures
        is_first_with_id(s, id, first_with_id(s, id)),
{
    let k = choose|k: int| 0 <= k < s.len() && (#[trigger] s[k]).id == id;
    lemma_least_position(s, id, k);
}

/// Below any position that carries `id` there is a first one.
proof fn lemma_least_position(s: Seq<Record>, id: nat, k: int)
    requires
        0 <= k < s.len(),
        s[k].id == id,
    ensures
        exists|i: int| is_first_with_id(s, id, i),
    decreases k,
{
    if exists|j: int| 0 <= j < k && (#[trigger] s[j]).id == id {
        let j = choose|j: int| 0 <= j < k && (#[trigger] s[j]).id == id;
        lemma_least_position(s, id, j);
    } else {
        assert(is_first_with_id(s, id, k));
    }
}

/// A record at the end carries `id`, or one before it does.
pub proof fn lemma_has_id_push(s: Seq<Record>, r: Record, id: nat)
    ensures
        has_id(s.push(r), id) == (has_id(s, id) || r.id == id),
{
    let t = s.push(r);
    if has_id(s, id) {
        let i = choose|i: int| 0 <= i < s.len() && (#[trigger] s[i]).id == id;
        assert(t[i].id == id);
    }
    if r.id == id {
        assert(t[s.len() as int].id == id);
    }
    if has_id(t, id) {
        let i = choose|i: int| 0 <= i < t.len() && (#[trigger] t[i]).id == id;
        if i < s.len() {
            assert(s[i].id == id);
        }
    }
}

} // verus!

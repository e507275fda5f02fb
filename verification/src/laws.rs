//! What holds of the operations whatever the collection is. Each law is
//! stated over the functions of the model, which the contracts of the
//! executable operations use too.

use vstd::prelude::*;
use crate::item::{records_of, Item, Record};
use crate::model::{
    appended, applied, carries, carries_other, count_with_id, first_with_id, has_id,
    is_first_with_id, lemma_first_with_id_exists, lemma_has_id_push, renamed, replayed,
    without_id, Change,
};
use crate::service::{answer_by_id, loaded, status_of, Persisted, ReplyValue};

verus! {

/// A create adds exactly its record, at the end, also where the identifier
/// is already in use: the records that carry it are one more than before.
pub proof fn lemma_create_keeps_duplicates(s: Seq<Record>, r: Record)
    ensures
        appended(s, r).len() == s.len() + 1,
        appended(s, r).last() == r,
        appended(s, r).drop_last() == s,
        has_id(appended(s, r), r.id),
        count_with_id(appended(s, r), r.id) == count_with_id(s, r.id) + 1,
{
    assert(appended(s, r).drop_last() =~= s);
    lemma_has_id_push(s, r, r.id);
    reveal(Seq::filter);
}

/// An update changes the first record that carries the identifier and no
/// other: the record at that position has the identifier and the new name,
/// every record before it carries another identifier, and every other
/// position holds what it held.
pub proof fn lemma_update_first_only(s: Seq<Record>, id: nat, name: Seq<char>)
    requires
        has_id(s, id),
    ensures
        is_first_with_id(s, id, first_with_id(s, id)),
        renamed(s, id, name).len() == s.len(),
        renamed(s, id, name)[first_with_id(s, id)] == (Record { id, name }),
        forall|j: int|
            0 <= j < s.len() && j != first_with_id(s, id) ==> #[trigger] renamed(s, id, name)[j]
                == s[j],
{
    lemma_first_with_id_exists(s, id);
}

/// An update keeps the identifier of every record, so it keeps which
/// identifiers are present.
pub proof fn lemma_update_keeps_ids(s: Seq<Record>, id: nat, name: Seq<char>, other: nat)
    ensures
        renamed(s, id, name).len() == s.len(),
        forall|j: int| 0 <= j < s.len() ==> (#[trigger] renamed(s, id, name)[j]).id == s[j].id,
        has_id(renamed(s, id, name), other) == has_id(s, other),
{
    let t = renamed(s, id, name);
    if has_id(s, id) {
        lemma_first_with_id_exists(s, id);
    }
    if has_id(s, other) {
        let k = choose|k: int| 0 <= k < s.len() && (#[trigger] s[k]).id == other;
        assert(t[k].id == other);
    }
    if has_id(t, other) {
        let k = choose|k: int| 0 <= k < t.len() && (#[trigger] t[k]).id == other;
        assert(s[k].id == other);
    }
}

/// An update for an identifier that no record carries changes nothing.
pub proof fn lemma_update_absent(s: Seq<Record>, id: nat, name: Seq<char>)
    requires
        !has_id(s, id),
    ensures
        renamed(s, id, name) == s,
{
}

/// A delete removes every record that carries the identifier: none is left,
/// and the collection is shorter by their number.
pub proof fn lemma_delete_removes_every(s: Seq<Record>, id: nat)
    ensures
        !has_id(without_id(s, id), id),
        count_with_id(without_id(s, id), id) == 0,
        without_id(s, id).len() == s.len() - count_with_id(s, id),
    decreases s.len(),
{
    let t = without_id(s, id);
    assert forall|i: int| 0 <= i < t.len() implies (#[trigger] t[i]).id != id by {
        s.lemma_filter_pred(carries_other(id), i);
    }
    reveal(Seq::filter);
    if s.len() > 0 {
        lemma_delete_removes_every(s.drop_last(), id);
        if s.last().id != id {
            assert(t.drop_last() =~= without_id(s.drop_last(), id));
        }
    }
}

/// A delete leaves the records that carry another identifier as they were,
/// each of them and in their order.
pub proof fn lemma_delete_keeps_others(s: Seq<Record>, id: nat, other: nat)
    requires
        other != id,
    ensures
        without_id(s, id).filter(carries(other)) == s.filter(carries(other)),
        has_id(without_id(s, id), other) == has_id(s, other),
    decreases s.len(),
{
    let t = without_id(s, id);
    reveal(Seq::filter);
    if s.len() > 0 {
        let front = s.drop_last();
        lemma_delete_keeps_others(front, id, other);
        let u = without_id(front, id);
        if s.last().id != id {
            assert(t.drop_last() =~= u);
            lemma_has_id_push(u, s.last(), other);
        }
        assert(s =~= front.push(s.last()));
        lemma_has_id_push(front, s.last(), other);
    }
}

/// A delete for an identifier that no record carries changes nothing.
pub proof fn lemma_delete_absent(s: Seq<Record>, id: nat)
    requires
        !has_id(s, id),
    ensures
        without_id(s, id) == s,
    decreases s.len(),
{
    reveal(Seq::filter);
    if s.len() > 0 {
        let front = s.drop_last();
        assert(s =~= front.push(s.last()));
        lemma_has_id_push(front, s.last(), id);
        lemma_delete_absent(front, id);
    }
}

/// After a delete the same delete finds nothing: no record carries the
/// identifier any more, so the second one is answered "not found", with
/// status 404, and leaves the collection as the first one left it.
pub proof fn lemma_delete_twice(s: Seq<Record>, id: nat)
    ensures
        !has_id(without_id(s, id), id),
        answer_by_id(without_id(s, id), id) == ReplyValue::NotFound,
        status_of(answer_by_id(without_id(s, id), id)) == 404,
        without_id(without_id(s, id), id) == without_id(s, id),
{
    lemma_delete_removes_every(s, id);
    lemma_delete_absent(without_id(s, id), id);
}

/// A start begins with the records that the file held, each of them and in
/// their order, and with none where there was no file or no collection in
/// it. Which text stands for a collection is the affair of whoever reads
/// and writes the file.
pub proof fn lemma_load_keeps_records(items: Vec<Item>)
    ensures
        loaded(Persisted::Records(items)) == records_of(items@),
        loaded(Persisted::Missing) == Seq::<Record>::empty(),
        loaded(Persisted::Malformed) == Seq::<Record>::empty(),
{
}

/// Replaying no change leaves the collection as it is.
pub proof fn lemma_replay_nothing(s: Seq<Record>)
    ensures
        replayed(s, Seq::<Change>::empty()) == s,
{
}

/// Replaying a sequence of changes and then one more is applying that one
/// to what the sequence gave.
pub proof fn lemma_replay_step(s: Seq<Record>, changes: Seq<Change>, next: Change)
    ensures
        replayed(s, changes.push(next)) == applied(replayed(s, changes), next),
{
    assert(changes.push(next).drop_last() =~= changes);
}

/// Replaying two sequences of changes one after the other is replaying
/// their concatenation.
pub proof fn lemma_replay_concat(s: Seq<Record>, first: Seq<Change>, second: Seq<Change>)
    ensures
        replayed(s, first + second) == replayed(replayed(s, first), second),
    decreases second.len(),
{
    if second.len() == 0 {
        assert(first + second =~= first);
    } else {
        lemma_replay_concat(s, first, second.drop_last());
        assert((first + second).drop_last() =~= first + second.drop_last());
        assert((first + second).last() == second.last());
    }
}

} // verus!

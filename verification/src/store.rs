//! The record store: the collection in memory and the four operations on it.

use vstd::prelude::*;
use crate::item::{records_of, Item, Record};
use crate::model::{
    appended, applied, first_with_id, has_id, is_first_with_id, lemma_first_with_id_unique,
    lemma_has_id_push, renamed, replayed, takes_effect, without_id, Change,
};

verus! {

/// The collection of records, in insertion order. Identifiers may repeat.
///
/// The store is an owned value: whoever holds `&mut Store` has it alone for
/// the whole of an operation.
pub struct Store {
    items: Vec<Item>,
}

impl View for Store {
    type V = Seq<Record>;

    closed spec fn view(&self) -> Seq<Record> {
        records_of(self.items@)
    }
}

/// A change to the collection, as a caller asks for it.
#[derive(Debug, PartialEq, Eq)]
pub enum Operation {
    /// Append the record.
    Create(Item),
    /// Give the first record that carries `id` the name `name`.
    Update { id: usize, name: String },
    /// Remove every record that carries `id`.
    Delete { id: usize },
}

impl View for Operation {
    type V = Change;

    open spec fn view(&self) -> Change {
        match *self {
            Operation::Create(item) => Change::Create(item@),
            Operation::Update { id, name } => Change::Update { id: id as nat, name: name@ },
            Operation::Delete { id } => Change::Delete { id: id as nat },
        }
    }
}

/// The changes that a sequence of operations asks for, in the same order.
pub open spec fn changes_of(ops: Seq<Operation>) -> Seq<Change> {
    ops.map_values(|op: Operation| op@)
}

impl Store {
    /// A store without records.
    pub fn new() -> (store: Store)
        ensures
            store@ == Seq::<Record>::empty(),
    {
        Store { items: Vec::new() }
    }

    /// A store that holds the given records, in their order.
    pub fn from_items(items: Vec<Item>) -> (store: Store)
        ensures
            store@ == records_of(items@),
    {
        Store { items }
    }

    /// The records as they stand, by reference.
    pub fn items(&self) -> (items: &Vec<Item>)
        ensures
            records_of(items@) == self@,
    {
        &self.items
    }

    /// Appends `item` to the end of the collection. Identifiers already
    /// present are no obstacle.
    pub fn create(&mut self, item: Item)
        ensures
            final(self)@ == appended(old(self)@, item@),
    {
        self.items.push(item);
        assert(records_of(self.items@) =~= records_of(old(self).items@).push(item@));
    }

    /// A copy of the collection in its current order.
    pub fn list(&self) -> (snapshot: Vec<Item>)
        ensures
            records_of(snapshot@) == self@,
    {
        let mut snapshot: Vec<Item> = Vec::new();
        let mut i: usize = 0;
        while i < self.items.len()
            invariant
                i <= self.items.len(),
                records_of(snapshot@) == records_of(self.items@.take(i as int)),
            decreases self.items.len() - i,
        {
            let ghost copied = records_of(snapshot@);
            let copy = self.items[i].clone();
            snapshot.push(copy);
            i += 1;
            assert(records_of(self.items@.take(i as int)) =~= copied.push(copy@));
        }
        assert(self.items@.take(i as int) =~= self.items@);
        snapshot
    }

    /// Gives the first record that carries `id` the name `name` and reports
    /// whether there was one. Later records with the same identifier, and
    /// all others, stay as they are.
    pub fn update(&mut self, id: usize, name: String) -> (found: bool)
        ensures
            found == has_id(old(self)@, id as nat),
            final(self)@ == renamed(old(self)@, id as nat, name@),
    {
        let mut i: usize = 0;
        while i < self.items.len()
            invariant
                i <= self.items.len(),
                self.items == old(self).items,
                forall|j: int| 0 <= j < i ==> (#[trigger] self@[j]).id != id as nat,
            decreases self.items.len() - i,
        {
            if self.items[i].id == id {
                proof {
                    let first = first_with_id(self@, id as nat);
                    assert(is_first_with_id(self@, id as nat, i as int));
                    lemma_first_with_id_unique(self@, id as nat, i as int, first);
                }
                self.items[i].name = name;
                assert(self@ =~= old(self)@.update(
                    i as int,
                    Record { id: id as nat, name: name@ },
                ));
                return true;
            }
            i += 1;
        }
        false
    }

    /// Removes every record that carries `id` and reports whether there was
    /// one. The records that stay keep their order.
    pub fn delete(&mut self, id: usize) -> (found: bool)
        ensures
            found == has_id(old(self)@, id as nat),
            final(self)@ == without_id(old(self)@, id as nat),
    {
        let ghost before = self@;
        let mut taken: Vec<Item> = Vec::new();
        std::mem::swap(&mut self.items, &mut taken);
        let mut found = false;
        for item in it: taken
            invariant
                records_of(it.seq()) == before,
                self@ == without_id(before.take(it.index() as int), id as nat),
                found == has_id(before.take(it.index() as int), id as nat),
        {
            proof {
                let n = it.index() as int;
                assert(before.take(n + 1) =~= before.take(n).push(item@));
                assert(before.take(n + 1).drop_last() =~= before.take(n));
                lemma_has_id_push(before.take(n), item@, id as nat);
                reveal(Seq::filter);
            }
            if item.id == id {
                found = true;
            } else {
                self.items.push(item);
            }
        }
        assert(before.take(before.len() as int) =~= before);
        found
    }

    /// Carries out one operation and reports whether it took effect: a
    /// create always does, an update and a delete only where a record
    /// carries the identifier.
    pub fn apply(&mut self, op: Operation) -> (done: bool)
        ensures
            done == takes_effect(old(self)@, op@),
            final(self)@ == applied(old(self)@, op@),
    {
        match op {
            Operation::Create(item) => {
                self.create(item);
                true
            },
            Operation::Update { id, name } => self.update(id, name),
            Operation::Delete { id } => self.delete(id),
        }
    }

    /// Carries out the operations from first to last. Those that find no
    /// record leave the collection as it is.
    pub fn replay(&mut self, ops: Vec<Operation>)
        ensures
            final(self)@ == replayed(old(self)@, changes_of(ops@)),
    {
        let ghost before = self@;
        let ghost changes = changes_of(ops@);
        assert(changes.take(0) =~= Seq::<Change>::empty());
        for op in it: ops
            invariant
                changes == changes_of(it.seq()),
                self@ == replayed(before, changes.take(it.index() as int)),
        {
            proof {
                let n = it.index() as int;
                assert(changes.take(n + 1).drop_last() =~= changes.take(n));
            }
            self.apply(op);
        }
        assert(changes.take(changes.len() as int) =~= changes);
    }
}

} // verus!

//! The record type and its mathematical value.

use vstd::prelude::*;

verus! {

/// The mathematical value of a record: an identifier and a name.
pub struct Record {
    pub id: nat,
    pub name: Seq<char>,
}

/// A record as the service stores it. The identifier is supplied by the
/// caller and is never checked for uniqueness.
#[derive(Debug, PartialEq, Eq)]
pub struct Item {
    pub id: usize,
    pub name: String,
}

impl View for Item {
    type V = Record;

    open spec fn view(&self) -> Record {
        Record { id: self.id as nat, name: self.name@ }
    }
}

impl Clone for Item {
    fn clone(&self) -> (copy: Self)
        ensures
            copy == *self,
    {
        Item { id: self.id, name: self.name.clone() }
    }
}

/// The values of a sequence of records, in the same order.
pub open spec fn records_of(items: Seq<Item>) -> Seq<Record> {
    items.map_values(|item: Item| item@)
}

} // verus!

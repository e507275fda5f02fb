//! The decisions of the service: what each request does to the store, what
//! is answered, and whether the collection has to be written out before the
//! answer goes. Reading and writing the file, and the transport, are the
//! caller's part.

use vstd::prelude::*;
use crate::item::{records_of, Item, Record};
use crate::model::{appended, has_id, renamed, without_id};
use crate::store::Store;

verus! {

/// The answer to a request.
#[derive(Debug, PartialEq, Eq)]
pub enum Reply {
    /// The record was created; it is handed back.
    Created(Item),
    /// The whole collection, in its order.
    Items(Vec<Item>),
    /// The update or delete found its record.
    Done,
    /// No record carries the identifier.
    NotFound,
}

/// The mathematical value of an answer.
pub enum ReplyValue {
    Created(Record),
    Items(Seq<Record>),
    Done,
    NotFound,
}

impl View for Reply {
    type V = ReplyValue;

    open spec fn view(&self) -> ReplyValue {
        match *self {
            Reply::Created(item) => ReplyValue::Created(item@),
            Reply::Items(items) => ReplyValue::Items(records_of(items@)),
            Reply::Done => ReplyValue::Done,
            Reply::NotFound => ReplyValue::NotFound,
        }
    }
}

/// The HTTP status that goes with an answer.
pub open spec fn status_of(reply: ReplyValue) -> int {
    match reply {
        ReplyValue::Created(_) => 201,
        ReplyValue::Items(_) => 200,
        ReplyValue::Done => 200,
        ReplyValue::NotFound => 404,
    }
}

/// The answer to an update or a delete by identifier: "done" where a record
/// of `s` carries `id`, "not found" where none does.
pub open spec fn answer_by_id(s: Seq<Record>, id: nat) -> ReplyValue {
    if has_id(s, id) {
        ReplyValue::Done
    } else {
        ReplyValue::NotFound
    }
}

impl Reply {
    /// The HTTP status that goes with this answer.
    pub fn status(&self) -> (code: u16)
        ensures
            code == status_of(self@),
    {
        match self {
            Reply::Created(_) => 201,
            Reply::Items(_) => 200,
            Reply::Done => 200,
            Reply::NotFound => 404,
        }
    }
}

/// What a request came to: the answer, and whether the collection changed.
///
/// Where `persist` is set the caller writes the whole collection out before
/// it answers, while it still holds the store. A request that changed
/// nothing asks for no write. The change in memory is not taken back if the
/// write fails.
#[derive(Debug, PartialEq, Eq)]
pub struct Outcome {
    pub reply: Reply,
    pub persist: bool,
}

impl Outcome {
    /// What the requester gets once the write is over. `write_failed` tells
    /// whether the write that this outcome asked for failed; it counts for
    /// nothing where no write was asked for. A failed write is fatal to the
    /// request: there is no answer, not even one that reports the failure,
    /// and the caller gives the request up. Otherwise the answer goes out
    /// as it is.
    pub fn conclude(self, write_failed: bool) -> (answer: Option<Reply>)
        ensures
            answer == if self.persist && write_failed {
                None::<Reply>
            } else {
                Some(self.reply)
            },
    {
        if self.persist && write_failed {
            None
        } else {
            Some(self.reply)
        }
    }
}

/// Creates a record: it is appended whatever identifiers are present, handed
/// back in the answer, and the collection is to be written out.
pub fn create_item(store: &mut Store, item: Item) -> (outcome: Outcome)
    ensures
        final(store)@ == appended(old(store)@, item@),
        outcome.reply@ == ReplyValue::Created(item@),
        outcome.persist,
{
    let echo = item.clone();
    store.create(item);
    Outcome { reply: Reply::Created(echo), persist: true }
}

/// Lists the collection in its order. The store is left alone and nothing
/// is to be written.
pub fn get_items(store: &Store) -> (outcome: Outcome)
    ensures
        outcome.reply@ == ReplyValue::Items(store@),
        !outcome.persist,
{
    Outcome { reply: Reply::Items(store.list()), persist: false }
}

/// Updates by identifier. `id` comes from the request's path and decides;
/// of `item`, the request's body, only the name is used. The first record
/// that carries `id` gets that name and the collection is to be written
/// out; without such a record nothing changes and nothing is written.
pub fn update_item(store: &mut Store, id: usize, item: Item) -> (outcome: Outcome)
    ensures
        final(store)@ == renamed(old(store)@, id as nat, item.name@),
        outcome.persist == has_id(old(store)@, id as nat),
        outcome.reply@ == answer_by_id(old(store)@, id as nat),
{
    if store.update(id, item.name) {
        Outcome { reply: Reply::Done, persist: true }
    } else {
        Outcome { reply: Reply::NotFound, persist: false }
    }
}

/// Deletes by identifier. Every record that carries `id` is removed and the
/// collection is to be written out; without such a record nothing changes
/// and nothing is written.
pub fn delete_item(store: &mut Store, id: usize) -> (outcome: Outcome)
    ensures
        final(store)@ == without_id(old(store)@, id as nat),
        outcome.persist == has_id(old(store)@, id as nat),
        outcome.reply@ == answer_by_id(old(store)@, id as nat),
{
    if store.delete(id) {
        Outcome { reply: Reply::Done, persist: true }
    } else {
        Outcome { reply: Reply::NotFound, persist: false }
    }
}

/// What the file of the collection held when the service started.
#[derive(Debug, PartialEq, Eq)]
pub enum Persisted {
    /// There is no file.
    Missing,
    /// There is a file, and what it holds cannot be read as a collection.
    Malformed,
    /// The collection that the file holds.
    Records(Vec<Item>),
}

/// The collection that a start begins with.
pub open spec fn loaded(persisted: Persisted) -> Seq<Record> {
    match persisted {
        Persisted::Records(items) => records_of(items@),
        _ => Seq::empty(),
    }
}

/// Makes the store that the service starts with. A missing file and a file
/// that does not parse both give the empty collection: neither is an error,
/// and nothing tells the two apart afterwards.
pub fn load_items(persisted: Persisted) -> (store: Store)
    ensures
        store@ == loaded(persisted),
{
    match persisted {
        Persisted::Records(items) => Store::from_items(items),
        _ => Store::new(),
    }
}

/// The answer of the clock request.
#[derive(Debug, PartialEq, Eq)]
pub struct Info {
    pub time: String,
}

impl Info {
    /// The answer that carries `time`.
    pub fn new(time: String) -> (info: Info)
        ensures
            info.time@ == time@,
    {
        Info { time }
    }
}

/// A character that a date, a time of day or an offset from UTC is written
/// with: a digit, a sign, a colon, a point or a blank.
pub open spec fn is_time_char(c: char) -> bool {
    ||| '0' <= c <= '9'
    ||| c == '-'
    ||| c == '+'
    ||| c == ':'
    ||| c == '.'
    ||| c == ' '
}

/// What holds of every text of a local time: it is made of the characters
/// of a date, a time of day and an offset, and it has room for the shortest
/// of each with a blank between them, `2024-05-06 07:08:09 +00:00`.
pub open spec fn is_time_text(text: Seq<char>) -> bool {
    &&& text.len() >= 26
    &&& forall|i: int| 0 <= i < text.len() ==> is_time_char(#[trigger] text[i])
}

/// The local time of this moment as text: what `chrono::Local::now` gives,
/// formatted by the `Display` impl of `chrono::DateTime`. Which moment the
/// text tells depends on the clock and on the time zone of the machine, and
/// nothing is claimed of that. What is claimed is the form that chrono
/// writes whatever the moment: the date in ten characters or more, a blank,
/// the time of day in eight or more, a blank, the offset in six or more, all
/// of them digits, signs, colons and a point. chrono panics where the clock
/// stands before 1970, where the time zone data of the machine yields no
/// local time for the moment, and where it yields an offset of a day or
/// more.
#[verifier::external_body]
fn local_time_text() -> (text: String)
    ensures
        is_time_text(text@),
{
    chrono::Local::now().to_string()
}

/// Answers the clock request with the local time of this moment, as chrono
/// writes it. The store plays no part in it. Which moment the text tells is
/// the clock's affair; its form is stated.
///
/// The call panics in three states of the machine: the clock stands before
/// 1970, the time zone data yields no local time for the moment, or it
/// yields an offset of a day or more.
pub fn get_system_info() -> (info: Info)
    ensures
        is_time_text(info.time@),
{
    Info::new(local_time_text())
}

} // verus!

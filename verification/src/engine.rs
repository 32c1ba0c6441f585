use vstd::prelude::*;
use crate::error::DbError;
use crate::error::DbErrorView;

verus! {

/// One entry of an atomic batch.
#[derive(Clone, Debug, PartialEq, Eq)]
pub enum BatchOp {
    /// Store the value under the key.
    Put(Vec<u8>, Vec<u8>),
    /// Remove whatever is stored under the key.
    Delete(Vec<u8>),
}

/// A [`BatchOp`] over byte sequences.
pub enum BatchOpView {
    Put(Seq<u8>, Seq<u8>),
    Delete(Seq<u8>),
}

impl View for BatchOp {
    type V = BatchOpView;

    open spec fn view(&self) -> BatchOpView {
        match *self {
            BatchOp::Put(k, v) => BatchOpView::Put(k@, v@),
            BatchOp::Delete(k) => BatchOpView::Delete(k@),
        }
    }
}

/// The bytes of an optional byte string.
pub open spec fn stored_bytes(bytes: Option<Vec<u8>>) -> Option<Seq<u8>> {
    match bytes {
        Some(held) => Some(held@),
        None => None,
    }
}

/// The byte sequences that a list of keys holds, in order.
pub open spec fn keys_view(keys: Seq<Vec<u8>>) -> Seq<Seq<u8>> {
    Seq::new(keys.len(), |i: int| keys[i]@)
}

/// The key and value bytes that a list of pairs holds, in order.
pub open spec fn pairs_view(pairs: Seq<(Vec<u8>, Vec<u8>)>) -> Seq<(Seq<u8>, Seq<u8>)> {
    Seq::new(pairs.len(), |i: int| (pairs[i].0@, pairs[i].1@))
}

/// The entries of a batch over byte sequences, in order.
pub open spec fn batch_view(ops: Seq<BatchOp>) -> Seq<BatchOpView> {
    Seq::new(ops.len(), |i: int| ops[i]@)
}

/// What an operation hands back when it goes through.
#[derive(Clone, Debug, PartialEq, Eq)]
pub enum Reply {
    /// Nothing to report: a write, a removal or a flush was carried out.
    Unit,
    /// The payload stored under one key, if the key holds a record.
    Value(Option<Vec<u8>>),
    /// Keys with their payloads, in the order the engine yielded the keys.
    Entries(Vec<(Vec<u8>, Vec<u8>)>),
}

/// A [`Reply`] over byte sequences.
pub enum ReplyView {
    Unit,
    Value(Option<Seq<u8>>),
    Entries(Seq<(Seq<u8>, Seq<u8>)>),
}

impl View for Reply {
    type V = ReplyView;

    open spec fn view(&self) -> ReplyView {
        match *self {
            Reply::Unit => ReplyView::Unit,
            Reply::Value(v) => ReplyView::Value(stored_bytes(v)),
            Reply::Entries(entries) => ReplyView::Entries(pairs_view(entries@)),
        }
    }
}

impl Reply {
    /// The payload that a point read handed back; nothing for any other
    /// reply.
    pub fn into_value(self) -> (value: Option<Vec<u8>>)
        ensures
            stored_bytes(value) == match self@ {
                ReplyView::Value(payload) => payload,
                _ => None,
            },
    {
        match self {
            Reply::Value(value) => value,
            _ => None,
        }
    }

    /// The entries that a prefix read handed back; none for any other
    /// reply.
    pub fn into_entries(self) -> (entries: Vec<(Vec<u8>, Vec<u8>)>)
        ensures
            pairs_view(entries@) == match self@ {
                ReplyView::Entries(found) => found,
                _ => Seq::empty(),
            },
    {
        match self {
            Reply::Entries(entries) => entries,
            _ => Vec::new(),
        }
    }
}

/// How an operation ended, over byte and character sequences.
pub open spec fn outcome_view(outcome: Result<Reply, DbError>) -> Result<ReplyView, DbErrorView> {
    match outcome {
        Ok(reply) => Ok(reply@),
        Err(e) => Err(e@),
    }
}

/// What the access layer asks the storage engine to do next. Whoever
/// drives an operation carries the action out against the store that the
/// operation opened and reports the engine's answer as an [`Event`].
#[derive(Debug, PartialEq, Eq)]
pub enum Action {
    /// Open the store at this resolved path, creating it if it is not
    /// there, or take the handle that is already open for it.
    Open(String),
    /// Read the record stored under the key.
    Get(Vec<u8>),
    /// Store the value under the key and make it durable before answering.
    Put(Vec<u8>, Vec<u8>),
    /// Remove the record stored under the key.
    Delete(Vec<u8>),
    /// Apply the entries as one atomic batch; when the flag is set, make
    /// the batch durable before answering.
    Batch(Vec<BatchOp>, bool),
    /// Start a forward iteration at the first key that is not below the
    /// given bytes, and report that key.
    Seek(Vec<u8>),
    /// Move the iteration to the next key and report it.
    Next,
    /// Persist what the engine still holds in memory.
    Flush,
    /// Nothing more to do: the operation has ended with this outcome.
    Done(Result<Reply, DbError>),
}

/// An [`Action`] over byte and character sequences.
pub enum ActionView {
    Open(Seq<char>),
    Get(Seq<u8>),
    Put(Seq<u8>, Seq<u8>),
    Delete(Seq<u8>),
    Batch(Seq<BatchOpView>, bool),
    Seek(Seq<u8>),
    Next,
    Flush,
    Done(Result<ReplyView, DbErrorView>),
}

impl View for Action {
    type V = ActionView;

    open spec fn view(&self) -> ActionView {
        match *self {
            Action::Open(path) => ActionView::Open(path@),
            Action::Get(k) => ActionView::Get(k@),
            Action::Put(k, v) => ActionView::Put(k@, v@),
            Action::Delete(k) => ActionView::Delete(k@),
            Action::Batch(ops, sync) => ActionView::Batch(batch_view(ops@), sync),
            Action::Seek(start) => ActionView::Seek(start@),
            Action::Next => ActionView::Next,
            Action::Flush => ActionView::Flush,
            Action::Done(outcome) => ActionView::Done(outcome_view(outcome)),
        }
    }
}

/// What the storage engine answered to the last [`Action`].
#[derive(Clone, Debug, PartialEq, Eq)]
pub enum Event {
    /// Nothing was asked yet.
    Start,
    /// The store is open.
    Opened,
    /// Answer to a read: the stored bytes, or nothing under that key.
    Value(Option<Vec<u8>>),
    /// Answer to a seek or a move: the key the iteration stands on, or
    /// nothing once it has run past the last key.
    Key(Option<Vec<u8>>),
    /// The write, removal, batch or flush was carried out.
    Applied,
    /// The engine failed; its message.
    Failed(String),
}

/// An [`Event`] over byte and character sequences.
pub enum EventView {
    Start,
    Opened,
    Value(Option<Seq<u8>>),
    Key(Option<Seq<u8>>),
    Applied,
    Failed(Seq<char>),
}

impl View for Event {
    type V = EventView;

    open spec fn view(&self) -> EventView {
        match *self {
            Event::Start => EventView::Start,
            Event::Opened => EventView::Opened,
            Event::Value(v) => EventView::Value(stored_bytes(v)),
            Event::Key(k) => EventView::Key(stored_bytes(k)),
            Event::Applied => EventView::Applied,
            Event::Failed(m) => EventView::Failed(m@),
        }
    }
}

/// Copies a byte string.
pub fn copy_bytes(bytes: &Vec<u8>) -> (out: Vec<u8>)
    ensures
        out@ == bytes@,
{
    vstd::slice::slice_to_vec(bytes.as_slice())
}

} // verus!

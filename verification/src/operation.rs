use vstd::prelude::*;
use crate::codec::decode;
use crate::codec::encode;
use crate::codec::with_level;
use crate::codec::without_level;
use crate::engine::batch_view;
use crate::engine::copy_bytes;
use crate::engine::keys_view;
use crate::engine::outcome_view;
use crate::engine::pairs_view;
use crate::engine::stored_bytes;
use crate::engine::Action;
use crate::engine::ActionView;
use crate::engine::BatchOp;
use crate::engine::BatchOpView;
use crate::engine::Event;
use crate::engine::EventView;
use crate::engine::Reply;
use crate::engine::ReplyView;
use crate::error::DbError;
use crate::error::DbErrorView;
use crate::gate::check_overwrite;
use crate::gate::conflict;
use crate::gate::rejects;
use crate::prefix::is_prefix;

verus! {

/// Which operation of the access layer is being carried out.
#[derive(Clone, Copy, Debug, PartialEq, Eq, Structural)]
pub enum Kind {
    Get,
    Put,
    PutBatch,
    Delete,
    DeleteBatch,
    GetPrefix,
    DeletePrefix,
    Flush,
}

/// Which answer of the engine an operation is waiting for.
#[derive(Clone, Copy, Debug, PartialEq, Eq, Structural)]
pub enum Phase {
    /// Nothing was asked yet.
    Fresh,
    /// The store is being opened.
    Opening,
    /// The record in the way of the pair under the cursor is being read.
    Checking,
    /// The write or the batch is being applied.
    Writing,
    /// The iteration is on its way over the keys.
    Scanning,
    /// The record of the key under the cursor is being read.
    Reading,
    /// The key under the cursor is being removed.
    Removing,
    /// The store is being flushed.
    Flushing,
    /// The outcome was handed out.
    Finished,
}

/// The message of the error that ends an operation when the engine's
/// answer does not fit what was asked.
pub open spec fn out_of_turn() -> Seq<char> {
    "engine answered out of turn"@
}

/// The batch that stores every pair at one level, in the order of the pairs.
pub open spec fn encoded_batch(pairs: Seq<(Seq<u8>, Seq<u8>)>, lv: u8) -> Seq<BatchOpView> {
    Seq::new(pairs.len(), |i: int| BatchOpView::Put(pairs[i].0, with_level(pairs[i].1, lv)))
}

/// The batch that removes every key, in the order of the keys.
pub open spec fn removal_batch(keys: Seq<Seq<u8>>) -> Seq<BatchOpView> {
    Seq::new(keys.len(), |i: int| BatchOpView::Delete(keys[i]))
}

/// An operation in progress, over byte and character sequences.
pub struct OperationView {
    /// Resolved path of the store the operation works on.
    pub store: Seq<char>,
    pub kind: Kind,
    /// The pairs to write (one for a put).
    pub pairs: Seq<(Seq<u8>, Seq<u8>)>,
    /// The keys to read or remove: given by the caller, or collected by
    /// the scan.
    pub keys: Seq<Seq<u8>>,
    pub prefix: Seq<u8>,
    pub level: u8,
    pub force: bool,
    pub phase: Phase,
    /// Index into `pairs` or `keys` of the item the engine was asked about.
    pub cursor: int,
    /// Keys with their payloads, as far as they have been read.
    pub entries: Seq<(Seq<u8>, Seq<u8>)>,
}

impl OperationView {
    /// This operation waiting in `phase` for the item at `cursor`.
    pub open spec fn at(self, phase: Phase, cursor: int) -> OperationView {
        OperationView { phase, cursor, ..self }
    }

    /// The operation ends with `outcome`.
    pub open spec fn finish(self, outcome: Result<ReplyView, DbErrorView>) -> (
        OperationView,
        ActionView,
    ) {
        (OperationView { phase: Phase::Finished, ..self }, ActionView::Done(outcome))
    }

    /// The operation ends because the engine's answer does not fit.
    pub open spec fn stray(self) -> (OperationView, ActionView) {
        self.finish(Err(DbErrorView::Engine(out_of_turn())))
    }

    /// What a read hands back once every key has been looked up: for a
    /// point read the payload of the one key, if it held a record; for a
    /// prefix read every entry.
    pub open spec fn reply(self) -> ReplyView {
        match self.kind {
            Kind::Get => ReplyView::Value(
                if self.entries.len() > 0 {
                    Some(self.entries[0].1)
                } else {
                    None
                },
            ),
            Kind::GetPrefix => ReplyView::Entries(self.entries),
            _ => ReplyView::Unit,
        }
    }

    /// First request to the engine once the store is open.
    pub open spec fn begin(self) -> (OperationView, ActionView) {
        match self.kind {
            Kind::Get => self.read_from(0),
            Kind::Put | Kind::PutBatch => self.check_from(0),
            Kind::Delete => self.remove_from(0),
            Kind::DeleteBatch => (
                self.at(Phase::Writing, 0),
                ActionView::Batch(removal_batch(self.keys), false),
            ),
            Kind::GetPrefix | Kind::DeletePrefix => (
                self.at(Phase::Scanning, 0),
                ActionView::Seek(self.prefix),
            ),
            Kind::Flush => (self.at(Phase::Flushing, 0), ActionView::Flush),
        }
    }

    /// Reads the record in the way of pair `i`, or, past the last pair,
    /// goes on to write.
    pub open spec fn check_from(self, i: int) -> (OperationView, ActionView) {
        if 0 <= i < self.pairs.len() {
            (self.at(Phase::Checking, i), ActionView::Get(self.pairs[i].0))
        } else {
            self.commit()
        }
    }

    /// Every pair has passed the level rule: a put writes its pair
    /// durably, a batch goes out whole and durable.
    pub open spec fn commit(self) -> (OperationView, ActionView) {
        if self.kind == Kind::Put && self.pairs.len() == 1 {
            (
                self.at(Phase::Writing, 0),
                ActionView::Put(self.pairs[0].0, with_level(self.pairs[0].1, self.level)),
            )
        } else {
            (
                self.at(Phase::Writing, 0),
                ActionView::Batch(encoded_batch(self.pairs, self.level), true),
            )
        }
    }

    /// The engine answered with the record in the way of the pair under
    /// the cursor: the operation ends with a conflict, writing nothing, or
    /// goes on to the next pair.
    pub open spec fn after_check(self, existing: Option<Seq<u8>>) -> (OperationView, ActionView) {
        if rejects(existing, self.level, self.force) {
            self.finish(Err(conflict(existing->Some_0, self.level)))
        } else {
            self.check_from(self.cursor + 1)
        }
    }

    /// The write or the batch was applied.
    pub open spec fn after_write(self) -> (OperationView, ActionView) {
        match self.kind {
            Kind::Put | Kind::PutBatch => self.finish(Ok(ReplyView::Unit)),
            Kind::DeleteBatch => (self.at(Phase::Flushing, 0), ActionView::Flush),
            _ => self.stray(),
        }
    }

    /// The iteration stands on `key`. A key that starts with the prefix
    /// is collected and the iteration moves on; the first key that does
    /// not, or the end of the keys, ends the scan.
    pub open spec fn after_key(self, key: Option<Seq<u8>>) -> (OperationView, ActionView) {
        match key {
            Some(k) => if self.prefix.is_prefix_of(k) {
                (OperationView { keys: self.keys.push(k), ..self }, ActionView::Next)
            } else {
                self.drain()
            },
            None => self.drain(),
        }
    }

    /// The scan is over: the collected keys are read, or removed. With no
    /// key to remove the operation ends at once, without a flush.
    pub open spec fn drain(self) -> (OperationView, ActionView) {
        match self.kind {
            Kind::GetPrefix => self.read_from(0),
            Kind::DeletePrefix => if self.keys.len() == 0 {
                self.finish(Ok(ReplyView::Unit))
            } else {
                self.remove_from(0)
            },
            _ => self.stray(),
        }
    }

    /// Reads the record of key `i`, or, past the last key, hands out what
    /// was read.
    pub open spec fn read_from(self, i: int) -> (OperationView, ActionView) {
        if 0 <= i < self.keys.len() {
            (self.at(Phase::Reading, i), ActionView::Get(self.keys[i]))
        } else {
            (
                OperationView { phase: Phase::Finished, entries: Seq::empty(), ..self },
                ActionView::Done(Ok(self.reply())),
            )
        }
    }

    /// The engine answered with the record of the key under the cursor. A
    /// record is entered with its header taken off; a key that holds none
    /// is passed over.
    pub open spec fn after_read(self, value: Option<Seq<u8>>) -> (OperationView, ActionView) {
        match value {
            Some(raw) => (OperationView {
                entries: self.entries.push((self.keys[self.cursor], without_level(raw))),
                ..self
            }).read_from(self.cursor + 1),
            None => self.read_from(self.cursor + 1),
        }
    }

    /// Removes key `i`, or, past the last key, flushes the store.
    pub open spec fn remove_from(self, i: int) -> (OperationView, ActionView) {
        if 0 <= i < self.keys.len() {
            (self.at(Phase::Removing, i), ActionView::Delete(self.keys[i]))
        } else {
            (self.at(Phase::Flushing, 0), ActionView::Flush)
        }
    }

    /// True when the cursor points at one of `n` items.
    pub open spec fn cursor_within(self, n: nat) -> bool {
        0 <= self.cursor < n
    }

    /// The transition: from the state of an operation and the engine's
    /// answer to the next state and the next request.
    ///
    /// A failure reported while the store is being opened ends the
    /// operation with an open error, one reported later with an engine
    /// error, each with the engine's message. An answer that does not fit
    /// the phase ends it with an engine error too.
    pub open spec fn next(self, event: EventView) -> (OperationView, ActionView) {
        match (self.phase, event) {
            (Phase::Fresh, EventView::Start) => (
                self.at(Phase::Opening, 0),
                ActionView::Open(self.store),
            ),
            (Phase::Opening, EventView::Opened) => self.begin(),
            (Phase::Opening, EventView::Failed(m)) => self.finish(Err(DbErrorView::Open(m))),
            (Phase::Fresh, _) | (Phase::Opening, _) | (Phase::Finished, _) => self.stray(),
            (_, EventView::Failed(m)) => self.finish(Err(DbErrorView::Engine(m))),
            (Phase::Checking, EventView::Value(existing)) => if self.cursor_within(
                self.pairs.len(),
            ) {
                self.after_check(existing)
            } else {
                self.stray()
            },
            (Phase::Writing, EventView::Applied) => self.after_write(),
            (Phase::Scanning, EventView::Key(key)) => self.after_key(key),
            (Phase::Reading, EventView::Value(value)) => if self.cursor_within(self.keys.len()) {
                self.after_read(value)
            } else {
                self.stray()
            },
            (Phase::Removing, EventView::Applied) => if self.cursor_within(self.keys.len()) {
                self.remove_from(self.cursor + 1)
            } else {
                self.stray()
            },
            (Phase::Flushing, EventView::Applied) => self.finish(Ok(ReplyView::Unit)),
            _ => self.stray(),
        }
    }
}

/// An operation of the access layer, carried out step by step: each step
/// takes the engine's answer to the last request and gives the next one,
/// until the request is [`Action::Done`].
pub struct Operation {
    store: String,
    kind: Kind,
    pairs: Vec<(Vec<u8>, Vec<u8>)>,
    keys: Vec<Vec<u8>>,
    prefix: Vec<u8>,
    level: u8,
    force: bool,
    phase: Phase,
    cursor: usize,
    entries: Vec<(Vec<u8>, Vec<u8>)>,
}

impl View for Operation {
    type V = OperationView;

    closed spec fn view(&self) -> OperationView {
        OperationView {
            store: self.store@,
            kind: self.kind,
            pairs: pairs_view(self.pairs@),
            keys: keys_view(self.keys@),
            prefix: self.prefix@,
            level: self.level,
            force: self.force,
            phase: self.phase,
            cursor: self.cursor as int,
            entries: pairs_view(self.entries@),
        }
    }
}

/// An operation of `kind` on `store` before its first step.
pub open spec fn fresh(
    store: Seq<char>,
    kind: Kind,
    pairs: Seq<(Seq<u8>, Seq<u8>)>,
    keys: Seq<Seq<u8>>,
    prefix: Seq<u8>,
    level: u8,
    force: bool,
) -> OperationView {
    OperationView {
        store,
        kind,
        pairs,
        keys,
        prefix,
        level,
        force,
        phase: Phase::Fresh,
        cursor: 0,
        entries: Seq::empty(),
    }
}

impl OperationView {
    /// A point read of `key`, before its first step.
    pub open spec fn get(store: Seq<char>, key: Seq<u8>) -> OperationView {
        fresh(store, Kind::Get, Seq::empty(), seq![key], Seq::empty(), 0, false)
    }

    /// A put of `value` under `key` at level `lv`, before its first step.
    pub open spec fn put(
        store: Seq<char>,
        key: Seq<u8>,
        value: Seq<u8>,
        lv: u8,
        force: bool,
    ) -> OperationView {
        fresh(store, Kind::Put, seq![(key, value)], Seq::empty(), Seq::empty(), lv, force)
    }

    /// A batch of writes at level `lv`, before its first step.
    pub open spec fn put_batch(
        store: Seq<char>,
        pairs: Seq<(Seq<u8>, Seq<u8>)>,
        lv: u8,
        force: bool,
    ) -> OperationView {
        fresh(store, Kind::PutBatch, pairs, Seq::empty(), Seq::empty(), lv, force)
    }

    /// A removal of `key`, before its first step.
    pub open spec fn delete(store: Seq<char>, key: Seq<u8>) -> OperationView {
        fresh(store, Kind::Delete, Seq::empty(), seq![key], Seq::empty(), 0, false)
    }

    /// A batch of removals, before its first step.
    pub open spec fn delete_batch(store: Seq<char>, keys: Seq<Seq<u8>>) -> OperationView {
        fresh(store, Kind::DeleteBatch, Seq::empty(), keys, Seq::empty(), 0, false)
    }

    /// A read of every record under `prefix`, before its first step.
    pub open spec fn get_prefix(store: Seq<char>, prefix: Seq<u8>) -> OperationView {
        fresh(store, Kind::GetPrefix, Seq::empty(), Seq::empty(), prefix, 0, false)
    }

    /// A removal of every record under `prefix`, before its first step.
    pub open spec fn delete_prefix(store: Seq<char>, prefix: Seq<u8>) -> OperationView {
        fresh(store, Kind::DeletePrefix, Seq::empty(), Seq::empty(), prefix, 0, false)
    }

    /// A flush, before its first step.
    pub open spec fn flush(store: Seq<char>) -> OperationView {
        fresh(store, Kind::Flush, Seq::empty(), Seq::empty(), Seq::empty(), 0, false)
    }
}

impl Operation {
    fn start(
        store: String,
        kind: Kind,
        pairs: Vec<(Vec<u8>, Vec<u8>)>,
        keys: Vec<Vec<u8>>,
        prefix: Vec<u8>,
        level: u8,
        force: bool,
    ) -> (op: Operation)
        ensures
            op@ == fresh(store@, kind, pairs_view(pairs@), keys_view(keys@), prefix@, level, force),
    {
        let op = Operation {
            store,
            kind,
            pairs,
            keys,
            prefix,
            level,
            force,
            phase: Phase::Fresh,
            cursor: 0,
            entries: Vec::new(),
        };
        assert(op@.entries =~= Seq::empty());
        op
    }

    /// Reads the payload stored under `key`.
    pub fn get(store: String, key: Vec<u8>) -> (op: Operation)
        ensures
            op@ == OperationView::get(store@, key@),
    {
        let mut keys: Vec<Vec<u8>> = Vec::new();
        keys.push(key);
        let pairs: Vec<(Vec<u8>, Vec<u8>)> = Vec::new();
        assert(keys_view(keys@) =~= seq![key@]);
        assert(pairs_view(pairs@) =~= Seq::empty());
        Operation::start(store, Kind::Get, pairs, keys, Vec::new(), 0, false)
    }

    /// Writes `value` under `key` at level `level`, subject to the level
    /// rule unless `force` is set.
    pub fn put(store: String, key: Vec<u8>, value: Vec<u8>, level: u8, force: bool) -> (op:
        Operation)
        ensures
            op@ == OperationView::put(store@, key@, value@, level, force),
    {
        let mut pairs: Vec<(Vec<u8>, Vec<u8>)> = Vec::new();
        pairs.push((key, value));
        let keys: Vec<Vec<u8>> = Vec::new();
        assert(pairs_view(pairs@) =~= seq![(key@, value@)]);
        assert(keys_view(keys@) =~= Seq::empty());
        Operation::start(store, Kind::Put, pairs, keys, Vec::new(), level, force)
    }

    /// Writes every pair at level `level` as one atomic batch, once each
    /// pair has passed the level rule (or `force` is set).
    pub fn put_batch(store: String, pairs: Vec<(Vec<u8>, Vec<u8>)>, level: u8, force: bool) -> (op:
        Operation)
        ensures
            op@ == OperationView::put_batch(store@, pairs_view(pairs@), level, force),
    {
        let keys: Vec<Vec<u8>> = Vec::new();
        assert(keys_view(keys@) =~= Seq::empty());
        Operation::start(store, Kind::PutBatch, pairs, keys, Vec::new(), level, force)
    }

    /// Removes whatever is stored under `key`, then flushes the store.
    pub fn delete(store: String, key: Vec<u8>) -> (op: Operation)
        ensures
            op@ == OperationView::delete(store@, key@),
    {
        let mut keys: Vec<Vec<u8>> = Vec::new();
        keys.push(key);
        let pairs: Vec<(Vec<u8>, Vec<u8>)> = Vec::new();
        assert(keys_view(keys@) =~= seq![key@]);
        assert(pairs_view(pairs@) =~= Seq::empty());
        Operation::start(store, Kind::Delete, pairs, keys, Vec::new(), 0, false)
    }

    /// Removes every key as one atomic batch, then flushes the store.
    pub fn delete_batch(store: String, keys: Vec<Vec<u8>>) -> (op: Operation)
        ensures
            op@ == OperationView::delete_batch(store@, keys_view(keys@)),
    {
        let pairs: Vec<(Vec<u8>, Vec<u8>)> = Vec::new();
        assert(pairs_view(pairs@) =~= Seq::empty());
        Operation::start(store, Kind::DeleteBatch, pairs, keys, Vec::new(), 0, false)
    }

    /// Reads every record whose key starts with `prefix`.
    pub fn get_prefix(store: String, prefix: Vec<u8>) -> (op: Operation)
        ensures
            op@ == OperationView::get_prefix(store@, prefix@),
    {
        let pairs: Vec<(Vec<u8>, Vec<u8>)> = Vec::new();
        let keys: Vec<Vec<u8>> = Vec::new();
        assert(pairs_view(pairs@) =~= Seq::empty());
        assert(keys_view(keys@) =~= Seq::empty());
        Operation::start(store, Kind::GetPrefix, pairs, keys, prefix, 0, false)
    }

    /// Removes every record whose key starts with `prefix`, then flushes
    /// the store if anything was removed.
    pub fn delete_prefix(store: String, prefix: Vec<u8>) -> (op: Operation)
        ensures
            op@ == OperationView::delete_prefix(store@, prefix@),
    {
        let pairs: Vec<(Vec<u8>, Vec<u8>)> = Vec::new();
        let keys: Vec<Vec<u8>> = Vec::new();
        assert(pairs_view(pairs@) =~= Seq::empty());
        assert(keys_view(keys@) =~= Seq::empty());
        Operation::start(store, Kind::DeletePrefix, pairs, keys, prefix, 0, false)
    }

    /// Persists what the engine holds in memory for the store.
    pub fn flush(store: String) -> (op: Operation)
        ensures
            op@ == OperationView::flush(store@),
    {
        let pairs: Vec<(Vec<u8>, Vec<u8>)> = Vec::new();
        let keys: Vec<Vec<u8>> = Vec::new();
        assert(pairs_view(pairs@) =~= Seq::empty());
        assert(keys_view(keys@) =~= Seq::empty());
        Operation::start(store, Kind::Flush, pairs, keys, Vec::new(), 0, false)
    }

    fn finish(&mut self, outcome: Result<Reply, DbError>) -> (action: Action)
        ensures
            (final(self)@, action@) == old(self)@.finish(outcome_view(outcome)),
    {
        self.phase = Phase::Finished;
        Action::Done(outcome)
    }

    fn stray(&mut self) -> (action: Action)
        ensures
            (final(self)@, action@) == old(self)@.stray(),
    {
        self.finish(Err(DbError::Engine("engine answered out of turn".to_owned())))
    }

    fn go(&mut self, phase: Phase, cursor: usize)
        ensures
            final(self)@ == old(self)@.at(phase, cursor as int),
    {
        self.phase = phase;
        self.cursor = cursor;
    }

    fn remove_from(&mut self, i: usize) -> (action: Action)
        ensures
            (final(self)@, action@) == old(self)@.remove_from(i as int),
    {
        if i < self.keys.len() {
            let key = copy_bytes(&self.keys[i]);
            self.go(Phase::Removing, i);
            Action::Delete(key)
        } else {
            self.go(Phase::Flushing, 0);
            Action::Flush
        }
    }

    fn read_from(&mut self, i: usize) -> (action: Action)
        ensures
            (final(self)@, action@) == old(self)@.read_from(i as int),
    {
        if i < self.keys.len() {
            let key = copy_bytes(&self.keys[i]);
            self.go(Phase::Reading, i);
            Action::Get(key)
        } else {
            let mut entries: Vec<(Vec<u8>, Vec<u8>)> = Vec::new();
            core::mem::swap(&mut self.entries, &mut entries);
            self.phase = Phase::Finished;
            assert(pairs_view(self.entries@) =~= Seq::empty());
            let reply = match self.kind {
                Kind::Get => {
                    if entries.len() > 0 {
                        let (_, payload) = entries.remove(0);
                        Reply::Value(Some(payload))
                    } else {
                        Reply::Value(None)
                    }
                },
                Kind::GetPrefix => Reply::Entries(entries),
                _ => Reply::Unit,
            };
            Action::Done(Ok(reply))
        }
    }

    fn after_read(&mut self, value: Option<Vec<u8>>) -> (action: Action)
        requires
            old(self)@.cursor_within(old(self)@.keys.len()),
        ensures
            (final(self)@, action@) == old(self)@.after_read(stored_bytes(value)),
    {
        let i = self.cursor;
        assert(i < self.keys.len());
        match value {
            Some(raw) => {
                let key = copy_bytes(&self.keys[i]);
                let payload = decode(raw.as_slice());
                self.entries.push((key, payload));
                assert(pairs_view(self.entries@) =~= pairs_view(old(self).entries@).push(
                    (key@, payload@),
                ));
            },
            None => {},
        }
        self.read_from(i + 1)
    }

    fn commit(&mut self) -> (action: Action)
        ensures
            (final(self)@, action@) == old(self)@.commit(),
    {
        let single = match self.kind {
            Kind::Put => self.pairs.len() == 1,
            _ => false,
        };
        if single {
            let key = copy_bytes(&self.pairs[0].0);
            let stored = encode(self.pairs[0].1.as_slice(), self.level);
            self.go(Phase::Writing, 0);
            Action::Put(key, stored)
        } else {
            let mut ops: Vec<BatchOp> = Vec::new();
            let mut i: usize = 0;
            while i < self.pairs.len()
                invariant
                    i <= self.pairs.len(),
                    ops.len() == i,
                    forall|j: int|
                        0 <= j < i ==> ops@[j]@ == #[trigger] encoded_batch(
                            pairs_view(self.pairs@),
                            self.level,
                        )[j],
                decreases self.pairs.len() - i,
            {
                let key = copy_bytes(&self.pairs[i].0);
                let stored = encode(self.pairs[i].1.as_slice(), self.level);
                ops.push(BatchOp::Put(key, stored));
                i += 1;
            }
            assert(batch_view(ops@) =~= encoded_batch(pairs_view(self.pairs@), self.level));
            self.go(Phase::Writing, 0);
            Action::Batch(ops, true)
        }
    }

    fn check_from(&mut self, i: usize) -> (action: Action)
        ensures
            (final(self)@, action@) == old(self)@.check_from(i as int),
    {
        if i < self.pairs.len() {
            let key = copy_bytes(&self.pairs[i].0);
            self.go(Phase::Checking, i);
            Action::Get(key)
        } else {
            self.commit()
        }
    }

    fn after_check(&mut self, existing: Option<Vec<u8>>) -> (action: Action)
        requires
            old(self)@.cursor_within(old(self)@.pairs.len()),
        ensures
            (final(self)@, action@) == old(self)@.after_check(stored_bytes(existing)),
    {
        let i = self.cursor;
        assert(i < self.pairs.len());
        match check_overwrite(&existing, self.level, self.force) {
            Err(e) => self.finish(Err(e)),
            Ok(()) => self.check_from(i + 1),
        }
    }

    fn after_write(&mut self) -> (action: Action)
        ensures
            (final(self)@, action@) == old(self)@.after_write(),
    {
        match self.kind {
            Kind::Put | Kind::PutBatch => self.finish(Ok(Reply::Unit)),
            Kind::DeleteBatch => {
                self.go(Phase::Flushing, 0);
                Action::Flush
            },
            _ => self.stray(),
        }
    }

    fn drain(&mut self) -> (action: Action)
        ensures
            (final(self)@, action@) == old(self)@.drain(),
    {
        match self.kind {
            Kind::GetPrefix => self.read_from(0),
            Kind::DeletePrefix => {
                if self.keys.len() == 0 {
                    self.finish(Ok(Reply::Unit))
                } else {
                    self.remove_from(0)
                }
            },
            _ => self.stray(),
        }
    }

    fn after_key(&mut self, key: Option<Vec<u8>>) -> (action: Action)
        ensures
            (final(self)@, action@) == old(self)@.after_key(stored_bytes(key)),
    {
        match key {
            Some(k) => {
                if is_prefix(self.prefix.as_slice(), k.as_slice()) {
                    self.keys.push(k);
                    assert(keys_view(self.keys@) =~= keys_view(old(self).keys@).push(k@));
                    Action::Next
                } else {
                    self.drain()
                }
            },
            None => self.drain(),
        }
    }

    fn begin(&mut self) -> (action: Action)
        ensures
            (final(self)@, action@) == old(self)@.begin(),
    {
        match self.kind {
            Kind::Get => self.read_from(0),
            Kind::Put | Kind::PutBatch => self.check_from(0),
            Kind::Delete => self.remove_from(0),
            Kind::DeleteBatch => {
                let mut ops: Vec<BatchOp> = Vec::new();
                let mut i: usize = 0;
                while i < self.keys.len()
                    invariant
                        i <= self.keys.len(),
                        ops.len() == i,
                        forall|j: int|
                            0 <= j < i ==> ops@[j]@ == #[trigger] removal_batch(
                                keys_view(self.keys@),
                            )[j],
                    decreases self.keys.len() - i,
                {
                    ops.push(BatchOp::Delete(copy_bytes(&self.keys[i])));
                    i += 1;
                }
                assert(batch_view(ops@) =~= removal_batch(keys_view(self.keys@)));
                self.go(Phase::Writing, 0);
                Action::Batch(ops, false)
            },
            Kind::GetPrefix | Kind::DeletePrefix => {
                let start = copy_bytes(&self.prefix);
                self.go(Phase::Scanning, 0);
                Action::Seek(start)
            },
            Kind::Flush => {
                self.go(Phase::Flushing, 0);
                Action::Flush
            },
        }
    }

    /// Takes the engine's answer to the last request and gives the next
    /// request. The first call takes [`Event::Start`]; the request
    /// [`Action::Done`] carries the outcome and ends the operation.
    pub fn step(&mut self, event: Event) -> (action: Action)
        ensures
            (final(self)@, action@) == old(self)@.next(event@),
    {
        match self.phase {
            Phase::Fresh => match event {
                Event::Start => {
                    let path = self.store.clone();
                    self.go(Phase::Opening, 0);
                    Action::Open(path)
                },
                _ => self.stray(),
            },
            Phase::Opening => match event {
                Event::Opened => self.begin(),
                Event::Failed(m) => self.finish(Err(DbError::Open(m))),
                _ => self.stray(),
            },
            Phase::Finished => self.stray(),
            Phase::Checking => match event {
                Event::Failed(m) => self.finish(Err(DbError::Engine(m))),
                Event::Value(existing) => {
                    if self.cursor < self.pairs.len() {
                        self.after_check(existing)
                    } else {
                        self.stray()
                    }
                },
                _ => self.stray(),
            },
            Phase::Writing => match event {
                Event::Failed(m) => self.finish(Err(DbError::Engine(m))),
                Event::Applied => self.after_write(),
                _ => self.stray(),
            },
            Phase::Scanning => match event {
                Event::Failed(m) => self.finish(Err(DbError::Engine(m))),
                Event::Key(key) => self.after_key(key),
                _ => self.stray(),
            },
            Phase::Reading => match event {
                Event::Failed(m) => self.finish(Err(DbError::Engine(m))),
                Event::Value(value) => {
                    if self.cursor < self.keys.len() {
                        self.after_read(value)
                    } else {
                        self.stray()
                    }
                },
                _ => self.stray(),
            },
            Phase::Removing => match event {
                Event::Failed(m) => self.finish(Err(DbError::Engine(m))),
                Event::Applied => {
                    if self.cursor < self.keys.len() {
                        let i = self.cursor;
                        self.remove_from(i + 1)
                    } else {
                        self.stray()
                    }
                },
                _ => self.stray(),
            },
            Phase::Flushing => match event {
                Event::Failed(m) => self.finish(Err(DbError::Engine(m))),
                Event::Applied => self.finish(Ok(Reply::Unit)),
                _ => self.stray(),
            },
        }
    }

    /// Which operation this is.
    pub fn kind(&self) -> (k: Kind)
        ensures
            k == self@.kind,
    {
        self.kind
    }

    /// True once the outcome was handed out.
    pub fn is_finished(&self) -> (b: bool)
        ensures
            b == (self@.phase == Phase::Finished),
    {
        match self.phase {
            Phase::Finished => true,
            _ => false,
        }
    }
}

} // verus!

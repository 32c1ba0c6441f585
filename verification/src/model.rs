use vstd::prelude::*;
use crate::engine::ActionView;
use crate::engine::BatchOpView;
use crate::engine::EventView;
use crate::engine::ReplyView;
use crate::error::DbErrorView;
use crate::operation::OperationView;
use crate::prefix::ascending;
use crate::prefix::lex_le;

verus! {

/// A storage engine as the access layer expects it to behave when nothing
/// fails and nobody else writes: the records of one store, and a forward
/// iteration over its keys.
pub struct World {
    /// The stored bytes under each key.
    pub records: Map<Seq<u8>, Seq<u8>>,
    /// The keys that an iteration yields from where it was sought, in the
    /// order in which it yields them.
    pub feed: Seq<Seq<u8>>,
    /// How many keys the iteration has moved past.
    pub at: int,
}

/// What one entry of a batch does to the records.
pub open spec fn apply_entry(records: Map<Seq<u8>, Seq<u8>>, entry: BatchOpView) -> Map<
    Seq<u8>,
    Seq<u8>,
> {
    match entry {
        BatchOpView::Put(k, v) => records.insert(k, v),
        BatchOpView::Delete(k) => records.remove(k),
    }
}

/// What a batch does to the records: its entries one after the other.
pub open spec fn apply_batch(records: Map<Seq<u8>, Seq<u8>>, ops: Seq<BatchOpView>) -> Map<
    Seq<u8>,
    Seq<u8>,
>
    decreases ops.len(),
{
    if ops.len() == 0 {
        records
    } else {
        apply_entry(apply_batch(records, ops.drop_last()), ops.last())
    }
}

/// The iteration that an engine starts at `start` over the keys `keys`:
/// every key that is not below `start`, each once, in ascending order.
pub open spec fn lists_from(feed: Seq<Seq<u8>>, keys: Set<Seq<u8>>, start: Seq<u8>) -> bool {
    &&& ascending(feed)
    &&& forall|i: int|
        0 <= i < feed.len() ==> keys.contains(#[trigger] feed[i]) && lex_le(start, feed[i])
    &&& forall|k: Seq<u8>| #[trigger] keys.contains(k) && lex_le(start, k) ==> feed.contains(k)
}

impl World {
    /// The stored bytes under `key`, if the key holds a record.
    pub open spec fn lookup(self, key: Seq<u8>) -> Option<Seq<u8>> {
        if self.records.contains_key(key) {
            Some(self.records[key])
        } else {
            None
        }
    }

    /// The key the iteration stands on after moving past `at` keys.
    pub open spec fn key_at(self, at: int) -> Option<Seq<u8>> {
        if 0 <= at < self.feed.len() {
            Some(self.feed[at])
        } else {
            None
        }
    }

    /// These records with the iteration at `at`.
    pub open spec fn moved(self, at: int) -> World {
        World { at, ..self }
    }

    /// This iteration over the records `records`.
    pub open spec fn holding(self, records: Map<Seq<u8>, Seq<u8>>) -> World {
        World { records, ..self }
    }

    /// What the engine does on a request and what it answers.
    pub open spec fn answer(self, action: ActionView) -> (World, EventView) {
        match action {
            ActionView::Open(_) => (self, EventView::Opened),
            ActionView::Get(k) => (self, EventView::Value(self.lookup(k))),
            ActionView::Put(k, v) => (self.holding(self.records.insert(k, v)), EventView::Applied),
            ActionView::Delete(k) => (self.holding(self.records.remove(k)), EventView::Applied),
            ActionView::Batch(ops, _) => (
                self.holding(apply_batch(self.records, ops)),
                EventView::Applied,
            ),
            ActionView::Seek(_) => (self.moved(0), EventView::Key(self.key_at(0))),
            ActionView::Next => (
                self.moved(self.at + 1),
                EventView::Key(self.key_at(self.at + 1)),
            ),
            ActionView::Flush => (self, EventView::Applied),
            ActionView::Done(_) => (self, EventView::Start),
        }
    }
}

/// An operation carried out against the engine: starting from `event`,
/// each request goes to the engine and its answer back into the operation,
/// at most `fuel` times. Gives the outcome, if the operation ended within
/// that many steps, and the engine as the operation left it.
pub open spec fn run(op: OperationView, world: World, event: EventView, fuel: nat) -> (
    Option<Result<ReplyView, DbErrorView>>,
    World,
)
    decreases fuel,
{
    if fuel == 0 {
        (None, world)
    } else {
        let (after, action) = op.next(event);
        match action {
            ActionView::Done(outcome) => (Some(outcome), world),
            _ => {
                let (engine, reply) = world.answer(action);
                run(after, engine, reply, (fuel - 1) as nat)
            },
        }
    }
}

/// The operation went through with `reply` and left the engine as `world`.
pub open spec fn went_through(reply: ReplyView, world: World) -> (
    Option<Result<ReplyView, DbErrorView>>,
    World,
) {
    (Some(Ok(reply)), world)
}

/// The operation ended with the error `e` and left the engine as `world`.
pub open spec fn gave_up(e: DbErrorView, world: World) -> (
    Option<Result<ReplyView, DbErrorView>>,
    World,
) {
    (Some(Err(e)), world)
}

/// An operation carried out from its first step.
pub open spec fn carry_out(op: OperationView, world: World, fuel: nat) -> (
    Option<Result<ReplyView, DbErrorView>>,
    World,
) {
    run(op, world, EventView::Start, fuel)
}

} // verus!

use vstd::prelude::*;
use crate::codec::lemma_level_round_trip;
use crate::codec::level_of;
use crate::codec::with_level;
use crate::codec::without_level;
use crate::engine::ActionView;
use crate::engine::EventView;
use crate::engine::ReplyView;
use crate::error::DbErrorView;
use crate::gate::conflict;
use crate::gate::rejects;
use crate::model::apply_batch;
use crate::model::carry_out;
use crate::model::gave_up;
use crate::model::lists_from;
use crate::model::run;
use crate::model::went_through;
use crate::model::World;
use crate::operation::encoded_batch;
use crate::operation::fresh;
use crate::operation::Kind;
use crate::operation::OperationView;
use crate::operation::Phase;
use crate::operation::removal_batch;
use crate::prefix::leading_matches;
use crate::prefix::lemma_leading_matches;
use crate::prefix::lemma_matches_lead;
use crate::prefix::lemma_prefix_is_below;

verus! {

/// The payload of what is stored under a key, if the key holds a record.
pub open spec fn payload_of(stored: Option<Seq<u8>>) -> Option<Seq<u8>> {
    match stored {
        Some(raw) => Some(without_level(raw)),
        None => None,
    }
}

/// A point read hands back the payload of the record under the key, or
/// nothing when the key holds none, and leaves the store as it was.
pub proof fn law_get(store: Seq<char>, key: Seq<u8>, world: World, fuel: nat)
    requires
        fuel >= 3,
    ensures
        carry_out(
            OperationView::get(store, key),
            world,
            fuel,
        ) == went_through(ReplyView::Value(payload_of(world.lookup(key))), world),
{
    reveal_with_fuel(run, 4);
}

/// A put that the level rule turns down ends with the conflict and writes
/// nothing. Any other put stores the value behind its level header under
/// the key and changes no other record.
pub proof fn law_put(
    store: Seq<char>,
    key: Seq<u8>,
    value: Seq<u8>,
    lv: u8,
    force: bool,
    world: World,
    fuel: nat,
)
    requires
        fuel >= 4,
    ensures
        carry_out(
            OperationView::put(store, key, value, lv, force),
            world,
            fuel,
        ) == if rejects(world.lookup(key), lv, force) {
            gave_up(conflict(world.records[key], lv), world)
        } else {
            went_through(
                ReplyView::Unit,
                world.holding(world.records.insert(key, with_level(value, lv))),
            )
        },
{
    reveal_with_fuel(run, 5);
}

/// What a put has written, a point read hands back: after a put that went
/// through, the key holds the value at the level of the put, and a read of
/// the key gives exactly the value.
pub proof fn law_get_after_put(
    store: Seq<char>,
    key: Seq<u8>,
    value: Seq<u8>,
    lv: u8,
    force: bool,
    world: World,
    fuel: nat,
)
    requires
        fuel >= 4,
        !rejects(world.lookup(key), lv, force),
    ensures
        ({
            let (_, written) = carry_out(
                OperationView::put(store, key, value, lv, force),
                world,
                fuel,
            );
            &&& written.lookup(key) == Some(with_level(value, lv))
            &&& level_of(written.records[key]) == lv
            &&& carry_out(
                OperationView::get(store, key),
                written,
                fuel,
            ) == went_through(ReplyView::Value(Some(value)), written)
        }),
{
    law_put(store, key, value, lv, force, world, fuel);
    let written = world.holding(world.records.insert(key, with_level(value, lv)));
    law_get(store, key, written, fuel);
    lemma_level_round_trip(value, lv);
}

/// Removing a key goes through whether or not the key holds a record, and
/// leaves the store without a record under that key and otherwise as it
/// was.
pub proof fn law_delete(store: Seq<char>, key: Seq<u8>, world: World, fuel: nat)
    requires
        fuel >= 4,
    ensures
        carry_out(
            OperationView::delete(store, key),
            world,
            fuel,
        ) == went_through(ReplyView::Unit, world.holding(world.records.remove(key))),
        !world.records.contains_key(key) ==> world.records.remove(key) == world.records,
{
    reveal_with_fuel(run, 5);
    if !world.records.contains_key(key) {
        assert(world.records.remove(key) =~= world.records);
    }
}

/// A flush goes through and changes no record.
pub proof fn law_flush(store: Seq<char>, world: World, fuel: nat)
    requires
        fuel >= 3,
    ensures
        carry_out(
            OperationView::flush(store),
            world,
            fuel,
        ) == went_through(ReplyView::Unit, world),
{
    reveal_with_fuel(run, 4);
}

/// The first pair, from pair `from` on, that the level rule turns down
/// against what the store holds, if there is one.
pub open spec fn first_rejected(
    pairs: Seq<(Seq<u8>, Seq<u8>)>,
    world: World,
    lv: u8,
    force: bool,
    from: int,
) -> Option<int>
    decreases pairs.len() - from,
{
    if from < 0 || from >= pairs.len() {
        None
    } else if rejects(world.lookup(pairs[from].0), lv, force) {
        Some(from)
    } else {
        first_rejected(pairs, world, lv, force, from + 1)
    }
}

/// [`first_rejected`] finds a pair exactly when some pair is turned down,
/// and then it is the earliest such pair.
pub proof fn lemma_first_rejected(
    pairs: Seq<(Seq<u8>, Seq<u8>)>,
    world: World,
    lv: u8,
    force: bool,
    from: int,
)
    requires
        0 <= from,
    ensures
        match first_rejected(pairs, world, lv, force, from) {
            Some(i) => from <= i < pairs.len() && rejects(world.lookup(pairs[i].0), lv, force)
                && forall|j: int|
                from <= j < i ==> !rejects(world.lookup(#[trigger] pairs[j].0), lv, force),
            None => forall|j: int|
                from <= j < pairs.len() ==> !rejects(
                    world.lookup(#[trigger] pairs[j].0),
                    lv,
                    force,
                ),
        },
    decreases pairs.len() - from,
{
    if from < pairs.len() && !rejects(world.lookup(pairs[from].0), lv, force) {
        lemma_first_rejected(pairs, world, lv, force, from + 1);
    }
}

/// How a batch of writes ends, given the first pair that is turned down.
pub open spec fn batch_outcome(
    pairs: Seq<(Seq<u8>, Seq<u8>)>,
    world: World,
    lv: u8,
    turned_down: Option<int>,
) -> (Option<Result<ReplyView, DbErrorView>>, World) {
    match turned_down {
        Some(i) => gave_up(conflict(world.records[pairs[i].0], lv), world),
        None => went_through(
            ReplyView::Unit,
            world.holding(apply_batch(world.records, encoded_batch(pairs, lv))),
        ),
    }
}

proof fn lemma_check_loop(op: OperationView, world: World, i: int, fuel: nat)
    requires
        op.kind == Kind::PutBatch,
        op.phase == Phase::Checking,
        op.cursor == i,
        0 <= i < op.pairs.len(),
        fuel >= op.pairs.len() - i + 1,
    ensures
        run(op, world, EventView::Value(world.lookup(op.pairs[i].0)), fuel) == batch_outcome(
            op.pairs,
            world,
            op.level,
            first_rejected(op.pairs, world, op.level, op.force, i),
        ),
    decreases op.pairs.len() - i,
{
    let (after, _) = op.next(EventView::Value(world.lookup(op.pairs[i].0)));
    if rejects(world.lookup(op.pairs[i].0), op.level, op.force) {
    } else if i + 1 < op.pairs.len() {
        lemma_check_loop(after, world, i + 1, (fuel - 1) as nat);
    } else {
        assert(first_rejected(op.pairs, world, op.level, op.force, i + 1) is None);
        reveal_with_fuel(run, 3);
    }
}

/// A batch of writes checks every pair against what the store holds
/// before the batch. If the level rule turns a pair down, the batch ends
/// with the conflict of the first such pair and the store is left as it
/// was. Otherwise every pair is stored behind its level header, in the
/// order of the pairs.
pub proof fn law_put_batch(
    store: Seq<char>,
    pairs: Seq<(Seq<u8>, Seq<u8>)>,
    lv: u8,
    force: bool,
    world: World,
    fuel: nat,
)
    requires
        fuel >= pairs.len() + 3,
    ensures
        carry_out(
            OperationView::put_batch(store, pairs, lv, force),
            world,
            fuel,
        ) == batch_outcome(pairs, world, lv, first_rejected(pairs, world, lv, force, 0)),
{
    let op = OperationView::put_batch(store, pairs, lv, force);
    reveal_with_fuel(run, 4);
    if pairs.len() > 0 {
        let (opening, _) = op.next(EventView::Start);
        let (checking, _) = opening.next(EventView::Opened);
        lemma_check_loop(checking, world, 0, (fuel - 2) as nat);
    }
}

/// A batch of writes in which some pair is turned down by the level rule
/// ends with a level conflict and changes no record: none of its keys
/// takes the value the batch had for it.
pub proof fn law_rejected_batch_writes_nothing(
    store: Seq<char>,
    pairs: Seq<(Seq<u8>, Seq<u8>)>,
    lv: u8,
    force: bool,
    world: World,
    fuel: nat,
    i: int,
)
    requires
        fuel >= pairs.len() + 3,
        0 <= i < pairs.len(),
        rejects(world.lookup(pairs[i].0), lv, force),
    ensures
        ({
            let (outcome, after) = carry_out(
                OperationView::put_batch(store, pairs, lv, force),
                world,
                fuel,
            );
            &&& outcome matches Some(Err(DbErrorView::LevelConflict { attempted, existing }))
            &&& attempted == lv
            &&& lv < existing
            &&& after == world
        }),
{
    law_put_batch(store, pairs, lv, force, world, fuel);
    lemma_first_rejected(pairs, world, lv, force, 0);
}

/// What removing every key of a list does to the records.
pub open spec fn without_keys(records: Map<Seq<u8>, Seq<u8>>, keys: Seq<Seq<u8>>) -> Map<
    Seq<u8>,
    Seq<u8>,
> {
    records.remove_keys(keys.to_set())
}

/// A batch of removals leaves exactly the records whose keys are not in
/// the batch.
pub proof fn lemma_removal_batch(records: Map<Seq<u8>, Seq<u8>>, keys: Seq<Seq<u8>>)
    ensures
        apply_batch(records, removal_batch(keys)) == without_keys(records, keys),
    decreases keys.len(),
{
    if keys.len() == 0 {
        assert(without_keys(records, keys) =~= records);
    } else {
        let front = keys.drop_last();
        lemma_removal_batch(records, front);
        assert(removal_batch(keys).drop_last() =~= removal_batch(front));
        assert(without_keys(records, front).remove(keys.last()) =~= without_keys(
            records,
            keys,
        )) by {
            assert forall|k: Seq<u8>| keys.to_set().contains(k) <==> front.to_set().contains(k)
                || k == keys.last() by {
                if keys.to_set().contains(k) {
                    let j = choose|j: int| 0 <= j < keys.len() && keys[j] == k;
                    if j < keys.len() - 1 {
                        assert(front[j] == k);
                    }
                }
                if front.to_set().contains(k) {
                    let j = choose|j: int| 0 <= j < front.len() && front[j] == k;
                    assert(keys[j] == k);
                }
                if k == keys.last() {
                    assert(keys[keys.len() - 1] == k);
                }
            }
        }
    }
}

/// A batch of removals goes through and leaves exactly the records whose
/// keys are not in the batch.
pub proof fn law_delete_batch(store: Seq<char>, keys: Seq<Seq<u8>>, world: World, fuel: nat)
    requires
        fuel >= 4,
    ensures
        carry_out(
            OperationView::delete_batch(store, keys),
            world,
            fuel,
        ) == went_through(ReplyView::Unit, world.holding(without_keys(world.records, keys))),
{
    reveal_with_fuel(run, 5);
    lemma_removal_batch(world.records, keys);
}

/// The keys with their payloads, in the order of the keys.
pub open spec fn entries_of(keys: Seq<Seq<u8>>, records: Map<Seq<u8>, Seq<u8>>) -> Seq<
    (Seq<u8>, Seq<u8>),
> {
    Seq::new(keys.len(), |i: int| (keys[i], without_level(records[keys[i]])))
}

/// The keys that a scan for `prefix` collects from an iteration: the ones
/// at its front that start with `prefix`.
pub open spec fn scanned(prefix: Seq<u8>, feed: Seq<Seq<u8>>) -> Seq<Seq<u8>> {
    feed.subrange(0, leading_matches(prefix, feed) as int)
}

/// Over an iteration that lists the keys of a store from `prefix` on, a
/// scan collects exactly the keys of the store that start with `prefix`,
/// in ascending order and each once.
pub proof fn lemma_scan_finds_all(prefix: Seq<u8>, feed: Seq<Seq<u8>>, keys: Set<Seq<u8>>)
    requires
        lists_from(feed, keys, prefix),
    ensures
        forall|k: Seq<u8>|
            scanned(prefix, feed).contains(k) <==> #[trigger] keys.contains(k)
                && prefix.is_prefix_of(k),
        crate::prefix::ascending(scanned(prefix, feed)),
{
    let found = scanned(prefix, feed);
    lemma_leading_matches(prefix, feed);
    assert forall|k: Seq<u8>|
        found.contains(k) <==> #[trigger] keys.contains(k) && prefix.is_prefix_of(k) by {
        if found.contains(k) {
            let i = choose|i: int| 0 <= i < found.len() && found[i] == k;
            assert(feed[i] == k);
        }
        if keys.contains(k) && prefix.is_prefix_of(k) {
            lemma_prefix_is_below(prefix, k);
            assert(feed.contains(k));
            let i = choose|i: int| 0 <= i < feed.len() && feed[i] == k;
            lemma_matches_lead(prefix, feed, i);
            assert(found[i] == k);
        }
    }
    assert forall|i: int, j: int| 0 <= i < j < found.len() implies crate::prefix::lex_le(
        #[trigger] found[i],
        #[trigger] found[j],
    ) && found[i] != found[j] by {
        assert(found[i] == feed[i] && found[j] == feed[j]);
    }
}

proof fn lemma_scan_loop(op: OperationView, world: World, j: int, fuel: nat)
    requires
        op.kind == Kind::GetPrefix || op.kind == Kind::DeletePrefix,
        op.phase == Phase::Scanning,
        world.at == j,
        0 <= j <= leading_matches(op.prefix, world.feed),
        op.keys == world.feed.subrange(0, j),
        fuel >= leading_matches(op.prefix, world.feed) - j,
    ensures
        run(op, world, EventView::Key(world.key_at(j)), fuel) == run(
            OperationView { keys: scanned(op.prefix, world.feed), ..op },
            world.moved(leading_matches(op.prefix, world.feed) as int),
            EventView::Key(world.key_at(leading_matches(op.prefix, world.feed) as int)),
            (fuel - (leading_matches(op.prefix, world.feed) - j)) as nat,
        ),
    decreases leading_matches(op.prefix, world.feed) - j,
{
    let m = leading_matches(op.prefix, world.feed) as int;
    lemma_leading_matches(op.prefix, world.feed);
    if j < m {
        let (after, action) = op.next(EventView::Key(world.key_at(j)));
        assert(op.prefix.is_prefix_of(world.feed[j]));
        assert(after.keys =~= world.feed.subrange(0, j + 1));
        let (engine, reply) = world.answer(action);
        lemma_scan_loop(after, engine, j + 1, (fuel - 1) as nat);
        assert(OperationView { keys: scanned(op.prefix, world.feed), ..after } == OperationView {
            keys: scanned(op.prefix, world.feed),
            ..op
        });
    } else {
        assert(op.keys =~= scanned(op.prefix, world.feed));
        assert(world.moved(m) == world);
    }
}

proof fn lemma_read_loop(op: OperationView, world: World, i: int, fuel: nat)
    requires
        op.kind == Kind::GetPrefix,
        op.phase == Phase::Reading,
        op.cursor == i,
        0 <= i < op.keys.len(),
        forall|j: int| 0 <= j < op.keys.len() ==> world.records.contains_key(#[trigger] op.keys[j]),
        op.entries == entries_of(op.keys, world.records).subrange(0, i),
        fuel >= op.keys.len() - i,
    ensures
        run(op, world, EventView::Value(world.lookup(op.keys[i])), fuel) == went_through(
            ReplyView::Entries(entries_of(op.keys, world.records)),
            world,
        ),
    decreases op.keys.len() - i,
{
    let all = entries_of(op.keys, world.records);
    let (after, action) = op.next(EventView::Value(world.lookup(op.keys[i])));
    assert(op.entries.push((op.keys[i], without_level(world.records[op.keys[i]])))
        =~= all.subrange(0, i + 1));
    if i + 1 < op.keys.len() {
        lemma_read_loop(after, world, i + 1, (fuel - 1) as nat);
    } else {
        assert(all.subrange(0, i + 1) =~= all);
    }
}

/// The records that are left when the keys from key `from` on are removed
/// one after the other.
pub open spec fn drop_keys(records: Map<Seq<u8>, Seq<u8>>, keys: Seq<Seq<u8>>, from: int) -> Map<
    Seq<u8>,
    Seq<u8>,
>
    decreases keys.len() - from,
{
    if from < 0 || from >= keys.len() {
        records
    } else {
        drop_keys(records.remove(keys[from]), keys, from + 1)
    }
}

/// Removing keys one after the other leaves exactly the records whose
/// keys are not among them.
pub proof fn lemma_drop_keys(records: Map<Seq<u8>, Seq<u8>>, keys: Seq<Seq<u8>>, from: int)
    requires
        0 <= from <= keys.len(),
    ensures
        drop_keys(records, keys, from) == without_keys(
            records,
            keys.subrange(from, keys.len() as int),
        ),
    decreases keys.len() - from,
{
    let rest = keys.subrange(from, keys.len() as int);
    if from == keys.len() {
        assert(without_keys(records, rest) =~= records);
    } else {
        let later = keys.subrange(from + 1, keys.len() as int);
        lemma_drop_keys(records.remove(keys[from]), keys, from + 1);
        assert(without_keys(records.remove(keys[from]), later) =~= without_keys(records, rest)) by {
            assert forall|k: Seq<u8>| rest.to_set().contains(k) <==> later.to_set().contains(k)
                || k == keys[from] by {
                if rest.to_set().contains(k) {
                    let j = choose|j: int| 0 <= j < rest.len() && rest[j] == k;
                    if j > 0 {
                        assert(later[j - 1] == k);
                    }
                }
                if later.to_set().contains(k) {
                    let j = choose|j: int| 0 <= j < later.len() && later[j] == k;
                    assert(rest[j + 1] == k);
                }
                if k == keys[from] {
                    assert(rest[0] == k);
                }
            }
        }
    }
}

proof fn lemma_remove_loop(op: OperationView, world: World, i: int, fuel: nat)
    requires
        op.kind == Kind::DeletePrefix,
        op.phase == Phase::Removing,
        op.cursor == i,
        0 <= i < op.keys.len(),
        fuel >= op.keys.len() - i + 1,
    ensures
        run(op, world, EventView::Applied, fuel) == went_through(
            ReplyView::Unit,
            world.holding(drop_keys(world.records, op.keys, i + 1)),
        ),
    decreases op.keys.len() - i,
{
    let (after, action) = op.next(EventView::Applied);
    if i + 1 < op.keys.len() {
        let (engine, reply) = world.answer(action);
        lemma_remove_loop(after, engine, i + 1, (fuel - 1) as nat);
    } else {
        reveal_with_fuel(run, 3);
    }
}

/// An operation on a prefix at the end of its scan: every key at the
/// front of the iteration that starts with the prefix is collected.
pub open spec fn scan_ended(op: OperationView, feed: Seq<Seq<u8>>) -> OperationView {
    OperationView { keys: scanned(op.prefix, feed), phase: Phase::Scanning, cursor: 0, ..op }
}

proof fn lemma_scan_whole(op: OperationView, world: World, fuel: nat)
    requires
        op.kind == Kind::GetPrefix || op.kind == Kind::DeletePrefix,
        op.phase == Phase::Fresh,
        op.keys.len() == 0,
        fuel >= leading_matches(op.prefix, world.feed) + 2,
    ensures
        ({
            let m = leading_matches(op.prefix, world.feed) as int;
            let ended = scan_ended(op, world.feed);
            let stopped = world.moved(m);
            &&& run(op, world, EventView::Start, fuel) == run(
                ended,
                stopped,
                EventView::Key(stopped.key_at(m)),
                (fuel - 2 - m) as nat,
            )
            &&& ended.next(EventView::Key(stopped.key_at(m))) == ended.drain()
        }),
{
    let m = leading_matches(op.prefix, world.feed) as int;
    lemma_leading_matches(op.prefix, world.feed);
    reveal_with_fuel(run, 3);
    let (opening, _) = op.next(EventView::Start);
    let (scanning, _) = opening.next(EventView::Opened);
    let sought = world.moved(0);
    assert(scanning.keys =~= sought.feed.subrange(0, 0));
    lemma_scan_loop(scanning, sought, 0, (fuel - 2) as nat);
    assert(sought.moved(m) == world.moved(m));
    assert(OperationView { keys: scanned(op.prefix, world.feed), ..scanning } == scan_ended(
        op,
        world.feed,
    ));
}

/// Over an iteration that lists the keys of the store from `prefix` on, a
/// prefix read hands back every record whose key starts with `prefix`,
/// each key with its payload, in ascending order of the keys, and changes
/// no record. It moves the iteration no further than the first key that
/// does not start with `prefix`.
pub proof fn law_get_prefix(store: Seq<char>, prefix: Seq<u8>, world: World, fuel: nat)
    requires
        lists_from(world.feed, world.records.dom(), prefix),
        fuel >= 2 * world.feed.len() + 4,
    ensures
        carry_out(
            OperationView::get_prefix(store, prefix),
            world,
            fuel,
        ) == went_through(
            ReplyView::Entries(entries_of(scanned(prefix, world.feed), world.records)),
            world.moved(leading_matches(prefix, world.feed) as int),
        ),
{
    let op = OperationView::get_prefix(store, prefix);
    let m = leading_matches(prefix, world.feed) as int;
    let found = scanned(prefix, world.feed);
    lemma_leading_matches(prefix, world.feed);
    lemma_scan_whole(op, world, fuel);
    let ended = scan_ended(op, world.feed);
    let stopped = world.moved(m);
    let left = (fuel - 2 - m) as nat;
    let (draining, _) = ended.drain();
    if m > 0 {
        assert(ended.entries =~= entries_of(found, world.records).subrange(0, 0));
        assert forall|j: int| 0 <= j < found.len() implies world.records.contains_key(
            #[trigger] found[j],
        ) by {
            assert(found[j] == world.feed[j]);
        }
        lemma_read_loop(draining, stopped, 0, (left - 1) as nat);
    } else {
        assert(entries_of(found, world.records) =~= Seq::empty());
    }
}

/// Over an iteration that lists the keys of the store from `prefix` on, a
/// prefix removal goes through and leaves exactly the records whose keys
/// do not start with `prefix`, each as it was.
pub proof fn law_delete_prefix(store: Seq<char>, prefix: Seq<u8>, world: World, fuel: nat)
    requires
        lists_from(world.feed, world.records.dom(), prefix),
        fuel >= 2 * world.feed.len() + 5,
    ensures
        carry_out(
            OperationView::delete_prefix(store, prefix),
            world,
            fuel,
        ) == went_through(
            ReplyView::Unit,
            world.moved(leading_matches(prefix, world.feed) as int).holding(
                without_keys(world.records, scanned(prefix, world.feed)),
            ),
        ),
        forall|k: Seq<u8>|
            #[trigger] without_keys(world.records, scanned(prefix, world.feed)).contains_key(k)
                <==> world.records.contains_key(k) && !prefix.is_prefix_of(k),
        forall|k: Seq<u8>|
            world.records.contains_key(k) && !prefix.is_prefix_of(k) ==> #[trigger] without_keys(
                world.records,
                scanned(prefix, world.feed),
            )[k] == world.records[k],
{
    let op = OperationView::delete_prefix(store, prefix);
    let m = leading_matches(prefix, world.feed) as int;
    let found = scanned(prefix, world.feed);
    lemma_leading_matches(prefix, world.feed);
    lemma_scan_finds_all(prefix, world.feed, world.records.dom());
    lemma_scan_whole(op, world, fuel);
    let ended = scan_ended(op, world.feed);
    let stopped = world.moved(m);
    let left = (fuel - 2 - m) as nat;
    let (draining, action) = ended.drain();
    if m > 0 {
        let (engine, reply) = stopped.answer(action);
        lemma_remove_loop(draining, engine, 0, (left - 1) as nat);
        lemma_drop_keys(world.records, found, 0);
        assert(found.subrange(0, found.len() as int) =~= found);
        assert(drop_keys(engine.records, found, 1) == drop_keys(world.records, found, 0));
    } else {
        assert(without_keys(world.records, found) =~= world.records);
    }
}

/// Once the records that start with `prefix` have been removed, a prefix
/// read for `prefix` finds nothing, whatever else the store holds.
pub proof fn law_nothing_left_under_prefix(
    store: Seq<char>,
    prefix: Seq<u8>,
    world: World,
    fuel: nat,
)
    requires
        lists_from(world.feed, world.records.dom(), prefix),
        forall|k: Seq<u8>| world.records.contains_key(k) ==> !prefix.is_prefix_of(k),
        fuel >= 2 * world.feed.len() + 4,
    ensures
        carry_out(
            OperationView::get_prefix(store, prefix),
            world,
            fuel,
        ) == went_through(ReplyView::Entries(Seq::empty()), world.moved(0)),
{
    law_get_prefix(store, prefix, world, fuel);
    lemma_leading_matches(prefix, world.feed);
    if leading_matches(prefix, world.feed) > 0 {
        assert(world.records.contains_key(world.feed[0]));
    }
    assert(entries_of(scanned(prefix, world.feed), world.records) =~= Seq::empty());
}

/// A step never changes what the operation is about: its kind, its store,
/// its pairs, its prefix, its level and whether it is forced.
pub proof fn law_step_keeps_request(op: OperationView, event: EventView)
    ensures
        ({
            let (after, _) = op.next(event);
            &&& after.kind == op.kind
            &&& after.store == op.store
            &&& after.pairs == op.pairs
            &&& after.prefix == op.prefix
            &&& after.level == op.level
            &&& after.force == op.force
        }),
{
}

/// What holds of every state an operation can get into: each phase
/// belongs to the kinds of operation that pass through it.
pub open spec fn coherent(op: OperationView) -> bool {
    match op.phase {
        Phase::Fresh | Phase::Opening | Phase::Finished => true,
        Phase::Checking => op.kind == Kind::Put || op.kind == Kind::PutBatch,
        Phase::Writing => op.kind == Kind::Put || op.kind == Kind::PutBatch || op.kind
            == Kind::DeleteBatch,
        Phase::Scanning => op.kind == Kind::GetPrefix || op.kind == Kind::DeletePrefix,
        Phase::Reading => op.kind == Kind::Get || op.kind == Kind::GetPrefix,
        Phase::Removing => op.kind == Kind::Delete || op.kind == Kind::DeletePrefix,
        Phase::Flushing => op.kind == Kind::Delete || op.kind == Kind::DeleteBatch || op.kind
            == Kind::DeletePrefix || op.kind == Kind::Flush,
    }
}

/// Every operation starts out coherent.
pub proof fn law_fresh_is_coherent(
    store: Seq<char>,
    kind: Kind,
    pairs: Seq<(Seq<u8>, Seq<u8>)>,
    keys: Seq<Seq<u8>>,
    prefix: Seq<u8>,
    lv: u8,
    force: bool,
)
    ensures
        coherent(fresh(store, kind, pairs, keys, prefix, lv, force)),
{
}

/// Every step keeps an operation coherent, whatever the engine answers.
pub proof fn law_coherent_is_kept(op: OperationView, event: EventView)
    requires
        coherent(op),
    ensures
        coherent(op.next(event).0),
{
}

/// Whatever the engine answers, a level conflict comes only out of the
/// level rule: the operation is a write that was not forced, and the
/// record in the way sits above the level of the write. Reads, removals
/// and flushes never end with one.
pub proof fn law_conflict_only_from_rule(op: OperationView, event: EventView)
    requires
        coherent(op),
    ensures
        op.next(event).1 matches ActionView::Done(
            Err(DbErrorView::LevelConflict { attempted, existing }),
        ) ==> {
            &&& op.kind == Kind::Put || op.kind == Kind::PutBatch
            &&& !op.force
            &&& attempted == op.level
            &&& op.level < existing
        },
{
}

/// A failure of the engine ends the operation at once: with an open error
/// while the store is being opened, with an engine error afterwards, each
/// carrying the engine's message.
pub proof fn law_failure_ends_operation(op: OperationView, m: Seq<char>)
    requires
        op.phase != Phase::Fresh,
        op.phase != Phase::Finished,
    ensures
        op.next(EventView::Failed(m)).1 == ActionView::Done(
            Err(
                if op.phase == Phase::Opening {
                    DbErrorView::Open(m)
                } else {
                    DbErrorView::Engine(m)
                },
            ),
        ),
        op.next(EventView::Failed(m)).0.phase == Phase::Finished,
{
}

/// An operation that has ended stays ended, and one that ends hands its
/// outcome out in the same step.
pub proof fn law_finished_is_final(op: OperationView, event: EventView)
    ensures
        op.phase == Phase::Finished ==> op.next(event).0.phase == Phase::Finished,
        op.next(event).0.phase == Phase::Finished <==> op.next(event).1 is Done,
{
}

/// True when the engine's answer is a record, or the lack of one, that the
/// level rule lets the operation write over.
pub open spec fn lets_through(op: OperationView, event: EventView) -> bool {
    match event {
        EventView::Value(existing) => !rejects(existing, op.level, op.force),
        _ => false,
    }
}

/// Whatever the engine answers, a write goes out only once every pair has
/// passed the level rule: the request for it comes out of the step that
/// takes the record in the way of the last pair and finds that the rule
/// lets that pair through, or, where there is no pair at all, out of the
/// step that finds the store open.
pub proof fn law_write_only_after_last_check(op: OperationView, event: EventView)
    requires
        coherent(op),
    ensures
        ({
            let (_, action) = op.next(event);
            (action is Put || action matches ActionView::Batch(_, true)) ==> {
                ||| op.phase == Phase::Opening && op.pairs.len() == 0
                ||| op.phase == Phase::Checking && op.cursor == op.pairs.len() - 1 && lets_through(
                    op,
                    event,
                )
            }
        }),
{
}

/// Whatever the engine answers, the pairs are checked one after the other
/// from the first: the first check is for pair 0, and a check for one
/// pair is followed by a check for the next only if the rule let the pair
/// through.
pub proof fn law_checks_go_in_order(op: OperationView, event: EventView)
    requires
        coherent(op),
    ensures
        ({
            let (after, action) = op.next(event);
            after.phase == Phase::Checking ==> {
                &&& action == ActionView::Get(op.pairs[after.cursor].0)
                &&& 0 <= after.cursor < op.pairs.len()
                &&& op.phase == Phase::Opening && after.cursor == 0 || op.phase == Phase::Checking
                    && after.cursor == op.cursor + 1 && lets_through(op, event)
            }
        }),
{
}

/// True when, in an operation on a prefix, every key collected so far
/// starts with the prefix.
pub open spec fn only_matching(op: OperationView) -> bool {
    op.kind == Kind::GetPrefix || op.kind == Kind::DeletePrefix ==> forall|i: int|
        0 <= i < op.keys.len() ==> op.prefix.is_prefix_of(#[trigger] op.keys[i])
}

/// Whatever the engine answers, and in whatever order it yields its keys,
/// an operation on a prefix collects only keys that start with the prefix,
/// and so reads and removes no other key.
pub proof fn law_prefix_touches_matching_keys_only(op: OperationView, event: EventView)
    requires
        coherent(op),
        only_matching(op),
        op.kind == Kind::GetPrefix || op.kind == Kind::DeletePrefix,
    ensures
        only_matching(op.next(event).0),
        op.next(event).1 matches ActionView::Get(k) ==> op.prefix.is_prefix_of(k),
        op.next(event).1 matches ActionView::Delete(k) ==> op.prefix.is_prefix_of(k),
        !(op.next(event).1 is Put),
        !(op.next(event).1 is Batch),
{
    let (after, _) = op.next(event);
    if op.phase == Phase::Scanning {
        if let EventView::Key(Some(k)) = event {
            if op.prefix.is_prefix_of(k) {
                assert forall|i: int| 0 <= i < after.keys.len() implies op.prefix.is_prefix_of(
                    #[trigger] after.keys[i],
                ) by {
                    if i < op.keys.len() {
                        assert(after.keys[i] == op.keys[i]);
                    }
                }
            }
        }
    }
}

} // verus!

use vstd::prelude::*;
use vstd::hash_map::StringHashMap;
use vstd::slice::slice_to_vec;
use vstd::string::StringExecFns;
use crate::engine::keys_view;
use crate::engine::pairs_view;
use crate::operation::Operation;
use crate::operation::OperationView;

verus! {

/// The path of a logical store on disk: the root, a slash, the logical path.
pub open spec fn resolved_path(root: Seq<char>, logical: Seq<char>) -> Seq<char> {
    root + "/"@ + logical
}

/// The handles of a registry once `handle` has been offered for the path
/// `resolved`: a path that has a handle keeps it, a path that has none
/// takes the one offered.
pub open spec fn registered<H>(before: Map<Seq<char>, H>, resolved: Seq<char>, handle: H) -> Map<
    Seq<char>,
    H,
> {
    if before.contains_key(resolved) {
        before
    } else {
        before.insert(resolved, handle)
    }
}

/// What has to happen before a logical store can be used.
pub enum Lookup<'a, H> {
    /// The store is open: this is its handle.
    Ready(&'a H),
    /// No handle yet: the store at this resolved path has to be opened and
    /// its handle registered.
    Open(String),
}

/// The access layer over the logical stores below one root directory: the
/// registry of the handles that are open, one per resolved path, and the
/// operations that can be carried out on a store.
///
/// `H` is the engine's handle to an open store. The registry owns the
/// handles; it never replaces or drops one.
#[verifier::reject_recursive_types(H)]
pub struct DbWrap<H> {
    path: String,
    dbs: StringHashMap<H>,
}

impl<H> DbWrap<H> {
    /// The root directory.
    pub closed spec fn root(&self) -> Seq<char> {
        self.path@
    }

    /// The handles that are open, by resolved path.
    pub closed spec fn handles(&self) -> Map<Seq<char>, H> {
        self.dbs@
    }

    /// The resolved path of the logical store `logical`.
    pub open spec fn store_path(&self, logical: Seq<char>) -> Seq<char> {
        resolved_path(self.root(), logical)
    }

    /// An access layer below the root directory `path`, with no store open.
    pub fn new(path: &str) -> (wrap: Self)
        ensures
            wrap.root() == path@,
            wrap.handles() == Map::<Seq<char>, H>::empty(),
    {
        DbWrap { path: String::from_str(path), dbs: StringHashMap::new() }
    }

    /// Resolves a logical path against the root.
    pub fn resolve(&self, path: &str) -> (full: String)
        ensures
            full@ == self.store_path(path@),
    {
        let mut full = self.path.clone();
        full.append("/");
        full.append(path);
        full
    }

    /// The handle that is open for a resolved path, if there is one.
    pub fn find(&self, resolved: &str) -> (found: Option<&H>)
        ensures
            match found {
                Some(handle) => self.handles().contains_key(resolved@) && *handle
                    == self.handles()[resolved@],
                None => !self.handles().contains_key(resolved@),
            },
    {
        self.dbs.get(resolved)
    }

    /// Looks the logical store `path` up: its handle if it is open, else
    /// the resolved path at which it has to be opened.
    pub fn db(&self, path: &str) -> (found: Lookup<'_, H>)
        ensures
            match found {
                Lookup::Ready(handle) => self.handles().contains_key(self.store_path(path@))
                    && *handle == self.handles()[self.store_path(path@)],
                Lookup::Open(resolved) => !self.handles().contains_key(self.store_path(path@))
                    && resolved@ == self.store_path(path@),
            },
    {
        let resolved = self.resolve(path);
        match self.dbs.get(resolved.as_str()) {
            Some(handle) => Lookup::Ready(handle),
            None => Lookup::Open(resolved),
        }
    }

    /// Enters the handle of a store that was just opened. A path that has
    /// a handle keeps it, and the new one is handed back. No other entry
    /// changes.
    pub fn register(&mut self, resolved: String, handle: H) -> (spare: Option<H>)
        ensures
            final(self).root() == old(self).root(),
            final(self).handles() == registered(old(self).handles(), resolved@, handle),
            spare == if old(self).handles().contains_key(resolved@) {
                Some(handle)
            } else {
                None
            },
    {
        if self.dbs.contains_key(resolved.as_str()) {
            Some(handle)
        } else {
            self.dbs.insert(resolved, handle);
            None
        }
    }

    /// Number of stores that are open.
    pub fn open_count(&self) -> (n: usize)
        ensures
            n == self.handles().len(),
    {
        self.dbs.len()
    }

    /// The operation that persists what the engine holds in memory for
    /// the logical store `path`.
    pub fn flush(&self, path: &str) -> (op: Operation)
        ensures
            op@ == OperationView::flush(self.store_path(path@)),
    {
        Operation::flush(self.resolve(path))
    }

    /// The operation that reads the payload stored under `k` in the
    /// logical store `path`.
    pub fn get(&self, k: &[u8], path: &str) -> (op: Operation)
        ensures
            op@ == OperationView::get(self.store_path(path@), k@),
    {
        Operation::get(self.resolve(path), slice_to_vec(k))
    }

    /// The operation that writes `v` under `k` at level `lv` in the
    /// logical store `path`, subject to the level rule unless `force` is
    /// set.
    pub fn put(&self, k: &[u8], v: Vec<u8>, lv: u8, force: bool, path: &str) -> (op: Operation)
        ensures
            op@ == OperationView::put(self.store_path(path@), k@, v@, lv, force),
    {
        Operation::put(self.resolve(path), slice_to_vec(k), v, lv, force)
    }

    /// The operation that writes every pair at level `lv` in the logical
    /// store `path` as one atomic batch, each pair subject to the level
    /// rule unless `force` is set.
    pub fn put_batch(&self, pairs: Vec<(Vec<u8>, Vec<u8>)>, lv: u8, force: bool, path: &str) -> (op:
        Operation)
        ensures
            op@ == OperationView::put_batch(self.store_path(path@), pairs_view(pairs@), lv, force),
    {
        Operation::put_batch(self.resolve(path), pairs, lv, force)
    }

    /// The operation that removes whatever is stored under `k` in the
    /// logical store `path`.
    pub fn delete(&self, k: &[u8], path: &str) -> (op: Operation)
        ensures
            op@ == OperationView::delete(self.store_path(path@), k@),
    {
        Operation::delete(self.resolve(path), slice_to_vec(k))
    }

    /// The operation that removes every key from the logical store `path`
    /// as one atomic batch.
    pub fn delete_batch(&self, keys: Vec<Vec<u8>>, path: &str) -> (op: Operation)
        ensures
            op@ == OperationView::delete_batch(self.store_path(path@), keys_view(keys@)),
    {
        Operation::delete_batch(self.resolve(path), keys)
    }

    /// The operation that reads every record of the logical store `path`
    /// whose key starts with `k`.
    pub fn get_prefix(&self, k: &[u8], path: &str) -> (op: Operation)
        ensures
            op@ == OperationView::get_prefix(self.store_path(path@), k@),
    {
        Operation::get_prefix(self.resolve(path), slice_to_vec(k))
    }

    /// The operation that removes every record of the logical store
    /// `path` whose key starts with `k`.
    pub fn delete_prefix(&self, k: &[u8], path: &str) -> (op: Operation)
        ensures
            op@ == OperationView::delete_prefix(self.store_path(path@), k@),
    {
        Operation::delete_prefix(self.resolve(path), slice_to_vec(k))
    }
}

/// Registering a handle leaves every store that was open exactly as it was,
/// same path and same handle, and leaves the path it was offered for with
/// a handle.
pub proof fn lemma_register_keeps_handles<H>(
    before: Map<Seq<char>, H>,
    resolved: Seq<char>,
    handle: H,
)
    ensures
        registered(before, resolved, handle).contains_key(resolved),
        forall|other: Seq<char>| #[trigger]
            before.contains_key(other) ==> registered(before, resolved, handle).contains_key(other)
                && registered(before, resolved, handle)[other] == before[other],
        forall|other: Seq<char>| #[trigger]
            registered(before, resolved, handle).contains_key(other) ==> before.contains_key(other)
                || other == resolved,
{
}

/// Two logical paths resolve to the same store exactly when they are the
/// same path.
pub proof fn lemma_resolved_path_injective(root: Seq<char>, a: Seq<char>, b: Seq<char>)
    ensures
        resolved_path(root, a) == resolved_path(root, b) <==> a == b,
{
    if resolved_path(root, a) == resolved_path(root, b) {
        let head = root + "/"@;
        let n = head.len() as int;
        assert(resolved_path(root, a).subrange(n, n + a.len()) =~= a);
        assert(resolved_path(root, b).subrange(n, n + b.len()) =~= b);
        assert(resolved_path(root, a).len() == n + a.len());
        assert(resolved_path(root, b).len() == n + b.len());
    }
}

} // verus!

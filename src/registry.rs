use vstd::prelude::*;

use crate::server::{entry_wf, key_of, Server, ServerView};

verus! {

/// Why a registry operation failed.
#[derive(PartialEq, Eq, Structural, Clone, Copy, Debug)]
pub enum RegistryError {
    /// A stored value is not a valid directory entry.
    CorruptRegistryEntry,
}

/// A change pushed by a watch on the registry's key space. The stored value
/// of a put is handed over already decoded, `None` where it did not decode.
pub enum WatchEvent {
    Put(Option<Server>),
    Delete(String),
}

/// What a watch event does, as plain values.
pub enum WatchEventView {
    Put(ServerView),
    PutCorrupt,
    Delete(Seq<char>),
}

pub open spec fn event_view(e: WatchEvent) -> WatchEventView {
    match e {
        WatchEvent::Put(Some(s)) => if entry_wf(s@) {
            WatchEventView::Put(s@)
        } else {
            WatchEventView::PutCorrupt
        },
        WatchEvent::Put(None) => WatchEventView::PutCorrupt,
        WatchEvent::Delete(k) => WatchEventView::Delete(k@),
    }
}

/// The entries after one watch event.
pub open spec fn event_entries(prefix: Seq<char>, s: Seq<ServerView>, e: WatchEventView) -> Seq<
    ServerView,
> {
    match e {
        WatchEventView::Put(v) => put_entry(s, v),
        WatchEventView::PutCorrupt => s,
        WatchEventView::Delete(k) => s.filter(other_key(prefix, k)),
    }
}

pub open spec fn view_of(s: Seq<Server>) -> Seq<ServerView> {
    s.map_values(|x: Server| x@)
}

pub open spec fn opt_view(o: Option<Server>) -> Option<ServerView> {
    match o {
        Some(s) => Some(s@),
        None => None,
    }
}

/// Entries whose id is not `id`.
pub open spec fn other_id(id: Seq<char>) -> spec_fn(ServerView) -> bool {
    |e: ServerView| e.id != id
}

/// Entries of kind `kind`.
pub open spec fn of_kind(kind: Seq<char>) -> spec_fn(ServerView) -> bool {
    |e: ServerView| e.kind == kind
}

/// Entries not stored under `key`.
pub open spec fn other_key(prefix: Seq<char>, key: Seq<char>) -> spec_fn(ServerView) -> bool {
    |e: ServerView| key_of(prefix, e.kind, e.id) != key
}

pub open spec fn ids_unique(s: Seq<ServerView>) -> bool {
    forall|i: int, j: int| 0 <= i < s.len() && 0 <= j < s.len() && i != j ==> s[i].id != s[j].id
}

/// The entry held for `id`, if any.
pub open spec fn entry_by_id(s: Seq<ServerView>, id: Seq<char>) -> Option<ServerView>
    decreases s.len(),
{
    if s.len() == 0 {
        None
    } else if s.last().id == id {
        Some(s.last())
    } else {
        entry_by_id(s.drop_last(), id)
    }
}

/// The bucket of one kind: every entry of that kind, in the order held.
pub open spec fn bucket(s: Seq<ServerView>, kind: Seq<char>) -> Seq<ServerView> {
    s.filter(of_kind(kind))
}

/// Inserting an entry replaces any entry with the same id.
pub open spec fn put_entry(s: Seq<ServerView>, e: ServerView) -> Seq<ServerView> {
    s.filter(other_id(e.id)).push(e)
}

/// The entries after a fill puts each fetched entry in turn.
pub open spec fn fill_entries(s: Seq<ServerView>, es: Seq<ServerView>) -> Seq<ServerView>
    decreases es.len(),
{
    if es.len() == 0 {
        s
    } else {
        put_entry(fill_entries(s, es.drop_last()), es.last())
    }
}

/// Every fetched value decoded to a valid directory entry.
pub open spec fn all_decoded(fetched: Seq<Option<Server>>) -> bool {
    forall|i: int|
        0 <= i < fetched.len() ==> (#[trigger] fetched[i]) is Some && entry_wf(
            decoded_view(fetched[i]),
        )
}

/// Every entry held is a valid directory entry.
pub open spec fn all_entries_wf(s: Seq<ServerView>) -> bool {
    forall|i: int| 0 <= i < s.len() ==> entry_wf(#[trigger] s[i])
}

pub proof fn lemma_filter_keeps_valid(s: Seq<ServerView>, pred: spec_fn(ServerView) -> bool)
    requires
        all_entries_wf(s),
    ensures
        all_entries_wf(s.filter(pred)),
{
    let f = s.filter(pred);
    assert forall|k: int| 0 <= k < f.len() implies entry_wf(#[trigger] f[k]) by {
        assert(f.contains(f[k]));
        s.lemma_filter_contains_rev(pred, f[k]);
    }
}

pub open spec fn decoded_view(o: Option<Server>) -> ServerView {
    match o {
        Some(s) => s@,
        None => arbitrary(),
    }
}

pub open spec fn decoded_views(fetched: Seq<Option<Server>>) -> Seq<ServerView> {
    fetched.map_values(|o: Option<Server>| decoded_view(o))
}

pub proof fn lemma_filter_push(s: Seq<ServerView>, a: ServerView, pred: spec_fn(ServerView) -> bool)
    ensures
        s.push(a).filter(pred) == (if pred(a) {
            s.filter(pred).push(a)
        } else {
            s.filter(pred)
        }),
{
    reveal(Seq::filter);
    assert(s.push(a).drop_last() =~= s);
}

pub proof fn lemma_filter_keeps_unique(s: Seq<ServerView>, pred: spec_fn(ServerView) -> bool)
    requires
        ids_unique(s),
    ensures
        ids_unique(s.filter(pred)),
    decreases s.len(),
{
    reveal(Seq::filter);
    if s.len() > 0 {
        let rest = s.drop_last();
        lemma_filter_keeps_unique(rest, pred);
        let f = rest.filter(pred);
        if pred(s.last()) {
            assert forall|k: int| 0 <= k < f.len() implies f[k].id != s.last().id by {
                assert(f.contains(f[k]));
                rest.lemma_filter_contains_rev(pred, f[k]);
            }
        }
    }
}

pub proof fn lemma_put_keeps_unique(s: Seq<ServerView>, e: ServerView)
    requires
        ids_unique(s),
    ensures
        ids_unique(put_entry(s, e)),
{
    broadcast use vstd::seq_lib::group_filter_ensures;

    lemma_filter_keeps_unique(s, other_id(e.id));
    let f = s.filter(other_id(e.id));
    assert forall|k: int| 0 <= k < f.len() implies f[k].id != e.id by {
        assert((other_id(e.id))(f[k]));
    }
}

pub proof fn lemma_fill_keeps_unique(s: Seq<ServerView>, es: Seq<ServerView>)
    requires
        ids_unique(s),
    ensures
        ids_unique(fill_entries(s, es)),
    decreases es.len(),
{
    if es.len() > 0 {
        lemma_fill_keeps_unique(s, es.drop_last());
        lemma_put_keeps_unique(fill_entries(s, es.drop_last()), es.last());
    }
}

/// Some entry is of kind `kind`.
pub open spec fn has_kind(s: Seq<ServerView>, kind: Seq<char>) -> bool {
    exists|i: int| 0 <= i < s.len() && (#[trigger] s[i]).kind == kind
}

/// `kind` is one of `v`.
pub open spec fn listed(v: Seq<String>, kind: Seq<char>) -> bool {
    exists|k: int| 0 <= k < v.len() && (#[trigger] v[k])@ == kind
}

/// Some entry of the bucket of `kind` has id `id`.
pub open spec fn bucket_has_id(s: Seq<ServerView>, kind: Seq<char>, id: Seq<char>) -> bool {
    exists|k: int| 0 <= k < bucket(s, kind).len() && (#[trigger] bucket(s, kind)[k]).id == id
}

/// With unique ids, the entry held for `id` is the one entry with that id.
pub proof fn lemma_entry_by_id(s: Seq<ServerView>, id: Seq<char>)
    requires
        ids_unique(s),
    ensures
        forall|i: int| 0 <= i < s.len() && (#[trigger] s[i]).id == id ==> entry_by_id(s, id) == Some(s[i]),
        entry_by_id(s, id) is Some ==> exists|i: int|
            0 <= i < s.len() && entry_by_id(s, id) == Some(#[trigger] s[i]) && s[i].id == id,
    decreases s.len(),
{
    if s.len() > 0 {
        let rest = s.drop_last();
        assert(ids_unique(rest));
        lemma_entry_by_id(rest, id);
        assert forall|i: int| 0 <= i < s.len() && (#[trigger] s[i]).id == id implies entry_by_id(s, id) == Some(s[i]) by {
            if i < s.len() - 1 {
                assert(s[i] == rest[i]);
            }
        }
        if s.last().id != id {
            if entry_by_id(s, id) is Some {
                let i = choose|i: int| 0 <= i < rest.len() && entry_by_id(rest, id) == Some(#[trigger] rest[i]) && rest[i].id == id;
                assert(s[i] == rest[i]);
            }
        } else {
            assert(s[s.len() - 1] == s.last());
        }
    }
}

/// Cache consistency: an entry held for an id sits in the bucket of its own
/// kind and in no other bucket, and every entry of a bucket is the entry
/// held for its id. Every operation of `RegistryCache` keeps ids unique, so
/// this holds after any sequence of fills and watch events.
pub proof fn lemma_buckets_agree_with_ids(s: Seq<ServerView>, kind: Seq<char>, id: Seq<char>)
    requires
        ids_unique(s),
    ensures
        bucket_has_id(s, kind, id) <==> (entry_by_id(s, id) is Some && entry_by_id(
            s,
            id,
        )->Some_0.kind == kind),
        forall|k: int|
            0 <= k < bucket(s, kind).len() ==> entry_by_id(s, (#[trigger] bucket(s, kind)[k]).id)
                == Some(bucket(s, kind)[k]) && bucket(s, kind)[k].kind == kind,
{
    broadcast use vstd::seq_lib::group_filter_ensures;

    let b = bucket(s, kind);
    assert forall|k: int| 0 <= k < b.len() implies entry_by_id(s, (#[trigger] b[k]).id) == Some(b[k])
        && b[k].kind == kind by {
        assert((of_kind(kind))(b[k]));
        assert(b.contains(b[k]));
        s.lemma_filter_contains_rev(of_kind(kind), b[k]);
        let i = choose|i: int| 0 <= i < s.len() && s[i] == b[k];
        lemma_entry_by_id(s, b[k].id);
    }
    lemma_entry_by_id(s, id);
    if entry_by_id(s, id) is Some && entry_by_id(s, id)->Some_0.kind == kind {
        let i = choose|i: int| 0 <= i < s.len() && entry_by_id(s, id) == Some(#[trigger] s[i]) && s[i].id == id;
        assert((of_kind(kind))(s[i]));
        assert(b.contains(s[i]));
        let k = choose|k: int| 0 <= k < b.len() && b[k] == s[i];
        assert(b[k].id == id);
    }
}

/// One change applied to the cache: a fill with the entries one read
/// returned, or a watch event.
pub enum CacheOp {
    Fill(Seq<ServerView>),
    Event(WatchEventView),
}

/// The entries after each change of `ops` in turn.
pub open spec fn run_ops(prefix: Seq<char>, s: Seq<ServerView>, ops: Seq<CacheOp>) -> Seq<
    ServerView,
>
    decreases ops.len(),
{
    if ops.len() == 0 {
        s
    } else {
        let before = run_ops(prefix, s, ops.drop_last());
        match ops.last() {
            CacheOp::Fill(es) => fill_entries(before, es),
            CacheOp::Event(e) => event_entries(prefix, before, e),
        }
    }
}

/// Cache consistency over any history: after any sequence of fills and
/// watch events from a consistent cache, ids stay unique, and so every id
/// held sits in the bucket of its own kind and nowhere else.
pub proof fn lemma_consistent_after_any_history(
    prefix: Seq<char>,
    s: Seq<ServerView>,
    ops: Seq<CacheOp>,
    kind: Seq<char>,
    id: Seq<char>,
)
    requires
        ids_unique(s),
    ensures
        ids_unique(run_ops(prefix, s, ops)),
        bucket_has_id(run_ops(prefix, s, ops), kind, id) <==> (entry_by_id(
            run_ops(prefix, s, ops),
            id,
        ) is Some && entry_by_id(run_ops(prefix, s, ops), id)->Some_0.kind == kind),
    decreases ops.len(),
{
    if ops.len() > 0 {
        lemma_consistent_after_any_history(prefix, s, ops.drop_last(), kind, id);
        let before = run_ops(prefix, s, ops.drop_last());
        match ops.last() {
            CacheOp::Fill(es) => lemma_fill_keeps_unique(before, es),
            CacheOp::Event(e) => match e {
                WatchEventView::Put(v) => lemma_put_keeps_unique(before, v),
                WatchEventView::PutCorrupt => {},
                WatchEventView::Delete(k) => lemma_filter_keeps_unique(before, other_key(prefix, k)),
            },
        }
    }
    lemma_buckets_agree_with_ids(run_ops(prefix, s, ops), kind, id);
}

/// Fill on miss leaves no phantom: when an id is not held and the store has
/// no entry under its kind, the fill reads nothing, the lookup finds nothing,
/// and the kind's bucket stays empty.
pub proof fn lemma_fill_on_miss_no_phantom(
    s: Seq<ServerView>,
    kind: Seq<char>,
    id: Seq<char>,
    fetched: Seq<Option<Server>>,
)
    requires
        entry_by_id(s, id) is None,
        bucket(s, kind).len() == 0,
        fetched.len() == 0,
    ensures
        all_decoded(fetched),
        entry_by_id(fill_entries(s, decoded_views(fetched)), id) is None,
        bucket(fill_entries(s, decoded_views(fetched)), kind).len() == 0,
{
    assert(decoded_views(fetched).len() == 0);
}

/// The in-memory view of cluster membership: entries by id, and by kind as
/// the buckets of those entries, filled on demand and kept current by watch
/// events.
pub struct RegistryCache {
    prefix: String,
    servers: Vec<Server>,
}

impl RegistryCache {
    /// Every entry held, in the order held.
    pub closed spec fn entries(&self) -> Seq<ServerView> {
        view_of(self.servers@)
    }

    pub closed spec fn key_prefix(&self) -> Seq<char> {
        self.prefix@
    }

    /// No two entries share an id, and every entry is valid.
    pub open spec fn wf(&self) -> bool {
        ids_unique(self.entries()) && all_entries_wf(self.entries())
    }

    pub fn new(prefix: String) -> (r: RegistryCache)
        ensures
            r.wf(),
            r.entries() == Seq::<ServerView>::empty(),
            r.key_prefix() == prefix@,
    {
        let r = RegistryCache { prefix, servers: Vec::new() };
        assert(r.entries() =~= Seq::<ServerView>::empty());
        r
    }

    pub fn prefix(&self) -> (r: &str)
        ensures
            r@ == self.key_prefix(),
    {
        self.prefix.as_str()
    }

    /// How many entries are held.
    pub fn len(&self) -> (r: usize)
        ensures
            r == self.entries().len(),
    {
        self.servers.len()
    }

    /// The cached entry for `id`, without going to the coordination service.
    pub fn lookup_by_id(&self, id: &str) -> (r: Option<Server>)
        ensures
            opt_view(r) == entry_by_id(self.entries(), id@),
    {
        let ghost s = self.entries();
        let target = String::from_str(id);
        let mut i = self.servers.len();
        assert(s.subrange(0, i as int) =~= s);
        while i > 0
            invariant
                i <= self.servers@.len(),
                s == self.entries(),
                target@ == id@,
                entry_by_id(s, id@) == entry_by_id(s.subrange(0, i as int), id@),
            decreases i,
        {
            let ghost sub = s.subrange(0, i as int);
            assert(sub.drop_last() =~= s.subrange(0, i - 1));
            assert(s[i - 1] == self.servers@[i - 1]@);
            if self.servers[i - 1].id == target {
                return Some(self.servers[i - 1].duplicate());
            }
            i = i - 1;
        }
        None
    }

    /// A snapshot of the bucket of `kind`.
    pub fn list_by_kind(&self, kind: &str) -> (r: Vec<Server>)
        ensures
            view_of(r@) == bucket(self.entries(), kind@),
    {
        let ghost s = self.entries();
        let target = String::from_str(kind);
        let mut out: Vec<Server> = Vec::new();
        let n = self.servers.len();
        for i in 0..n
            invariant
                n == self.servers@.len(),
                s == self.entries(),
                target@ == kind@,
                view_of(out@) == bucket(s.subrange(0, i as int), kind@),
        {
            proof {
                assert(s.subrange(0, i + 1) =~= s.subrange(0, i as int).push(s[i as int]));
                lemma_filter_push(s.subrange(0, i as int), s[i as int], of_kind(kind@));
            }
            if self.servers[i].kind == target {
                let e = self.servers[i].duplicate();
                out.push(e);
                assert(view_of(out@) =~= view_of(out@.drop_last()).push(e@));
            }
        }
        assert(s.subrange(0, n as int) =~= s);
        out
    }

    /// The kinds that have a non-empty bucket, each once.
    pub fn kinds(&self) -> (r: Vec<String>)
        ensures
            forall|a: int, b: int| 0 <= a < r@.len() && 0 <= b < r@.len() && a != b ==> r@[a]@ != r@[b]@,
            forall|k: int| 0 <= k < r@.len() ==> has_kind(self.entries(), #[trigger] r@[k]@),
            forall|i: int| 0 <= i < self.entries().len() ==> listed(r@, #[trigger] self.entries()[i].kind),
    {
        let ghost s = self.entries();
        let mut out: Vec<String> = Vec::new();
        let n = self.servers.len();
        for i in 0..n
            invariant
                n == self.servers@.len(),
                s == self.entries(),
                forall|a: int, b: int| 0 <= a < out@.len() && 0 <= b < out@.len() && a != b ==> out@[a]@ != out@[b]@,
                forall|k: int| 0 <= k < out@.len() ==> has_kind(s, #[trigger] out@[k]@),
                forall|m: int| 0 <= m < i ==> listed(out@, #[trigger] s[m].kind),
        {
            assert(s[i as int] == self.servers@[i as int]@);
            let mut found = false;
            let len = out.len();
            for j in 0..len
                invariant
                    len == out@.len(),
                    0 <= i < n,
                    n == self.servers@.len(),
                    s == self.entries(),
                    s[i as int].kind == self.servers@[i as int].kind@,
                    found <==> exists|k: int| 0 <= k < j && out@[k]@ == s[i as int].kind,
            {
                if out[j] == self.servers[i].kind {
                    found = true;
                }
            }
            if !found {
                let ghost before = out@;
                out.push(self.servers[i].kind.clone());
                assert(has_kind(s, out@[out@.len() - 1]@));
                assert forall|m: int| 0 <= m <= i implies listed(out@, #[trigger] s[m].kind) by {
                    if m < i {
                        let k = choose|k: int| 0 <= k < before.len() && before[k]@ == s[m].kind;
                        assert(out@[k] == before[k]);
                    } else {
                        assert(out@[out@.len() - 1]@ == s[m].kind);
                    }
                }
            }
        }
        out
    }

    /// The bucket of `kind` when it holds any entry; `None` when it is
    /// empty and a fill is due.
    pub fn cached_bucket(&self, kind: &str) -> (r: Option<Vec<Server>>)
        ensures
            r is None <==> bucket(self.entries(), kind@).len() == 0,
            r is Some ==> view_of(r->Some_0@) == bucket(self.entries(), kind@),
    {
        let v = self.list_by_kind(kind);
        if v.len() == 0 {
            None
        } else {
            Some(v)
        }
    }

    /// Inserts `server`, replacing any entry with its id.
    pub fn put(&mut self, server: Server)
        requires
            old(self).wf(),
            entry_wf(server@),
        ensures
            final(self).wf(),
            final(self).entries() == put_entry(old(self).entries(), server@),
            final(self).key_prefix() == old(self).key_prefix(),
    {
        let ghost s = self.entries();
        let mut kept: Vec<Server> = Vec::new();
        let n = self.servers.len();
        for i in 0..n
            invariant
                n == self.servers@.len(),
                s == self.entries(),
                view_of(kept@) == s.subrange(0, i as int).filter(other_id(server@.id)),
        {
            proof {
                assert(s.subrange(0, i + 1) =~= s.subrange(0, i as int).push(s[i as int]));
                lemma_filter_push(s.subrange(0, i as int), s[i as int], other_id(server@.id));
            }
            if !(self.servers[i].id == server.id) {
                let e = self.servers[i].duplicate();
                kept.push(e);
                assert(view_of(kept@) =~= view_of(kept@.drop_last()).push(e@));
            }
        }
        assert(s.subrange(0, n as int) =~= s);
        let ghost sv = server@;
        kept.push(server);
        assert(view_of(kept@) =~= view_of(kept@.drop_last()).push(sv));
        self.servers = kept;
        proof {
            lemma_put_keeps_unique(s, sv);
            lemma_filter_keeps_valid(s, other_id(sv.id));
            assert(self.entries() == put_entry(s, sv));
        }
    }

    /// Removes the entry stored under `key`, if one is held.
    pub fn remove_key(&mut self, key: &str)
        requires
            old(self).wf(),
        ensures
            final(self).wf(),
            final(self).entries() == old(self).entries().filter(
                other_key(old(self).key_prefix(), key@),
            ),
            final(self).key_prefix() == old(self).key_prefix(),
    {
        let ghost s = self.entries();
        let ghost pred = other_key(self.prefix@, key@);
        let target = String::from_str(key);
        let mut kept: Vec<Server> = Vec::new();
        let n = self.servers.len();
        for i in 0..n
            invariant
                n == self.servers@.len(),
                s == self.entries(),
                target@ == key@,
                pred == other_key(self.prefix@, key@),
                view_of(kept@) == s.subrange(0, i as int).filter(pred),
        {
            proof {
                assert(s.subrange(0, i + 1) =~= s.subrange(0, i as int).push(s[i as int]));
                lemma_filter_push(s.subrange(0, i as int), s[i as int], pred);
            }
            let k = self.servers[i].registry_key(self.prefix.as_str());
            if !(k == target) {
                let e = self.servers[i].duplicate();
                kept.push(e);
                assert(view_of(kept@) =~= view_of(kept@.drop_last()).push(e@));
            }
        }
        assert(s.subrange(0, n as int) =~= s);
        self.servers = kept;
        proof {
            lemma_filter_keeps_unique(s, pred);
            lemma_filter_keeps_valid(s, pred);
        }
    }

    /// Applies the result of one full read of a kind's key prefix, all or
    /// nothing: fails with `CorruptRegistryEntry`, holding the cache as it
    /// was, when any fetched value did not decode to a valid entry.
    pub fn fill(&mut self, fetched: &Vec<Option<Server>>) -> (r: Result<(), RegistryError>)
        requires
            old(self).wf(),
        ensures
            final(self).wf(),
            final(self).key_prefix() == old(self).key_prefix(),
            r is Ok <==> all_decoded(fetched@),
            r is Ok ==> final(self).entries() == fill_entries(
                old(self).entries(),
                decoded_views(fetched@),
            ),
            r is Err ==> r == Err::<(), RegistryError>(RegistryError::CorruptRegistryEntry)
                && final(self).entries() == old(self).entries(),
    {
        let n = fetched.len();
        for i in 0..n
            invariant
                n == fetched@.len(),
                self.wf(),
                *self == *old(self),
                forall|k: int|
                    0 <= k < i ==> (#[trigger] fetched@[k]) is Some && entry_wf(
                        decoded_view(fetched@[k]),
                    ),
        {
            match &fetched[i] {
                Some(sv) => {
                    if !sv.has_unique_metadata_keys() {
                        return Err(RegistryError::CorruptRegistryEntry);
                    }
                },
                None => {
                    return Err(RegistryError::CorruptRegistryEntry);
                },
            }
        }
        let ghost s0 = self.entries();
        let ghost es = decoded_views(fetched@);
        for i in 0..n
            invariant
                n == fetched@.len(),
                es == decoded_views(fetched@),
                all_decoded(fetched@),
                self.wf(),
                self.key_prefix() == old(self).key_prefix(),
                self.entries() == fill_entries(s0, es.subrange(0, i as int)),
        {
            assert(es.subrange(0, i + 1).drop_last() =~= es.subrange(0, i as int));
            assert(es.subrange(0, i + 1).last() == es[i as int]);
            assert(fetched@[i as int] is Some);
            match &fetched[i] {
                Some(sv) => {
                    assert(es[i as int] == sv@);
                    self.put(sv.duplicate());
                },
                None => {},
            }
        }
        assert(es.subrange(0, n as int) =~= es);
        Ok(())
    }

    /// Applies one watch event: a put inserts or replaces, a delete removes
    /// the entry stored under the key. A put whose value did not decode to a
    /// valid entry fails with `CorruptRegistryEntry` and changes nothing.
    pub fn apply_event(&mut self, event: WatchEvent) -> (r: Result<(), RegistryError>)
        requires
            old(self).wf(),
        ensures
            final(self).wf(),
            final(self).key_prefix() == old(self).key_prefix(),
            final(self).entries() == event_entries(
                old(self).key_prefix(),
                old(self).entries(),
                event_view(event),
            ),
            r is Err <==> event_view(event) == WatchEventView::PutCorrupt,
            r is Err ==> r == Err::<(), RegistryError>(RegistryError::CorruptRegistryEntry),
    {
        match event {
            WatchEvent::Put(Some(sv)) => {
                if sv.has_unique_metadata_keys() {
                    self.put(sv);
                    Ok(())
                } else {
                    Err(RegistryError::CorruptRegistryEntry)
                }
            },
            WatchEvent::Put(None) => Err(RegistryError::CorruptRegistryEntry),
            WatchEvent::Delete(key) => {
                self.remove_key(key.as_str());
                Ok(())
            },
        }
    }

    /// Lookup after a miss: applies the full read of the kind's prefix,
    /// then looks `id` up again. No entry is recorded for an id that the
    /// read did not return.
    pub fn fill_then_lookup(&mut self, id: &str, fetched: &Vec<Option<Server>>) -> (r: Result<
        Option<Server>,
        RegistryError,
    >)
        requires
            old(self).wf(),
        ensures
            final(self).wf(),
            final(self).key_prefix() == old(self).key_prefix(),
            r is Ok <==> all_decoded(fetched@),
            match r {
                Ok(o) => final(self).entries() == fill_entries(
                    old(self).entries(),
                    decoded_views(fetched@),
                ) && opt_view(o) == entry_by_id(final(self).entries(), id@),
                Err(e) => e == RegistryError::CorruptRegistryEntry && final(self).entries()
                    == old(self).entries(),
            },
    {
        match self.fill(fetched) {
            Ok(()) => Ok(self.lookup_by_id(id)),
            Err(e) => Err(e),
        }
    }

    /// Listing after a fill: applies the full read of the kind's prefix,
    /// then returns a snapshot of the kind's bucket.
    pub fn fill_then_list(&mut self, kind: &str, fetched: &Vec<Option<Server>>) -> (r: Result<
        Vec<Server>,
        RegistryError,
    >)
        requires
            old(self).wf(),
        ensures
            final(self).wf(),
            final(self).key_prefix() == old(self).key_prefix(),
            r is Ok <==> all_decoded(fetched@),
            match r {
                Ok(v) => final(self).entries() == fill_entries(
                    old(self).entries(),
                    decoded_views(fetched@),
                ) && view_of(v@) == bucket(final(self).entries(), kind@),
                Err(e) => e == RegistryError::CorruptRegistryEntry && final(self).entries()
                    == old(self).entries(),
            },
    {
        match self.fill(fetched) {
            Ok(()) => Ok(self.list_by_kind(kind)),
            Err(e) => Err(e),
        }
    }
}

} // verus!

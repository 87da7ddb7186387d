use vstd::prelude::*;

verus! {

/// What a directory entry is, as plain sequences.
pub struct ServerView {
    pub id: Seq<char>,
    pub kind: Seq<char>,
    pub hostname: Seq<char>,
    pub frontend: bool,
    pub metadata: Seq<(Seq<char>, Seq<char>)>,
}

/// One cluster member, as stored under its key in the coordination service.
pub struct Server {
    pub id: String,
    pub kind: String,
    pub hostname: String,
    pub frontend: bool,
    pub metadata: Vec<(String, String)>,
}

pub open spec fn pair_view(p: (String, String)) -> (Seq<char>, Seq<char>) {
    (p.0@, p.1@)
}

impl View for Server {
    type V = ServerView;

    open spec fn view(&self) -> ServerView {
        ServerView {
            id: self.id@,
            kind: self.kind@,
            hostname: self.hostname@,
            frontend: self.frontend,
            metadata: self.metadata@.map_values(|p: (String, String)| pair_view(p)),
        }
    }
}

/// No two metadata pairs share a key, so the metadata is a mapping.
pub open spec fn metadata_keys_unique(m: Seq<(Seq<char>, Seq<char>)>) -> bool {
    forall|i: int, j: int| 0 <= i < m.len() && 0 <= j < m.len() && i != j ==> m[i].0 != m[j].0
}

/// A valid directory entry: its metadata maps each key to one value.
pub open spec fn entry_wf(e: ServerView) -> bool {
    metadata_keys_unique(e.metadata)
}

/// The key space every member of every kind lives under: `<prefix>/servers/`.
pub open spec fn servers_prefix_of(prefix: Seq<char>) -> Seq<char> {
    prefix + "/servers/"@
}

/// The key prefix of one kind: `<prefix>/servers/<kind>/`.
pub open spec fn kind_prefix_of(prefix: Seq<char>, kind: Seq<char>) -> Seq<char> {
    servers_prefix_of(prefix) + kind + "/"@
}

/// The key of one member: `<prefix>/servers/<kind>/<id>`.
pub open spec fn key_of(prefix: Seq<char>, kind: Seq<char>, id: Seq<char>) -> Seq<char> {
    kind_prefix_of(prefix, kind) + id
}

/// The bus topic a member listens on: `pitaya/servers/<kind>/<id>`.
pub open spec fn topic_of(kind: Seq<char>, id: Seq<char>) -> Seq<char> {
    "pitaya/servers/"@ + kind + "/"@ + id
}

impl Server {
    pub fn new(id: String, kind: String, hostname: String, frontend: bool) -> (r: Server)
        ensures
            r@.id == id@,
            r@.kind == kind@,
            r@.hostname == hostname@,
            r@.frontend == frontend,
            r@.metadata.len() == 0,
            entry_wf(r@),
    {
        let r = Server { id, kind, hostname, frontend, metadata: Vec::new() };
        assert(r@.metadata =~= Seq::empty());
        r
    }

    /// Whether the metadata maps each key to one value.
    pub fn has_unique_metadata_keys(&self) -> (r: bool)
        ensures
            r == entry_wf(self@),
    {
        let ghost m = self@.metadata;
        let n = self.metadata.len();
        for i in 0..n
            invariant
                n == self.metadata@.len(),
                m == self@.metadata,
                forall|a: int, b: int| 0 <= a < i && 0 <= b < n && a != b ==> m[a].0 != m[b].0,
        {
            for j in 0..n
                invariant
                    n == self.metadata@.len(),
                    m == self@.metadata,
                    0 <= i < n,
                    forall|a: int, b: int| 0 <= a < i && 0 <= b < n && a != b ==> m[a].0 != m[b].0,
                    forall|b: int| 0 <= b < j && b != i ==> m[i as int].0 != m[b].0,
            {
                assert(m[i as int] == pair_view(self.metadata@[i as int]));
                assert(m[j as int] == pair_view(self.metadata@[j as int]));
                if j != i && self.metadata[i].0 == self.metadata[j].0 {
                    return false;
                }
            }
        }
        true
    }

    /// A copy equal to `self` in every field.
    pub fn duplicate(&self) -> (r: Server)
        ensures
            r@ == self@,
    {
        let mut metadata: Vec<(String, String)> = Vec::new();
        let n = self.metadata.len();
        for i in 0..n
            invariant
                n == self.metadata@.len(),
                metadata@.len() == i,
                forall|k: int| 0 <= k < i ==> pair_view(#[trigger] metadata@[k]) == pair_view(self.metadata@[k]),
        {
            let p = &self.metadata[i];
            metadata.push((p.0.clone(), p.1.clone()));
        }
        let r = Server {
            id: self.id.clone(),
            kind: self.kind.clone(),
            hostname: self.hostname.clone(),
            frontend: self.frontend,
            metadata,
        };
        assert(r@.metadata =~= self@.metadata);
        r
    }

    /// The key under which this member is registered.
    pub fn registry_key(&self, prefix: &str) -> (r: String)
        ensures
            r@ == key_of(prefix@, self.kind@, self.id@),
    {
        server_key(prefix, self.kind.as_str(), self.id.as_str())
    }

    /// The bus topic this member listens on for calls.
    pub fn topic(&self) -> (r: String)
        ensures
            r@ == topic_of(self.kind@, self.id@),
    {
        topic_for_server(self.kind.as_str(), self.id.as_str())
    }
}

pub fn servers_prefix(prefix: &str) -> (r: String)
    ensures
        r@ == servers_prefix_of(prefix@),
{
    String::from_str(prefix).concat("/servers/")
}

pub fn server_kind_prefix(prefix: &str, kind: &str) -> (r: String)
    ensures
        r@ == kind_prefix_of(prefix@, kind@),
{
    servers_prefix(prefix).concat(kind).concat("/")
}

pub fn server_key(prefix: &str, kind: &str, id: &str) -> (r: String)
    ensures
        r@ == key_of(prefix@, kind@, id@),
{
    server_kind_prefix(prefix, kind).concat(id)
}

pub fn topic_for_server(kind: &str, id: &str) -> (r: String)
    ensures
        r@ == topic_of(kind@, id@),
{
    String::from_str("pitaya/servers/").concat(kind).concat("/").concat(id)
}

} // verus!

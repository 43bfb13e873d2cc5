//! The server table: aliases mapped to connection details, and an optional
//! default alias.
use vstd::prelude::*;

verus! {

/// Connection details of one server.
pub struct ServerConfig {
    pub host: String,
    pub user: String,
    pub key_path: Option<String>,
    pub port: Option<u16>,
    pub default_remote_path: Option<String>,
}

/// One alias and the server it names.
pub struct ServerEntry {
    pub alias: String,
    pub server: ServerConfig,
}

/// The whole configuration. Aliases are unique; entries keep the order in
/// which their aliases were first added.
pub struct Config {
    servers: Vec<ServerEntry>,
    default_server: Option<String>,
}

impl Config {
    /// Aliases are pairwise distinct.
    pub open spec fn wf(&self) -> bool {
        forall|i: int, j: int|
            0 <= i < j < self.entries().len() ==> self.entries()[i].alias@ != self.entries()[j].alias@
    }

    /// The entries, in order.
    pub closed spec fn entries(&self) -> Seq<ServerEntry> {
        self.servers@
    }

    /// The default alias, if one is set.
    pub closed spec fn default_alias(&self) -> Option<String> {
        self.default_server
    }

    /// Whether an entry carries `alias`.
    pub open spec fn has_alias(&self, alias: Seq<char>) -> bool {
        exists|i: int| 0 <= i < self.entries().len() && self.entries()[i].alias@ == alias
    }

    /// The table as a map from alias to server.
    pub open spec fn server_map(&self) -> Map<Seq<char>, ServerConfig> {
        Map::new(
            |a: Seq<char>| self.has_alias(a),
            |a: Seq<char>|
                self.entries()[choose|i: int|
                    0 <= i < self.entries().len() && self.entries()[i].alias@ == a].server,
        )
    }

    /// An empty configuration: no servers, no default.
    pub fn new() -> (r: Config)
        ensures
            r.wf(),
            r.entries().len() == 0,
            r.server_map() == Map::<Seq<char>, ServerConfig>::empty(),
            r.default_alias().is_none(),
    {
        let r = Config { servers: Vec::new(), default_server: None };
        assert(r.server_map() =~= Map::<Seq<char>, ServerConfig>::empty());
        r
    }

    /// The entries, in order.
    pub fn server_entries(&self) -> (r: &Vec<ServerEntry>)
        ensures
            r@ == self.entries(),
    {
        &self.servers
    }

    /// The default alias, if one is set.
    pub fn default_server(&self) -> (r: &Option<String>)
        ensures
            *r == self.default_alias(),
    {
        &self.default_server
    }

    /// Makes `alias` the default; the table is unchanged.
    pub fn set_default_server(&mut self, alias: String)
        ensures
            final(self).default_alias() == Some(alias),
            final(self).entries() == old(self).entries(),
    {
        self.default_server = Some(alias);
    }

    /// Whether the table holds no server.
    pub fn is_empty(&self) -> (r: bool)
        ensures
            r == (self.server_map() == Map::<Seq<char>, ServerConfig>::empty()),
            r == (self.entries().len() == 0),
    {
        proof {
            if self.servers@.len() > 0 {
                assert(self.server_map().contains_key(self.servers@[0].alias@));
            } else {
                assert(self.server_map() =~= Map::<Seq<char>, ServerConfig>::empty());
            }
        }
        self.servers.len() == 0
    }

    fn position(&self, alias: &str) -> (r: Option<usize>)
        requires
            self.wf(),
        ensures
            match r {
                Some(i) => i < self.servers@.len() && self.servers@[i as int].alias@ == alias@,
                None => !self.has_alias(alias@),
            },
    {
        let key = String::from_str(alias);
        let mut i: usize = 0;
        while i < self.servers.len()
            invariant
                key@ == alias@,
                i <= self.servers@.len(),
                forall|j: int| 0 <= j < i ==> self.servers@[j].alias@ != alias@,
            decreases self.servers@.len() - i,
        {
            if self.servers[i].alias == key {
                return Some(i);
            }
            i = i + 1;
        }
        None
    }

    /// The server named `alias`, if any.
    pub fn get_server(&self, alias: &str) -> (r: Option<&ServerConfig>)
        requires
            self.wf(),
        ensures
            match r {
                Some(s) => self.server_map().contains_key(alias@) && self.server_map()[alias@]
                    == *s,
                None => !self.server_map().contains_key(alias@),
            },
    {
        match self.position(alias) {
            Some(i) => {
                proof {
                    let k = choose|k: int|
                        0 <= k < self.servers@.len() && self.servers@[k].alias@ == alias@;
                    assert(k == i as int);
                }
                Some(&self.servers[i].server)
            },
            None => None,
        }
    }

    /// Adds `server` under `alias`, replacing the server that `alias` named
    /// before; a new alias goes last.
    pub fn insert_server(&mut self, alias: String, server: ServerConfig)
        requires
            old(self).wf(),
        ensures
            final(self).wf(),
            final(self).server_map() == old(self).server_map().insert(alias@, server),
            final(self).default_alias() == old(self).default_alias(),
    {
        let ghost before = *self;
        match self.position(alias.as_str()) {
            Some(i) => {
                self.servers.set(i, ServerEntry { alias, server });
                proof {
                    lemma_entry_written(before, *self, i as int, alias@, server);
                }
            },
            None => {
                self.servers.push(ServerEntry { alias, server });
                proof {
                    lemma_entry_written(before, *self, before.entries().len() as int, alias@, server);
                }
            },
        }
    }
}

/// Writing the entry for `a` at position `i`, over the old entry for `a` or
/// past the end when there was none, inserts `a` into the map.
proof fn lemma_entry_written(
    before: Config,
    after: Config,
    i: int,
    a: Seq<char>,
    server: ServerConfig,
)
    requires
        before.wf(),
        0 <= i < after.entries().len(),
        after.entries().len() == before.entries().len() || (after.entries().len()
            == before.entries().len() + 1 && i == before.entries().len() && !before.has_alias(a)),
        i < before.entries().len() ==> before.entries()[i].alias@ == a,
        after.entries()[i].alias@ == a,
        after.entries()[i].server == server,
        forall|k: int| 0 <= k < after.entries().len() && k != i ==> after.entries()[k] == before.entries()[k],
    ensures
        after.wf(),
        after.server_map() == before.server_map().insert(a, server),
{
    assert forall|p: int, q: int| 0 <= p < q < after.entries().len() implies after.entries()[p].alias@
        != after.entries()[q].alias@ by {
        if p != i && q != i {
            assert(before.entries()[p] == after.entries()[p]);
            assert(before.entries()[q] == after.entries()[q]);
        } else if p == i {
            assert(before.entries()[q] == after.entries()[q]);
        } else {
            assert(before.entries()[p] == after.entries()[p]);
        }
    }
    assert forall|b: Seq<char>| #![auto] after.has_alias(b) == before.server_map().insert(a, server).contains_key(b) by {
        if b != a && before.has_alias(b) {
            let k = choose|k: int| 0 <= k < before.entries().len() && before.entries()[k].alias@ == b;
            assert(after.entries()[k] == before.entries()[k]);
        }
        if b == a {
            assert(after.entries()[i].alias@ == b);
        }
    }
    assert(after.server_map() =~= before.server_map().insert(a, server));
}

} // verus!

//! The cache abstraction: a topology-transparent key/value store
//! keyed by route id.
//!
//! The configured host list is split on `,`; in `"cluster"` mode every
//! host becomes an endpoint, otherwise only the first does.  One
//! endpoint makes a single-node client, more make a cluster-aware
//! client; both present the same two operations, and callers never
//! learn which topology is active.  The store itself is specified as
//! a map from keys to values; carrying its commands to the configured
//! nodes is the embedding program's work.

use vstd::prelude::*;

use crate::config::RedisConfig;
use crate::errors::CacheError;
use crate::numparse::{dec_val, is_dec_nat, parse_u64_dec};
use crate::strutil::{spec_split, split_char, views_of};

verus! {

/// Address of one cache node.
#[derive(Debug, Clone, PartialEq)]
pub struct ConnectionInfo {
    /// Host name.
    pub host: String,
    /// TCP port.
    pub port: u16,
}

/// Mathematical image of a `ConnectionInfo`.
pub struct ConnectionInfoView {
    pub host: Seq<char>,
    pub port: u16,
}

impl View for ConnectionInfo {
    type V = ConnectionInfoView;

    open spec fn view(&self) -> ConnectionInfoView {
        ConnectionInfoView { host: self.host@, port: self.port }
    }
}

/// A host entry is usable when it has a `:` and what follows the
/// first `:` is a decimal port number.
pub open spec fn spec_host_entry_wf(entry: Seq<char>) -> bool {
    let parts = spec_split(entry, ':');
    parts.len() >= 2 && is_dec_nat(parts[1]) && dec_val(parts[1]) <= u16::MAX
}

/// The node address a host entry names.
pub open spec fn spec_conn_info(entry: Seq<char>) -> ConnectionInfoView {
    let parts = spec_split(entry, ':');
    ConnectionInfoView { host: parts[0], port: dec_val(parts[1]) as u16 }
}

/// Whether a mode string asks for the cluster topology.
pub open spec fn spec_is_cluster_mode(mode: Seq<char>) -> bool {
    mode == "cluster"@
}

/// The host entries a configuration uses must be usable: all of them
/// in cluster mode, the first one otherwise.
pub open spec fn spec_cache_hosts_wf(hosts: Seq<char>, mode: Seq<char>) -> bool {
    let entries = spec_split(hosts, ',');
    if spec_is_cluster_mode(mode) {
        forall|i: int| 0 <= i < entries.len() ==> spec_host_entry_wf(#[trigger] entries[i])
    } else {
        spec_host_entry_wf(entries[0])
    }
}

/// The endpoints a configuration selects.
pub open spec fn spec_cache_endpoints(hosts: Seq<char>, mode: Seq<char>) -> Seq<ConnectionInfoView> {
    let entries = spec_split(hosts, ',');
    if spec_is_cluster_mode(mode) {
        entries.map_values(|e: Seq<char>| spec_conn_info(e))
    } else {
        seq![spec_conn_info(entries[0])]
    }
}

fn create_info(entry: &String) -> (r: ConnectionInfo)
    requires
        spec_host_entry_wf(entry@),
    ensures
        r@ == spec_conn_info(entry@),
{
    let sub = split_char(entry.as_str(), ':');
    proof {
        assert(views_of(sub@).len() == sub@.len());
        assert(views_of(sub@)[0] == sub@[0]@);
        assert(views_of(sub@)[1] == sub@[1]@);
    }
    let host = sub[0].clone();
    let port = match parse_u64_dec(sub[1].as_str()) {
        Option::Some(p) => p as u16,
        Option::None => {
            proof {
                assert(false);
            }
            0u16
        },
    };
    ConnectionInfo { host, port }
}

/// The node addresses the configuration names: every host in cluster
/// mode, only the first otherwise.
pub fn cache_endpoints_of(config: &RedisConfig) -> (ret: Vec<ConnectionInfo>)
    requires
        spec_cache_hosts_wf(config.hosts@, config.mode@),
    ensures
        ret@.map_values(|c: ConnectionInfo| c@) == spec_cache_endpoints(
            config.hosts@,
            config.mode@,
        ),
        ret@.len() >= 1,
{
    let list = split_char(config.hosts.as_str(), ',');
    let ghost entries = spec_split(config.hosts@, ',');
    proof {
        assert(views_of(list@) == entries);
        assert(views_of(list@).len() == list@.len());
    }
    let mut ret: Vec<ConnectionInfo> = Vec::new();
    let is_cluster = config.mode == String::from_str("cluster");
    if is_cluster {
        let mut i: usize = 0;
        while i < list.len()
            invariant
                0 <= i <= list@.len(),
                views_of(list@) == entries,
                list@.len() == entries.len(),
                spec_is_cluster_mode(config.mode@),
                spec_cache_hosts_wf(config.hosts@, config.mode@),
                entries == spec_split(config.hosts@, ','),
                ret@.len() == i,
                forall|j: int| 0 <= j < i ==> (#[trigger] ret@[j])@ == spec_conn_info(entries[j]),
            decreases list@.len() - i,
        {
            proof {
                assert(views_of(list@)[i as int] == list@[i as int]@);
            }
            let info = create_info(&list[i]);
            ret.push(info);
            i = i + 1;
        }
        proof {
            assert(ret@.map_values(|c: ConnectionInfo| c@) =~= entries.map_values(
                |e: Seq<char>| spec_conn_info(e),
            ));
        }
    } else {
        proof {
            assert(views_of(list@)[0] == list@[0]@);
        }
        let info = create_info(&list[0]);
        ret.push(info);
        proof {
            assert(ret@.map_values(|c: ConnectionInfo| c@) =~= seq![spec_conn_info(entries[0])]);
        }
    }
    ret
}

// ---------------------------------------------------------------------
// The store model
// ---------------------------------------------------------------------
/// The map a sequence of writes amounts to: later writes win.
pub open spec fn spec_store_map(s: Seq<(String, String)>) -> Map<Seq<char>, Seq<char>>
    decreases s.len(),
{
    if s.len() == 0 {
        Map::empty()
    } else {
        spec_store_map(s.drop_last()).insert(s.last().0@, s.last().1@)
    }
}

/// Writes at and after `j` aside, a key the later writes never touch
/// reads the same in the whole store and in the first `j` writes.
proof fn lemma_store_map_skip(s: Seq<(String, String)>, k: Seq<char>, j: int)
    requires
        0 <= j <= s.len(),
        forall|i: int| j <= i < s.len() ==> (#[trigger] s[i]).0@ != k,
    ensures
        spec_store_map(s).contains_key(k) <==> spec_store_map(s.subrange(0, j)).contains_key(k),
        spec_store_map(s).contains_key(k) ==> spec_store_map(s)[k] == spec_store_map(
            s.subrange(0, j),
        )[k],
    decreases s.len() - j,
{
    if j == s.len() {
        assert(s.subrange(0, j) =~= s);
    } else {
        let s2 = s.drop_last();
        assert(s2 =~= s.subrange(0, s.len() - 1));
        assert(s.last().0@ != k);
        lemma_store_map_skip(s2, k, j);
        assert(s2.subrange(0, j) =~= s.subrange(0, j));
    }
}

fn store_get(entries: &Vec<(String, String)>, key: &String) -> (r: Option<String>)
    ensures
        match r {
            Option::Some(v) => spec_store_map(entries@).contains_key(key@) && v@ == spec_store_map(
                entries@,
            )[key@],
            Option::None => !spec_store_map(entries@).contains_key(key@),
        },
{
    let mut j = entries.len();
    while j > 0
        invariant
            0 <= j <= entries@.len(),
            forall|i: int| j <= i < entries@.len() ==> (#[trigger] entries@[i]).0@ != key@,
        decreases j,
    {
        let idx = j - 1;
        if entries[idx].0 == *key {
            let value = entries[idx].1.clone();
            proof {
                lemma_store_map_skip(entries@, key@, idx as int + 1);
                let t = entries@.subrange(0, idx as int + 1);
                assert(t.last() == entries@[idx as int]);
                assert(spec_store_map(t) == spec_store_map(t.drop_last()).insert(
                    t.last().0@,
                    t.last().1@,
                ));
            }
            return Option::Some(value);
        }
        j = idx;
    }
    proof {
        lemma_store_map_skip(entries@, key@, 0);
        assert(entries@.subrange(0, 0) =~= Seq::<(String, String)>::empty());
    }
    Option::None
}

fn store_set(entries: &mut Vec<(String, String)>, key: &String, value: &String)
    ensures
        spec_store_map(final(entries)@) == spec_store_map(old(entries)@).insert(key@, value@),
{
    entries.push((key.clone(), value.clone()));
    proof {
        assert(entries@.drop_last() =~= old(entries)@);
        assert(entries@.last().0@ == key@);
        assert(entries@.last().1@ == value@);
    }
}

// ---------------------------------------------------------------------
// The two client shapes behind one interface
// ---------------------------------------------------------------------
/// What a lookup yields from given store contents: the stored value,
/// or a miss.
pub open spec fn spec_cache_lookup(store: Map<Seq<char>, Seq<char>>, k: Seq<char>) -> Option<
    Seq<char>,
> {
    if store.contains_key(k) {
        Option::Some(store[k])
    } else {
        Option::None
    }
}

/// What a cache client is, mathematically: its topology, its
/// endpoints, and the store it gives access to.
pub struct CacheView {
    /// Whether the client fans over a cluster.
    pub cluster: bool,
    /// The node addresses the client was built over.
    pub endpoints: Seq<ConnectionInfoView>,
    /// The key/value store.
    pub store: Map<Seq<char>, Seq<char>>,
}

/// Law: the cache is topology-transparent.  What `get` may answer is
/// fixed by the store contents alone, so two clients over equal
/// stores — one single-node, one cluster-aware — answer every key
/// identically; the topology never enters.
pub proof fn lemma_topology_transparent(a: CacheView, b: CacheView, k: Seq<char>)
    requires
        a.store == b.store,
    ensures
        spec_cache_lookup(a.store, k) == spec_cache_lookup(b.store, k),
{
}

/// The cache client the orchestrator holds: built once from
/// configuration, then queried through `get` and `set` alone.
#[derive(Debug)]
pub struct RedisClientOperation {
    cluster: bool,
    endpoints: Vec<ConnectionInfo>,
    entries: Vec<(String, String)>,
}

impl View for RedisClientOperation {
    type V = CacheView;

    closed spec fn view(&self) -> CacheView {
        CacheView {
            cluster: self.cluster,
            endpoints: self.endpoints@.map_values(|c: ConnectionInfo| c@),
            store: spec_store_map(self.entries@),
        }
    }
}

impl RedisClientOperation {
    /// The node addresses the configuration names.
    pub fn get_redis_info(config: &RedisConfig) -> (ret: Vec<ConnectionInfo>)
        requires
            spec_cache_hosts_wf(config.hosts@, config.mode@),
        ensures
            ret@.map_values(|c: ConnectionInfo| c@) == spec_cache_endpoints(
                config.hosts@,
                config.mode@,
            ),
            ret@.len() >= 1,
    {
        cache_endpoints_of(config)
    }

    /// Builds the client: a single endpoint makes a single-node
    /// client, several make a cluster-aware one.  The store starts
    /// empty.
    pub fn new(config: &RedisConfig) -> (r: RedisClientOperation)
        requires
            spec_cache_hosts_wf(config.hosts@, config.mode@),
        ensures
            r@.endpoints == spec_cache_endpoints(config.hosts@, config.mode@),
            r@.cluster <==> spec_cache_endpoints(config.hosts@, config.mode@).len() > 1,
            r@.store == Map::<Seq<char>, Seq<char>>::empty(),
    {
        let endpoints = cache_endpoints_of(config);
        let cluster = endpoints.len() > 1;
        RedisClientOperation { cluster, endpoints, entries: Vec::new() }
    }

    /// Whether the cluster-aware client is active.
    pub fn is_cluster_client(&self) -> (r: bool)
        ensures
            r == self@.cluster,
    {
        self.cluster
    }

    /// Stores `value` under `id`; later writes to the same key win.
    pub fn set(&mut self, id: &String, value: &mut String) -> (r: Result<(), CacheError>)
        ensures
            final(self)@.store == old(self)@.store.insert(id@, final(value)@),
            final(self)@.cluster == old(self)@.cluster,
            final(self)@.endpoints == old(self)@.endpoints,
            final(value)@ == old(value)@,
            r is Ok,
    {
        store_set(&mut self.entries, id, value);
        Result::Ok(())
    }

    /// The value stored under `id`; `None` is a miss.
    pub fn get(&mut self, id: &String) -> (r: Option<String>)
        ensures
            *final(self) == *old(self),
            match r {
                Option::Some(v) => spec_cache_lookup(old(self)@.store, id@) == Option::Some(v@),
                Option::None => spec_cache_lookup(old(self)@.store, id@) is None,
            },
    {
        store_get(&self.entries, id)
    }
}

/// The older cache handle: built empty, aimed at the configured nodes
/// by `init`, then queried through the same two operations.
#[derive(Debug)]
pub struct RedisClientManager {
    initialized: bool,
    cluster: bool,
    endpoints: Vec<ConnectionInfo>,
    entries: Vec<(String, String)>,
}

/// Mathematical image of a `RedisClientManager`.
pub struct ManagerView {
    pub initialized: bool,
    pub cluster: bool,
    pub endpoints: Seq<ConnectionInfoView>,
    pub store: Map<Seq<char>, Seq<char>>,
}

impl View for RedisClientManager {
    type V = ManagerView;

    closed spec fn view(&self) -> ManagerView {
        ManagerView {
            initialized: self.initialized,
            cluster: self.cluster,
            endpoints: self.endpoints@.map_values(|c: ConnectionInfo| c@),
            store: spec_store_map(self.entries@),
        }
    }
}

impl Default for RedisClientManager {
    /// A manager that still awaits `init`.
    fn default() -> (r: RedisClientManager)
        ensures
            !r@.initialized,
            r@.store == Map::<Seq<char>, Seq<char>>::empty(),
    {
        RedisClientManager {
            initialized: false,
            cluster: false,
            endpoints: Vec::new(),
            entries: Vec::new(),
        }
    }
}

impl RedisClientManager {
    /// Aims the manager at the configured nodes; must run before any
    /// `set` or `get`.  The store starts empty.
    pub fn init(&mut self, config: &RedisConfig)
        requires
            spec_cache_hosts_wf(config.hosts@, config.mode@),
        ensures
            final(self)@.initialized,
            final(self)@.endpoints == spec_cache_endpoints(config.hosts@, config.mode@),
            final(self)@.cluster <==> spec_cache_endpoints(config.hosts@, config.mode@).len() > 1,
            final(self)@.store == Map::<Seq<char>, Seq<char>>::empty(),
    {
        let endpoints = cache_endpoints_of(config);
        self.cluster = endpoints.len() > 1;
        self.endpoints = endpoints;
        self.entries = Vec::new();
        self.initialized = true;
    }

    /// Releases nothing: the connections close when the manager is
    /// dropped.
    pub fn uninit(&mut self)
        ensures
            *final(self) == *old(self),
    {
    }

    /// Stores `value` under `id`; later writes to the same key win.
    pub fn set(&mut self, id: &String, value: &mut String) -> (r: Result<(), CacheError>)
        requires
            old(self)@.initialized,
        ensures
            final(self)@.store == old(self)@.store.insert(id@, final(value)@),
            final(self)@.initialized == old(self)@.initialized,
            final(self)@.cluster == old(self)@.cluster,
            final(self)@.endpoints == old(self)@.endpoints,
            final(value)@ == old(value)@,
            r is Ok,
    {
        store_set(&mut self.entries, id, value);
        Result::Ok(())
    }

    /// The value stored under `id`; `None` is a miss.
    pub fn get(&mut self, id: &String) -> (r: Option<String>)
        requires
            old(self)@.initialized,
        ensures
            *final(self) == *old(self),
            match r {
                Option::Some(v) => spec_cache_lookup(old(self)@.store, id@) == Option::Some(v@),
                Option::None => spec_cache_lookup(old(self)@.store, id@) is None,
            },
    {
        store_get(&self.entries, id)
    }

    /// The node addresses the configuration names.
    pub fn get_redis_info(&self, config: &RedisConfig) -> (ret: Vec<ConnectionInfo>)
        requires
            spec_cache_hosts_wf(config.hosts@, config.mode@),
        ensures
            ret@.map_values(|c: ConnectionInfo| c@) == spec_cache_endpoints(
                config.hosts@,
                config.mode@,
            ),
            ret@.len() >= 1,
    {
        cache_endpoints_of(config)
    }
}

} // verus!

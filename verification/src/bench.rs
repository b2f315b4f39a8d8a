//! The bench that scenarios run on: two nodes, an object store, the links between them, and the
//! settings each node is started with.

use crate::text::{decimal, padded, push_decimal, push_padded};
use vstd::prelude::*;

verus! {

/// One of the two nodes.
#[derive(Debug, Clone, Copy, PartialEq, Eq, Structural)]
pub enum Node {
    A,
    B,
}

/// A node by its name or by the role that the election gave it.
#[derive(Debug, Clone, Copy, PartialEq, Eq, Structural)]
pub enum Who {
    A,
    B,
    /// The node that was found to accept writes.
    Leader,
    /// The other one.
    Follower,
}

/// The other node.
#[verifier::allow_in_spec]
pub fn other(node: Node) -> Node
    returns
        (match node {
            Node::A => Node::B,
            Node::B => Node::A,
        }),
{
    match node {
        Node::A => Node::B,
        Node::B => Node::A,
    }
}

/// The node that `who` means while `leader` leads.
#[verifier::allow_in_spec]
pub fn resolve(who: Who, leader: Node) -> Node
    returns
        (match who {
            Who::A => Node::A,
            Who::B => Node::B,
            Who::Leader => leader,
            Who::Follower => other(leader),
        }),
{
    match who {
        Who::A => Node::A,
        Who::B => Node::B,
        Who::Leader => leader,
        Who::Follower => other(leader),
    }
}

/// Leader and follower are never the same node, and between them they are both nodes.
pub proof fn roles_split_the_nodes(leader: Node, n: Node)
    ensures
        resolve(Who::Leader, leader) != resolve(Who::Follower, leader),
        n == resolve(Who::Leader, leader) || n == resolve(Who::Follower, leader),
{
}

/// A connection that a proxy stands in.
#[derive(Debug, Clone, Copy, PartialEq, Eq, Structural)]
pub enum Link {
    /// The way to a node's replication port.
    Replication(Who),
    /// A node's own way to the object store.
    Store(Who),
    /// The way of both nodes to the object store.
    SharedStore,
}

/// Where a port number comes from.
#[derive(Debug, Clone, Copy)]
pub enum PortBase {
    /// The port that the harness keeps for a name.
    Named(&'static str),
    /// A block of a hundred ports, of which the process takes one by its id.
    Run(u16),
    /// Twenty blocks of ten ports, of which the process takes one by its id.
    Spread(u16),
}

/// A port at some distance from its base.
#[derive(Debug, Clone, Copy)]
pub struct Port {
    pub base: PortBase,
    pub offset: u16,
}

/// The port `offset` above the one kept for `name`.
#[verifier::allow_in_spec]
pub fn named(name: &'static str, offset: u16) -> Port
    returns
        (Port { base: PortBase::Named(name), offset }),
{
    Port { base: PortBase::Named(name), offset }
}

/// The port `offset` above the process's own in the block that begins at `base`.
#[verifier::allow_in_spec]
pub fn run_port(base: u16, offset: u16) -> Port
    returns
        (Port { base: PortBase::Run(base), offset }),
{
    Port { base: PortBase::Run(base), offset }
}

/// The port `offset` above the process's own block of ten, of those that begin at `base`.
#[verifier::allow_in_spec]
pub fn spread_port(base: u16, offset: u16) -> Port
    returns
        (Port { base: PortBase::Spread(base), offset }),
{
    Port { base: PortBase::Spread(base), offset }
}

/// The number of a port in a process with the id `pid`, where `kept` is the port that the harness
/// keeps for a name.
pub open spec fn port_number(p: Port, pid: u32, kept: u16) -> int {
    match p.base {
        PortBase::Named(_) => kept + p.offset,
        PortBase::Run(base) => base + pid % 100 + p.offset,
        PortBase::Spread(base) => base + pid % 20 * 10 + p.offset,
    }
}

/// The number of a port; `None` where there is no such port.
pub fn port_of(p: Port, pid: u32, kept: u16) -> (r: Option<u16>)
    ensures
        r == if port_number(p, pid, kept) <= u16::MAX {
            Some(port_number(p, pid, kept) as u16)
        } else {
            None
        },
{
    let base: u32 = match p.base {
        PortBase::Named(_) => kept as u32,
        PortBase::Run(base) => base as u32 + pid % 100,
        PortBase::Spread(base) => base as u32 + pid % 20 * 10,
    };
    let number: u32 = base + p.offset as u32;
    if number <= 65535 {
        Some(number as u16)
    } else {
        None
    }
}

/// Two processes whose ids differ by less than a hundred get different ports from one block.
pub proof fn neighbouring_runs_do_not_collide(base: u16, offset: u16, p: u32, q: u32)
    requires
        p < q < p + 100,
    ensures
        port_number(run_port(base, offset), p, 0) != port_number(run_port(base, offset), q, 0),
{
    assert(p % 100 != q % 100) by (nonlinear_arith)
        requires
            p < q < p + 100,
    ;
}

/// `127.0.0.1:PORT`, as text.
pub open spec fn loopback(port: nat) -> Seq<char> {
    "127.0.0.1:"@ + decimal(port)
}

/// `127.0.0.1:PORT`.
pub fn loopback_address(port: u16) -> (r: String)
    ensures
        r@ == loopback(port as nat),
{
    let mut out: String = "127.0.0.1:".to_owned();
    push_decimal(&mut out, port as u128);
    out
}

/// How aggregates are spread over the shards.
#[derive(Debug, Clone, Copy, PartialEq, Eq, Structural)]
pub enum Routing {
    OrgId,
    AggregateTypeId,
    AggregateId,
}

/// The part a node is told to play before any election.
#[derive(Debug, Clone, Copy, PartialEq, Eq, Structural)]
pub enum Role {
    Leader,
    Follower,
}

/// Whether clients have to show a certificate.
#[derive(Debug, Clone, Copy)]
pub enum ClientAuth {
    Require,
    /// They are not asked for one.
    Anonymous,
    /// Whatever the server takes this word for.
    Named(&'static str),
}

/// How a node reaches the object store.
#[derive(Debug, Clone, Copy)]
pub enum Store {
    /// Not at all.
    Off,
    /// With the settings that the running container reports.
    Container,
    /// With the settings of the running container, through a proxy.
    Through(Link),
    /// With settings that lead nowhere.
    Unreachable,
}

/// The settings that nothing overrides.
#[derive(Debug, Clone, Copy, PartialEq, Eq, Structural)]
pub enum Preset {
    /// The harness's own.
    Plain,
    /// The harness's settings for a node of a replicated pair.
    Cluster,
    /// The harness's own, with the shards and the write delay that the machine is tuned to.
    Tuned,
}

/// The settings of one node: those that a scenario sets, over a preset.
#[derive(Debug, Clone, Copy)]
pub struct NodeConfig {
    pub preset: Preset,
    pub num_shards: Option<u64>,
    pub standalone: bool,
    pub log_level: Option<&'static str>,
    pub routing_rule: Option<Routing>,
    pub client_port: Option<Port>,
    pub cluster_role: Option<Role>,
    pub bootstrap_as_leader: Option<bool>,
    pub follower_address: Option<Port>,
    pub advertised_replication_address: Option<Port>,
    pub store: Store,
    pub s3_skip_signature: Option<bool>,
    pub s3_lease_duration_ms: Option<u64>,
    pub heartbeat_lease_duration_ms: Option<u64>,
    pub heartbeat_interval_ms: Option<u64>,
    pub max_clock_drift_ms: Option<u64>,
    pub max_catchup_gap_bytes: Option<u64>,
    /// The label that the subfolder of the bucket is made of.
    pub s3_subfolder: Option<&'static str>,
    pub tls_strict: Option<ClientAuth>,
    pub require_client_identity: bool,
    pub insecure_allow_plaintext_auth: bool,
    pub shard_log_preallocate_bytes: Option<u64>,
    pub list_page_size: Option<u64>,
    pub list_max_duration_ms: Option<u64>,
    pub compaction_check_interval_secs: Option<u64>,
    /// In hundredths.
    pub compaction_min_reclaimable_percent: Option<u64>,
}

/// The harness's own settings.
#[verifier::allow_in_spec]
pub fn plain() -> NodeConfig
    returns
        (NodeConfig {
            preset: Preset::Plain,
            num_shards: None,
            standalone: false,
            log_level: None,
            routing_rule: None,
            client_port: None,
            cluster_role: None,
            bootstrap_as_leader: None,
            follower_address: None,
            advertised_replication_address: None,
            store: Store::Off,
            s3_skip_signature: None,
            s3_lease_duration_ms: None,
            heartbeat_lease_duration_ms: None,
            heartbeat_interval_ms: None,
            max_clock_drift_ms: None,
            max_catchup_gap_bytes: None,
            s3_subfolder: None,
            tls_strict: None,
            require_client_identity: false,
            insecure_allow_plaintext_auth: false,
            shard_log_preallocate_bytes: None,
            list_page_size: None,
            list_max_duration_ms: None,
            compaction_check_interval_secs: None,
            compaction_min_reclaimable_percent: None,
        }),
{
    NodeConfig {
        preset: Preset::Plain,
        num_shards: None,
        standalone: false,
        log_level: None,
        routing_rule: None,
        client_port: None,
        cluster_role: None,
        bootstrap_as_leader: None,
        follower_address: None,
        advertised_replication_address: None,
        store: Store::Off,
        s3_skip_signature: None,
        s3_lease_duration_ms: None,
        heartbeat_lease_duration_ms: None,
        heartbeat_interval_ms: None,
        max_clock_drift_ms: None,
        max_catchup_gap_bytes: None,
        s3_subfolder: None,
        tls_strict: None,
        require_client_identity: false,
        insecure_allow_plaintext_auth: false,
        shard_log_preallocate_bytes: None,
        list_page_size: None,
        list_max_duration_ms: None,
        compaction_check_interval_secs: None,
        compaction_min_reclaimable_percent: None,
    }
}

/// A node on its own with `shards` shards.
#[verifier::allow_in_spec]
pub fn standalone(shards: u64) -> NodeConfig
    returns
        (NodeConfig { num_shards: Some(shards), standalone: true, ..plain() }),
{
    NodeConfig { num_shards: Some(shards), standalone: true, ..plain() }
}

/// A node of a replicated pair with `shards` shards and the container as its store.
#[verifier::allow_in_spec]
pub fn s3_cluster(shards: u64) -> NodeConfig
    returns
        (NodeConfig {
            preset: Preset::Cluster,
            num_shards: Some(shards),
            store: Store::Container,
            ..plain()
        }),
{
    NodeConfig {
        preset: Preset::Cluster,
        num_shards: Some(shards),
        store: Store::Container,
        ..plain()
    }
}

/// A node of a pair with one shard, its own subfolder of the bucket, and the replication port
/// that the other node is told.
#[verifier::allow_in_spec]
pub fn cluster_config(subfolder: &'static str, replication: Port) -> NodeConfig
    returns
        (NodeConfig {
            s3_subfolder: Some(subfolder),
            advertised_replication_address: Some(replication),
            ..s3_cluster(1)
        }),
{
    NodeConfig {
        s3_subfolder: Some(subfolder),
        advertised_replication_address: Some(replication),
        ..s3_cluster(1)
    }
}

/// A node on its own that speaks TLS only.
#[verifier::allow_in_spec]
pub fn tls_settings(client_auth: ClientAuth) -> NodeConfig
    returns
        (NodeConfig { tls_strict: Some(client_auth), ..standalone(1) }),
{
    NodeConfig { tls_strict: Some(client_auth), ..standalone(1) }
}

/// A node on its own that refuses clients without an identity, over plain connections.
#[verifier::allow_in_spec]
pub fn identity_config() -> NodeConfig
    returns
        (NodeConfig {
            require_client_identity: true,
            insecure_allow_plaintext_auth: true,
            ..standalone(1)
        }),
{
    NodeConfig {
        require_client_identity: true,
        insecure_allow_plaintext_auth: true,
        ..standalone(1)
    }
}

/// A node of a pair of four shards that routes by aggregate type, with its settings for the store
/// spelled out.
#[verifier::allow_in_spec]
pub fn s3_typed(shards: u64) -> NodeConfig
    returns
        (NodeConfig {
            num_shards: Some(shards),
            log_level: Some("info"),
            routing_rule: Some(Routing::AggregateTypeId),
            store: Store::Container,
            s3_skip_signature: Some(false),
            ..plain()
        }),
{
    NodeConfig {
        num_shards: Some(shards),
        log_level: Some("info"),
        routing_rule: Some(Routing::AggregateTypeId),
        store: Store::Container,
        s3_skip_signature: Some(false),
        ..plain()
    }
}

/// The subfolder of one run of a test: no two runs share one, so objects that an earlier run left
/// behind are never seen.
pub open spec fn subfolder_text(label: Seq<char>, pid: nat, nonce: nat) -> Seq<char> {
    label + "-"@ + decimal(pid) + "-"@ + decimal(nonce)
}

/// The subfolder of one run of a test.
pub fn run_subfolder(label: &str, pid: u32, nonce: u128) -> (r: String)
    ensures
        r@ == subfolder_text(label@, pid as nat, nonce as nat),
{
    let mut out: String = label.to_owned();
    out.append("-");
    push_decimal(&mut out, pid as u128);
    out.append("-");
    push_decimal(&mut out, nonce);
    out
}

/// The aggregate id that a probe uses `elapsed_ms` after the probing began: a new one almost every
/// time.
#[verifier::allow_in_spec]
pub fn probe_id(elapsed_ms: u64) -> u128
    returns
        ((elapsed_ms % 1000) as u128),
{
    (elapsed_ms % 1000) as u128
}

/// The shard that holds an aggregate type.
pub open spec fn shard_of_type(aggregate_type_id: u128, num_shards: u32) -> int {
    aggregate_type_id as int % num_shards as int
}

/// The shard that holds an aggregate type.
pub fn expected_shard(aggregate_type_id: u128, num_shards: u32) -> (r: u32)
    requires
        num_shards > 0,
    ensures
        r == shard_of_type(aggregate_type_id, num_shards),
{
    (aggregate_type_id % num_shards as u128) as u32
}

/// Where the batches of a shard are kept while its follower is away.
pub open spec fn shard_prefix_text(shard: nat) -> Seq<char> {
    "cluster/fallback/shard_"@ + padded(shard, 3) + "/"@
}

/// Where the batches of a shard are kept while its follower is away.
pub fn shard_prefix(shard: u32) -> (r: String)
    ensures
        r@ == shard_prefix_text(shard as nat),
{
    let mut out: String = "cluster/fallback/shard_".to_owned();
    push_padded(&mut out, shard as u128, 3);
    out.append("/");
    out
}

/// Where the entries of each of so many shards are, shard by shard.
pub fn fallback_prefixes(shards: u32) -> (r: Vec<String>)
    ensures
        r@.len() == shards,
        forall|i: int| 0 <= i < shards ==> (#[trigger] r@[i])@ == shard_prefix_text(i as nat),
{
    let mut out: Vec<String> = Vec::new();
    for i in 0..shards
        invariant
            out@.len() == i,
            forall|j: int| 0 <= j < i ==> (#[trigger] out@[j])@ == shard_prefix_text(j as nat),
    {
        out.push(shard_prefix(i));
    }
    out
}

/// The object that holds entries `first` to `last` of a shard's log.
pub open spec fn batch_path_text(shard: nat, first: nat, last: nat) -> Seq<char> {
    shard_prefix_text(shard) + "batch_"@ + padded(first, 9) + "_"@ + padded(last, 9) + ".bin"@
}

/// The object that holds entries `first` to `last` of a shard's log.
pub fn batch_path(shard: u32, first: u64, last: u64) -> (r: String)
    ensures
        r@ == batch_path_text(shard as nat, first as nat, last as nat),
{
    let mut out: String = shard_prefix(shard);
    out.append("batch_");
    push_padded(&mut out, first as u128, 9);
    out.append("_");
    push_padded(&mut out, last as u128, 9);
    out.append(".bin");
    out
}

/// How a server reaches its object store.
#[derive(Debug)]
pub struct S3Fields {
    pub region: String,
    pub bucket: String,
    pub access_key: String,
    pub secret_key: String,
    pub endpoint: String,
    pub allow_http: bool,
}

/// Where a server finds what it needs for TLS.
#[derive(Debug)]
pub struct TlsPaths {
    pub ca_cert: String,
    pub node_cert: String,
    pub node_key: String,
}

/// The settings that a server is started with: those of a scenario, and those that are known only
/// once the bench is up. A setting that is `None` is the server's own.
#[derive(Debug)]
pub struct ServerConfig {
    pub node: NodeConfig,
    pub s3_enabled: bool,
    pub s3_region: Option<String>,
    pub s3_bucket: Option<String>,
    pub s3_access_key_id: Option<String>,
    pub s3_secret_access_key: Option<String>,
    pub s3_endpoint_override: Option<String>,
    pub s3_allow_http: bool,
    pub tls_strict: bool,
    pub tls_ca_cert: Option<String>,
    pub tls_node_cert: Option<String>,
    pub tls_node_key: Option<String>,
    pub tls_client_auth: Option<ClientAuth>,
}

/// Whether a setting is there and has this text.
pub open spec fn holds_text(setting: Option<String>, text: Seq<char>) -> bool {
    setting matches Some(s) && s@ == text
}

/// Whether the settings of the store are those of `s3`, each in its place.
pub open spec fn reaches_store(config: ServerConfig, s3: S3Fields) -> bool {
    &&& holds_text(config.s3_region, s3.region@)
    &&& holds_text(config.s3_bucket, s3.bucket@)
    &&& holds_text(config.s3_access_key_id, s3.access_key@)
    &&& holds_text(config.s3_secret_access_key, s3.secret_key@)
    &&& holds_text(config.s3_endpoint_override, s3.endpoint@)
    &&& config.s3_allow_http == s3.allow_http
}

/// Whether nothing is set of the store.
pub open spec fn knows_no_store(config: ServerConfig) -> bool {
    &&& config.s3_region is None
    &&& config.s3_bucket is None
    &&& config.s3_access_key_id is None
    &&& config.s3_secret_access_key is None
    &&& config.s3_endpoint_override is None
    &&& !config.s3_allow_http
}

/// Whether the files for TLS are those of `tls`, each in its place.
pub open spec fn finds_files(config: ServerConfig, tls: TlsPaths) -> bool {
    &&& holds_text(config.tls_ca_cert, tls.ca_cert@)
    &&& holds_text(config.tls_node_cert, tls.node_cert@)
    &&& holds_text(config.tls_node_key, tls.node_key@)
}

/// Whether no file for TLS is set.
pub open spec fn knows_no_files(config: ServerConfig) -> bool {
    &&& config.tls_ca_cert is None
    &&& config.tls_node_cert is None
    &&& config.tls_node_key is None
}

/// Whether a scenario's node has an object store.
#[verifier::allow_in_spec]
pub fn has_store(node: NodeConfig) -> bool
    returns
        (match node.store {
            Store::Off => false,
            _ => true,
        }),
{
    match node.store {
        Store::Off => false,
        _ => true,
    }
}

/// The settings that a scenario's node is started with, where the bench reports `s3` for its store
/// and `tls` for its files. What the scenario does not use is left out.
pub fn server_config(node: NodeConfig, s3: Option<&S3Fields>, tls: Option<&TlsPaths>) -> (r:
    ServerConfig)
    ensures
        r.node == node,
        r.s3_enabled == has_store(node),
        match s3 {
            Some(fields) => if has_store(node) {
                reaches_store(r, *fields)
            } else {
                knows_no_store(r)
            },
            None => knows_no_store(r),
        },
        r.tls_strict == node.tls_strict is Some,
        r.tls_client_auth == node.tls_strict,
        match tls {
            Some(paths) => if node.tls_strict is Some {
                finds_files(r, *paths)
            } else {
                knows_no_files(r)
            },
            None => knows_no_files(r),
        },
{
    let mut r: ServerConfig = ServerConfig {
        node,
        s3_enabled: has_store(node),
        s3_region: None,
        s3_bucket: None,
        s3_access_key_id: None,
        s3_secret_access_key: None,
        s3_endpoint_override: None,
        s3_allow_http: false,
        tls_strict: node.tls_strict.is_some(),
        tls_ca_cert: None,
        tls_node_cert: None,
        tls_node_key: None,
        tls_client_auth: node.tls_strict,
    };
    if has_store(node) {
        if let Some(fields) = s3 {
            r.s3_region = Some(fields.region.clone());
            r.s3_bucket = Some(fields.bucket.clone());
            r.s3_access_key_id = Some(fields.access_key.clone());
            r.s3_secret_access_key = Some(fields.secret_key.clone());
            r.s3_endpoint_override = Some(fields.endpoint.clone());
            r.s3_allow_http = fields.allow_http;
        }
    }
    if node.tls_strict.is_some() {
        if let Some(paths) = tls {
            r.tls_ca_cert = Some(paths.ca_cert.clone());
            r.tls_node_cert = Some(paths.node_cert.clone());
            r.tls_node_key = Some(paths.node_key.clone());
        }
    }
    r
}

/// The ports of one process stand as far apart as their offsets, wherever they begin.
pub proof fn offsets_keep_ports_apart(base: PortBase, a: u16, b: u16, pid: u32, kept: u16)
    ensures
        port_number(Port { base, offset: a }, pid, kept) - port_number(
            Port { base, offset: b },
            pid,
            kept,
        ) == a - b,
{
}

/// Two processes whose ids differ by less than twenty have blocks of ten ports of which none is in
/// both, and a process whose id is twenty further on has the same block.
pub proof fn spread_blocks_do_not_overlap(base: u16, a: u16, b: u16, p: u32, q: u32)
    requires
        p < q < p + 20,
        a < 10,
        b < 10,
        p + 20 <= u32::MAX,
    ensures
        port_number(spread_port(base, a), p, 0) != port_number(spread_port(base, b), q, 0),
        port_number(spread_port(base, a), p, 0) == port_number(
            spread_port(base, a),
            (p + 20) as u32,
            0,
        ),
        base <= port_number(spread_port(base, a), p, 0) < base + 200,
{
    lemma_blocks(p as int, q as int);
}

proof fn lemma_blocks(p: int, q: int)
    requires
        0 <= p < q < p + 20,
    ensures
        p % 20 != q % 20,
        (p + 20) % 20 == p % 20,
        0 <= p % 20 < 20,
{
}

/// Every aggregate type has a shard; a type that is as many further on as there are shards has the
/// same one, and the next type has another where there is more than one.
pub proof fn types_go_round_the_shards(aggregate_type_id: u128, num_shards: u32)
    requires
        num_shards > 0,
        aggregate_type_id + num_shards <= u128::MAX,
    ensures
        0 <= shard_of_type(aggregate_type_id, num_shards) < num_shards,
        shard_of_type((aggregate_type_id + num_shards) as u128, num_shards) == shard_of_type(
            aggregate_type_id,
            num_shards,
        ),
        num_shards > 1 ==> shard_of_type((aggregate_type_id + 1) as u128, num_shards)
            != shard_of_type(aggregate_type_id, num_shards),
        aggregate_type_id < num_shards ==> shard_of_type(aggregate_type_id, num_shards)
            == aggregate_type_id,
{
    let (x, n) = (aggregate_type_id as int, num_shards as int);
    vstd::arithmetic::div_mod::lemma_mod_add_multiples_vanish(x, n);
    vstd::arithmetic::div_mod::lemma_fundamental_div_mod(x, n);
    vstd::arithmetic::div_mod::lemma_fundamental_div_mod(x + 1, n);
    vstd::arithmetic::div_mod::lemma_mod_bound(x, n);
    if x < n {
        vstd::arithmetic::div_mod::lemma_small_mod(x as nat, n as nat);
    }
    if n > 1 && (x + 1) % n == x % n {
        let (d, e) = (x / n, (x + 1) / n);
        assert(n * e - n * d == 1);
        assert(n * e - n * d != 1) by (nonlinear_arith)
            requires
                n > 1,
        ;
    }
}

/// The id of a probe changes with every millisecond, and comes again after a second.
pub proof fn probe_ids_come_again_after_a_second(elapsed_ms: u64)
    requires
        elapsed_ms <= u64::MAX - 1000,
    ensures
        probe_id((elapsed_ms + 1) as u64) != probe_id(elapsed_ms),
        probe_id((elapsed_ms + 1000) as u64) == probe_id(elapsed_ms),
        elapsed_ms < 1000 ==> probe_id(elapsed_ms) == elapsed_ms,
{
}

/// Settings are told by what they name, and are the harness's own in everything else: a node on its own
/// has no store and no partner, and one of a pair has the shards that were asked for, its subfolder and
/// its address.
pub proof fn settings_are_told_by_what_they_name(
    shards: u64,
    subfolder: &'static str,
    replication: Port,
    auth: ClientAuth,
)
    ensures
        standalone(shards).num_shards == Some(shards),
        standalone(shards).standalone && !plain().standalone && !s3_cluster(shards).standalone,
        (NodeConfig { num_shards: None, standalone: false, ..standalone(shards) }) == plain(),
        s3_cluster(shards).num_shards == Some(shards),
        s3_cluster(shards).store != standalone(shards).store,
        cluster_config(subfolder, replication).s3_subfolder == Some(subfolder),
        cluster_config(subfolder, replication).advertised_replication_address == Some(replication),
        (NodeConfig {
            s3_subfolder: None,
            advertised_replication_address: None,
            ..cluster_config(subfolder, replication)
        }) == s3_cluster(1),
        tls_settings(auth).tls_strict == Some(auth) && plain().tls_strict is None,
        (NodeConfig { tls_strict: None, ..tls_settings(auth) }) == standalone(1),
        identity_config().require_client_identity && !tls_settings(auth).require_client_identity,
{
}

} // verus!

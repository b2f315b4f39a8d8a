//! The benchmark of a remote cluster: many connections, each writing to an aggregate of its own.
//!
//! Nothing is started: the cluster runs already. A write over a single connection comes first; then
//! the throughput of many connections and the latency of a few are measured.

use crate::stats::{Summary, TaskStats, compute_result, is_summary, totals_fit};
use crate::text::{
    NumberFault, decimal, has_prefix, has_suffix, is_fault, parse_u64, push_decimal, read_u64,
    strip_prefix, strip_suffix, u64_value,
};
use crate::workers::{collect_stats, finished_ones};
use vstd::prelude::*;

verus! {

/// How long a client waits for an answer.
pub const CLIENTSIDE_TIMEOUT_S: u64 = 30;

/// How long the cluster rests between the two measurements.
pub const REST_MS: u64 = 2_000;

/// A setting, or its default where it is not set.
pub fn env_or(value: Option<&str>, default: &str) -> (r: String)
    ensures
        r@ == match value {
            Some(v) => v@,
            None => default@,
        },
{
    match value {
        Some(v) => v.to_owned(),
        None => default.to_owned(),
    }
}

/// `rest` below `base`: itself where it begins at the root, and behind one slash otherwise.
pub open spec fn path_below(base: Seq<char>, rest: Seq<char>) -> Seq<char> {
    if has_prefix(rest, "/"@) {
        rest
    } else if base.len() == 0 || has_suffix(base, "/"@) {
        base + rest
    } else {
        base + "/"@ + rest
    }
}

/// A path with the home directory in place of a leading `~`, where one is known.
pub open spec fn expanded(path: Seq<char>, home: Option<Seq<char>>) -> Seq<char> {
    match home {
        Some(h) => if has_prefix(path, "~/"@) {
            path_below(h, path.skip(2))
        } else {
            path
        },
        None => path,
    }
}

/// A path with the home directory in place of a leading `~`, where one is known.
pub fn expand_home(path: &str, home: Option<&str>) -> (r: String)
    ensures
        r@ == expanded(
            path@,
            match home {
                Some(h) => Some(h@),
                None => None,
            },
        ),
{
    proof {
        reveal_strlit("~/");
        reveal_strlit("/");
    }
    match home {
        Some(h) => match strip_prefix(path, "~/") {
            Some(rest) => {
                if strip_prefix(rest, "/").is_some() {
                    return rest.to_owned();
                }
                let mut out: String = h.to_owned();
                if h.unicode_len() > 0 && strip_suffix(h, "/").is_none() {
                    out.append("/");
                }
                out.append(rest);
                assert(out@ =~= path_below(h@, rest@));
                out
            },
            None => path.to_owned(),
        },
        None => path.to_owned(),
    }
}

/// The settings that the benchmark is started with, each where it is set.
pub struct Environment<'a> {
    pub address: Option<&'a str>,
    pub plaintext: Option<&'a str>,
    pub server_name: Option<&'a str>,
    pub ca_cert: Option<&'a str>,
    pub client_cert: Option<&'a str>,
    pub client_key: Option<&'a str>,
    pub throughput_connections: Option<&'a str>,
    pub latency_connections: Option<&'a str>,
    pub duration: Option<&'a str>,
    pub connect_batch_size: Option<&'a str>,
    pub home: Option<&'a str>,
}

/// What a client needs to show and to trust.
#[derive(Debug)]
pub struct CertificatePaths {
    pub ca_cert: String,
    pub client_cert: String,
    pub client_key: String,
}

/// What the benchmark does.
#[derive(Debug)]
pub struct Settings {
    pub address: String,
    pub server_name: String,
    /// `None` where connections are plain.
    pub certificates: Option<CertificatePaths>,
    pub throughput_connections: u64,
    pub latency_connections: u64,
    pub duration_secs: u64,
    pub batch_size: u64,
}

/// A setting that is no number, by its name, and why it is none.
#[derive(Debug, Clone, Copy)]
pub struct BadNumber(pub &'static str, pub NumberFault);

/// The value of a setting, or its default.
pub open spec fn or_default(value: Option<&str>, default: Seq<char>) -> Seq<char> {
    match value {
        Some(v) => v@,
        None => default,
    }
}

/// The characters of a setting, where it is set.
pub open spec fn set_text(value: Option<&str>) -> Option<Seq<char>> {
    match value {
        Some(v) => Some(v@),
        None => None,
    }
}

/// Where the three files of a client are.
pub open spec fn paths_of(
    c: CertificatePaths,
    ca: Option<&str>,
    cert: Option<&str>,
    key: Option<&str>,
    home: Option<&str>,
) -> bool {
    &&& c.ca_cert@ == expanded(
        or_default(ca, "deploy/rpi-cluster/certs/client-ca.crt"@),
        set_text(home),
    )
    &&& c.client_cert@ == expanded(
        or_default(cert, "deploy/rpi-cluster/certs/client.crt"@),
        set_text(home),
    )
    &&& c.client_key@ == expanded(
        or_default(key, "deploy/rpi-cluster/certs/client.key"@),
        set_text(home),
    )
}

/// Where the three files of a client are, with a home directory in place of a leading `~`.
pub fn certificate_paths(
    ca: Option<&str>,
    cert: Option<&str>,
    key: Option<&str>,
    home: Option<&str>,
) -> (r: CertificatePaths)
    ensures
        paths_of(r, ca, cert, key, home),
{
    let ca_text: String = env_or(ca, "deploy/rpi-cluster/certs/client-ca.crt");
    let cert_text: String = env_or(cert, "deploy/rpi-cluster/certs/client.crt");
    let key_text: String = env_or(key, "deploy/rpi-cluster/certs/client.key");
    CertificatePaths {
        ca_cert: expand_home(ca_text.as_str(), home),
        client_cert: expand_home(cert_text.as_str(), home),
        client_key: expand_home(key_text.as_str(), home),
    }
}

/// The number that a setting gives; its default where it is not set, nothing where it is no number.
pub open spec fn number_setting(value: Option<&str>, default: u64) -> Option<u64> {
    match value {
        Some(v) => u64_value(v@),
        None => Some(default),
    }
}

/// Whether the setting with this name is no number, for the reason that is given.
pub open spec fn is_bad(value: Option<&str>, name: Seq<char>, e: BadNumber) -> bool {
    &&& e.0@ == name
    &&& value matches Some(v) && u64_value(v@) is None && is_fault(v@, e.1)
}

/// The number that a setting gives.
pub fn read_number(value: Option<&str>, default: u64, name: &'static str) -> (r: Result<
    u64,
    BadNumber,
>)
    ensures
        match r {
            Ok(n) => number_setting(value, default) == Some(n),
            Err(e) => number_setting(value, default) is None && is_bad(value, name@, e),
        },
{
    match value {
        Some(v) => match read_u64(v) {
            Ok(n) => Ok(n),
            Err(fault) => Err(BadNumber(name, fault)),
        },
        None => Ok(default),
    }
}

/// How many connections are opened at a time: a hundred where nothing usable is set.
pub open spec fn batch_setting(value: Option<&str>) -> u64 {
    match value {
        Some(v) => match u64_value(v@) {
            Some(n) => n,
            None => 100,
        },
        None => 100,
    }
}

fn read_batch_size(value: Option<&str>) -> (r: u64)
    ensures
        r == batch_setting(value),
{
    match value {
        Some(v) => match parse_u64(v) {
            Some(n) => n,
            None => 100,
        },
        None => 100,
    }
}

/// What the benchmark does, by its environment.
pub fn settings(env: &Environment) -> (r: Result<Settings, BadNumber>)
    ensures
        match r {
            Ok(s) => {
                &&& s.address@ == or_default(env.address, "10.0.0.50:10000"@)
                &&& s.server_name@ == or_default(env.server_name, "10.0.0.50"@)
                &&& s.certificates is Some == env.plaintext is None
                &&& s.certificates matches Some(c) ==> paths_of(
                    c,
                    env.ca_cert,
                    env.client_cert,
                    env.client_key,
                    env.home,
                )
                &&& number_setting(env.throughput_connections, 850) == Some(
                    s.throughput_connections,
                )
                &&& number_setting(env.latency_connections, 125) == Some(s.latency_connections)
                &&& number_setting(env.duration, 15) == Some(s.duration_secs)
                &&& s.batch_size == batch_setting(env.connect_batch_size)
            },
            Err(e) => if number_setting(env.throughput_connections, 850) is None {
                is_bad(env.throughput_connections, "CLUSTER_THROUGHPUT_CONNECTIONS"@, e)
            } else if number_setting(env.latency_connections, 125) is None {
                is_bad(env.latency_connections, "CLUSTER_LATENCY_CONNECTIONS"@, e)
            } else {
                is_bad(env.duration, "CLUSTER_DURATION"@, e)
            },
        },
{
    let throughput_connections: u64 = match read_number(
        env.throughput_connections,
        850,
        "CLUSTER_THROUGHPUT_CONNECTIONS",
    ) {
        Ok(n) => n,
        Err(e) => {
            return Err(e);
        },
    };
    let latency_connections: u64 = match read_number(
        env.latency_connections,
        125,
        "CLUSTER_LATENCY_CONNECTIONS",
    ) {
        Ok(n) => n,
        Err(e) => {
            return Err(e);
        },
    };
    let duration_secs: u64 = match read_number(env.duration, 15, "CLUSTER_DURATION") {
        Ok(n) => n,
        Err(e) => {
            return Err(e);
        },
    };
    let certificates: Option<CertificatePaths> = match env.plaintext {
        Some(_) => None,
        None => Some(
            certificate_paths(env.ca_cert, env.client_cert, env.client_key, env.home),
        ),
    };
    Ok(
        Settings {
            address: env_or(env.address, "10.0.0.50:10000"),
            server_name: env_or(env.server_name, "10.0.0.50"),
            certificates,
            throughput_connections,
            latency_connections,
            duration_secs,
            batch_size: read_batch_size(env.connect_batch_size),
        },
    )
}

/// One write to the remote cluster, of one event of type 1.0 that may create its aggregate.
#[derive(Debug)]
pub struct RemoteWrite {
    pub org_id: u128,
    pub aggregate_type_id: u128,
    pub aggregate_id: u128,
    pub client_id: u128,
    pub text: String,
}

/// The write that comes before all measurements.
pub fn smoke_test(client_id: u128) -> (r: RemoteWrite)
    ensures
        r.org_id == 99,
        r.aggregate_type_id == 99,
        r.aggregate_id == 99,
        r.client_id == client_id,
        r.text@ == "smoke-test"@,
{
    RemoteWrite {
        org_id: 99,
        aggregate_type_id: 99,
        aggregate_id: 99,
        client_id,
        text: "smoke-test".to_owned(),
    }
}

/// One part of the benchmark.
#[derive(Debug, Clone, Copy)]
pub enum Stage {
    /// The write over a single connection, under this client id.
    Smoke(u128),
    /// So many connections, or tasks, for so many seconds.
    Measure { label: &'static str, connections: u64, duration_secs: u64 },
    /// A rest of so many milliseconds.
    Rest(u64),
}

/// The parts of the benchmark, in order.
pub open spec fn stages(s: Settings) -> Seq<Stage> {
    seq![
        Stage::Smoke(1),
        Stage::Measure {
            label: "Throughput",
            connections: s.throughput_connections,
            duration_secs: s.duration_secs,
        },
        Stage::Rest(REST_MS),
        Stage::Measure {
            label: "Latency",
            connections: s.latency_connections,
            duration_secs: s.duration_secs,
        },
    ]
}

/// The parts of the benchmark, in order.
pub fn run(s: &Settings) -> (r: Vec<Stage>)
    ensures
        r@ == stages(*s),
{
    let r: Vec<Stage> = vec![
        Stage::Smoke(1),
        Stage::Measure {
            label: "Throughput",
            connections: s.throughput_connections,
            duration_secs: s.duration_secs,
        },
        Stage::Rest(REST_MS),
        Stage::Measure {
            label: "Latency",
            connections: s.latency_connections,
            duration_secs: s.duration_secs,
        },
    ];
    assert(r@ =~= stages(*s));
    r
}

/// What a measurement came to.
#[derive(Debug, Clone, Copy)]
pub struct BenchmarkResult {
    pub num_connections: usize,
    pub summary: Summary,
}

/// No connection could be opened.
#[derive(Debug, Clone, Copy, PartialEq, Eq, Structural)]
pub struct NoConnections;

/// Sums up a measurement over the connections that could be opened: `results` has an entry for each
/// of them, `None` where its work did not come to its end. Without a connection there is no result.
pub fn run_benchmark(results: Vec<Option<TaskStats>>) -> (r: Result<BenchmarkResult, NoConnections>)
    requires
        totals_fit(finished_ones(results@)),
    ensures
        match r {
            Ok(b) => {
                &&& results@.len() > 0
                &&& b.num_connections == results@.len()
                &&& is_summary(b.summary, finished_ones(results@))
            },
            Err(NoConnections) => results@.len() == 0,
        },
{
    let num_connections: usize = results.len();
    if num_connections == 0 {
        return Err(NoConnections);
    }
    let stats: Vec<TaskStats> = collect_stats(results);
    Ok(BenchmarkResult { num_connections, summary: compute_result(&stats) })
}

/// The ranges in which `n` connections are opened, `size` at a time.
pub open spec fn ranges(n: int, size: int) -> Seq<(int, int)>
    decreases n,
    when size > 0
{
    if n <= 0 {
        Seq::empty()
    } else {
        let begin = (n - 1) / size * size;
        if 0 <= begin < n {
            ranges(begin, size).push((begin, n))
        } else {
            Seq::empty()
        }
    }
}

/// The ranges in which `n` connections are opened, `size` at a time.
pub fn connect_batches(n: u64, size: u64) -> (r: Vec<(u64, u64)>)
    requires
        size > 0,
    ensures
        r@.len() == ranges(n as int, size as int).len(),
        forall|i: int|
            0 <= i < r@.len() ==> {
                &&& (#[trigger] r@[i]).0 == ranges(n as int, size as int)[i].0
                &&& r@[i].1 == ranges(n as int, size as int)[i].1
            },
{
    let mut out: Vec<(u64, u64)> = Vec::new();
    let mut begin: u64 = 0;
    while begin < n
        invariant
            size > 0,
            begin <= n,
            begin % size == 0 || begin == n,
            out@.len() == ranges(begin as int, size as int).len(),
            forall|i: int|
                0 <= i < out@.len() ==> {
                    &&& (#[trigger] out@[i]).0 == ranges(begin as int, size as int)[i].0
                    &&& out@[i].1 == ranges(begin as int, size as int)[i].1
                },
        decreases n - begin,
    {
        let end: u64 = if size < n - begin {
            begin + size
        } else {
            n
        };
        proof {
            let (b, e, s) = (begin as int, end as int, size as int);
            assert((e - 1) / s * s == b) by (nonlinear_arith)
                requires
                    s > 0,
                    b >= 0,
                    b % s == 0,
                    b < e <= b + s,
            {
                let q = b / s;
                assert(b == q * s);
                assert((e - 1) / s == q) by (nonlinear_arith)
                    requires
                        s > 0,
                        q * s <= e - 1 < q * s + s,
                ;
            }
            assert(end == n || end % size == 0) by {
                if e == b + s {
                    assert((b + s) % s == b % s) by (nonlinear_arith)
                        requires
                            s > 0,
                            b >= 0,
                    ;
                }
            }
        }
        out.push((begin, end));
        begin = end;
    }
    out
}

/// The ranges cover every connection once: they follow each other without a gap, from the first to
/// the last, and none is longer than asked for.
pub proof fn ranges_cover_everything(n: int, size: int, i: int)
    requires
        0 <= n,
        0 < size,
        0 <= i < ranges(n, size).len(),
    ensures
        ranges(n, size)[i].0 == i * size,
        ranges(n, size)[i].0 < ranges(n, size)[i].1 <= ranges(n, size)[i].0 + size,
        i + 1 < ranges(n, size).len() ==> ranges(n, size)[i].1 == ranges(n, size)[i + 1].0,
        i + 1 == ranges(n, size).len() ==> ranges(n, size)[i].1 == n,
    decreases n,
{
    let begin = (n - 1) / size * size;
    lemma_begin(n, size);
    if i + 1 < ranges(n, size).len() {
        ranges_cover_everything(begin, size, i);
    } else if i > 0 {
        ranges_cover_everything(begin, size, i - 1);
        assert(i * size == (i - 1) * size + size) by (nonlinear_arith);
        lemma_full_range(begin, size);
    } else {
        assert(ranges(begin, size).len() == 0);
        lemma_nothing_before(begin, size);
        assert(0 * size == 0);
    }
}

proof fn lemma_begin(n: int, size: int)
    requires
        0 < n,
        0 < size,
    ensures
        0 <= (n - 1) / size * size < n <= (n - 1) / size * size + size,
        ((n - 1) / size * size) % size == 0,
{
    let q = (n - 1) / size;
    assert(0 <= q * size < n <= q * size + size) by (nonlinear_arith)
        requires
            q == (n - 1) / size,
            0 < n,
            0 < size,
    ;
    assert((q * size) % size == 0) by (nonlinear_arith)
        requires
            0 < size,
    ;
}

proof fn lemma_nothing_before(n: int, size: int)
    requires
        0 <= n,
        0 < size,
        ranges(n, size).len() == 0,
    ensures
        n == 0,
{
    if n > 0 {
        lemma_begin(n, size);
    }
}

proof fn lemma_full_range(n: int, size: int)
    requires
        0 < n,
        0 < size,
        n % size == 0,
    ensures
        ranges(n, size).last().1 == n,
        ranges(n, size).last().0 == n - size,
{
    lemma_begin(n, size);
    let q = n / size;
    assert(n == q * size) by (nonlinear_arith)
        requires
            q == n / size,
            n % size == 0,
            0 < size,
    ;
    assert((n - 1) / size == q - 1) by (nonlinear_arith)
        requires
            n == q * size,
            0 < size,
    ;
    assert((q - 1) * size == q * size - size) by (nonlinear_arith);
}

/// How a write came out.
#[derive(Debug, Clone, Copy, PartialEq, Eq, Structural)]
pub enum WriteOutcome {
    Accepted,
    /// The server's own error, which is passed over.
    ServerError,
    /// The connection's error, which ends the connection's work.
    Broken,
}

/// One connection of the benchmark.
pub struct Connection {
    pub id: u64,
    pub deadline: u64,
    pub request_count: u64,
    pub latencies: Vec<u64>,
    pub stopped: bool,
}

/// The text of a connection's next write.
pub open spec fn greeting(id: nat, count: nat) -> Seq<char> {
    "[conn-"@ + decimal(id) + "-req-"@ + decimal(count) + "] hello"@
}

impl Connection {
    /// Every accepted write has its latency.
    pub open spec fn wf(&self) -> bool {
        self.latencies@.len() == self.request_count
    }

    /// A connection before its first write.
    pub fn new(id: u64, deadline: u64) -> (r: Connection)
        ensures
            r.wf(),
            r.id == id,
            r.deadline == deadline,
            r.request_count == 0,
            !r.stopped,
    {
        Connection { id, deadline, request_count: 0, latencies: Vec::new(), stopped: false }
    }

    /// The next write at the time `now`, to the connection's own aggregate under its own client id.
    pub fn next(&self, now: u64) -> (r: Option<RemoteWrite>)
        ensures
            r is Some == (!self.stopped && now < self.deadline),
            r matches Some(w) ==> {
                &&& w.org_id == 1
                &&& w.aggregate_type_id == 1
                &&& w.aggregate_id == self.id
                &&& w.client_id == self.id
                &&& w.text@ == greeting(self.id as nat, self.request_count as nat)
            },
    {
        if self.stopped || now >= self.deadline {
            return None;
        }
        let mut text: String = "[conn-".to_owned();
        push_decimal(&mut text, self.id as u128);
        text.append("-req-");
        push_decimal(&mut text, self.request_count as u128);
        text.append("] hello");
        Some(
            RemoteWrite {
                org_id: 1,
                aggregate_type_id: 1,
                aggregate_id: self.id as u128,
                client_id: self.id as u128,
                text,
            },
        )
    }

    /// Takes the outcome of the write, which took `latency` milliseconds.
    pub fn observe(&mut self, outcome: WriteOutcome, latency: u64)
        requires
            old(self).wf(),
            old(self).request_count < u64::MAX,
        ensures
            final(self).wf(),
            final(self).id == old(self).id,
            final(self).deadline == old(self).deadline,
            match outcome {
                WriteOutcome::Accepted => {
                    &&& final(self).request_count == old(self).request_count + 1
                    &&& final(self).latencies@ == old(self).latencies@.push(latency)
                    &&& final(self).stopped == old(self).stopped
                },
                WriteOutcome::ServerError => *final(self) == *old(self),
                WriteOutcome::Broken => {
                    &&& final(self).request_count == old(self).request_count
                    &&& final(self).latencies == old(self).latencies
                    &&& final(self).stopped
                },
            },
    {
        match outcome {
            WriteOutcome::Accepted => {
                self.latencies.push(latency);
                self.request_count = self.request_count + 1;
            },
            WriteOutcome::ServerError => {},
            WriteOutcome::Broken => {
                self.stopped = true;
            },
        }
    }

    /// What it measured. Errors are not counted here.
    pub fn into_stats(self) -> (r: TaskStats)
        ensures
            r.request_count == self.request_count,
            r.error_count == 0,
            r.latencies == self.latencies,
    {
        TaskStats { request_count: self.request_count, error_count: 0, latencies: self.latencies }
    }
}

} // verus!

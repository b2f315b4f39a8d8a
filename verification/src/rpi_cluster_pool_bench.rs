//! The benchmark of a remote cluster through a pool that finds the leader by itself.

use crate::rpi_cluster_bench::{
    BadNumber, BenchmarkResult, CertificatePaths, RemoteWrite, Stage, certificate_paths, env_or,
    is_bad, number_setting, or_default, paths_of, read_number,
};
use crate::stats::{
    Summary, TaskStats, compute_result, errors_of, is_summary, requests_of, summarises, totals_fit,
};
use crate::text::{decimal, push_decimal};
use crate::workers::{collect_stats, finished_ones};
use vstd::prelude::*;

verus! {

/// How long the pool tries to connect.
pub const CONNECTION_TIMEOUT_S: u64 = 30;

/// How long the pool waits for an answer.
pub const REQUEST_TIMEOUT_S: u64 = 5;

/// The settings that the benchmark is started with, each where it is set.
pub struct Environment<'a> {
    pub address_1: Option<&'a str>,
    pub address_2: Option<&'a str>,
    pub plaintext: Option<&'a str>,
    pub server_name: Option<&'a str>,
    pub ca_cert: Option<&'a str>,
    pub client_cert: Option<&'a str>,
    pub client_key: Option<&'a str>,
    pub connections: Option<&'a str>,
    pub tasks: Option<&'a str>,
    pub duration: Option<&'a str>,
    pub home: Option<&'a str>,
}

/// What the benchmark does.
#[derive(Debug)]
pub struct Settings {
    pub primary: String,
    pub seed: String,
    pub server_name: String,
    /// `None` where connections are plain.
    pub certificates: Option<CertificatePaths>,
    /// Of the pool, to each node.
    pub max_connections: u64,
    pub connection_timeout_s: u64,
    pub request_timeout_s: u64,
    pub tasks: u64,
    pub duration_secs: u64,
}

/// What the benchmark does, by its environment.
pub fn settings(env: &Environment) -> (r: Result<Settings, BadNumber>)
    ensures
        match r {
            Ok(s) => {
                &&& s.primary@ == or_default(env.address_1, "10.0.0.50:10000"@)
                &&& s.seed@ == or_default(env.address_2, "10.0.0.51:10000"@)
                &&& s.server_name@ == or_default(env.server_name, "10.0.0.50"@)
                &&& s.certificates is Some == env.plaintext is None
                &&& s.certificates matches Some(c) ==> paths_of(
                    c,
                    env.ca_cert,
                    env.client_cert,
                    env.client_key,
                    env.home,
                )
                &&& number_setting(env.connections, 500) == Some(s.max_connections)
                &&& s.connection_timeout_s == CONNECTION_TIMEOUT_S
                &&& s.request_timeout_s == REQUEST_TIMEOUT_S
                &&& number_setting(env.tasks, 2000) == Some(s.tasks)
                &&& number_setting(env.duration, 15) == Some(s.duration_secs)
            },
            Err(e) => if number_setting(env.tasks, 2000) is None {
                is_bad(env.tasks, "CLUSTER_TASKS"@, e)
            } else if number_setting(env.connections, 500) is None {
                is_bad(env.connections, "CLUSTER_CONNECTIONS"@, e)
            } else {
                is_bad(env.duration, "CLUSTER_DURATION"@, e)
            },
        },
{
    let tasks: u64 = match read_number(env.tasks, 2000, "CLUSTER_TASKS") {
        Ok(n) => n,
        Err(e) => {
            return Err(e);
        },
    };
    let max_connections: u64 = match read_number(env.connections, 500, "CLUSTER_CONNECTIONS") {
        Ok(n) => n,
        Err(e) => {
            return Err(e);
        },
    };
    let duration_secs: u64 = match read_number(env.duration, 15, "CLUSTER_DURATION") {
        Ok(n) => n,
        Err(e) => {
            return Err(e);
        },
    };
    let certificates: Option<CertificatePaths> = match env.plaintext {
        Some(_) => None,
        None => Some(
            certificate_paths(env.ca_cert, env.client_cert, env.client_key, env.home),
        ),
    };
    Ok(
        Settings {
            primary: env_or(env.address_1, "10.0.0.50:10000"),
            seed: env_or(env.address_2, "10.0.0.51:10000"),
            server_name: env_or(env.server_name, "10.0.0.50"),
            certificates,
            max_connections,
            connection_timeout_s: CONNECTION_TIMEOUT_S,
            request_timeout_s: REQUEST_TIMEOUT_S,
            tasks,
            duration_secs,
        },
    )
}

/// The parts of the benchmark, in order.
pub open spec fn stages(s: Settings) -> Seq<Stage> {
    seq![
        Stage::Smoke(0),
        Stage::Measure {
            label: "Throughput",
            connections: s.tasks,
            duration_secs: s.duration_secs,
        },
    ]
}

/// The parts of the benchmark, in order.
pub fn run(s: &Settings) -> (r: Vec<Stage>)
    ensures
        r@ == stages(*s),
{
    let r: Vec<Stage> = vec![
        Stage::Smoke(0),
        Stage::Measure {
            label: "Throughput",
            connections: s.tasks,
            duration_secs: s.duration_secs,
        },
    ];
    assert(r@ =~= stages(*s));
    r
}

/// Sums up a measurement over all tasks: `results` has an entry for each of them, `None` where its
/// work did not come to its end. The writes and errors are those that all tasks counted together,
/// the latencies those of the tasks that came to their end.
pub fn run_benchmark(results: Vec<Option<TaskStats>>, accepted: u64, errors: u64) -> (r:
    BenchmarkResult)
    requires
        totals_fit(finished_ones(results@)),
    ensures
        r.num_connections == results@.len(),
        r.summary.total_requests == accepted,
        r.summary.total_errors == errors,
        is_summary(
            (Summary {
                total_requests: requests_of(finished_ones(results@)) as u64,
                total_errors: errors_of(finished_ones(results@)) as u64,
                ..r.summary
            }),
            finished_ones(results@),
        ),
{
    let num_connections: usize = results.len();
    let stats: Vec<TaskStats> = collect_stats(results);
    let summary: Summary = compute_result(&stats);
    let r: BenchmarkResult = BenchmarkResult {
        num_connections,
        summary: Summary { total_requests: accepted, total_errors: errors, ..summary },
    };
    proof {
        let sorted = choose|sorted: Seq<u64>| summarises(summary, stats@, sorted);
        assert(summarises(
            Summary {
                total_requests: requests_of(stats@) as u64,
                total_errors: errors_of(stats@) as u64,
                ..r.summary
            },
            stats@,
            sorted,
        ));
    }
    r
}

/// One task that writes through the pool.
pub struct PoolTask {
    pub id: u64,
    pub deadline: u64,
    /// How many writes were sent.
    pub sent: u64,
    pub accepted: u64,
    pub errors: u64,
    pub latencies: Vec<u64>,
}

/// The text of a task's next write.
pub open spec fn greeting(id: nat, sent: nat) -> Seq<char> {
    "[t-"@ + decimal(id) + "-r-"@ + decimal(sent) + "] hello"@
}

impl PoolTask {
    /// Every write was accepted or failed, and every accepted one has its latency.
    pub open spec fn wf(&self) -> bool {
        &&& self.accepted + self.errors == self.sent
        &&& self.latencies@.len() == self.accepted
    }

    /// A task before its first write.
    pub fn new(id: u64, deadline: u64) -> (r: PoolTask)
        ensures
            r.wf(),
            r.id == id,
            r.deadline == deadline,
            r.sent == 0,
    {
        PoolTask { id, deadline, sent: 0, accepted: 0, errors: 0, latencies: Vec::new() }
    }

    /// The next write at the time `now`, to the task's own aggregate.
    pub fn next(&self, now: u64) -> (r: Option<RemoteWrite>)
        ensures
            r is Some == (now < self.deadline),
            r matches Some(w) ==> {
                &&& w.org_id == 1
                &&& w.aggregate_type_id == 1
                &&& w.aggregate_id == self.id
                &&& w.client_id == 0
                &&& w.text@ == greeting(self.id as nat, self.sent as nat)
            },
    {
        if now >= self.deadline {
            return None;
        }
        let mut text: String = "[t-".to_owned();
        push_decimal(&mut text, self.id as u128);
        text.append("-r-");
        push_decimal(&mut text, self.sent as u128);
        text.append("] hello");
        Some(
            RemoteWrite {
                org_id: 1,
                aggregate_type_id: 1,
                aggregate_id: self.id as u128,
                client_id: 0,
                text,
            },
        )
    }

    /// Takes the outcome of the write, which took `latency` milliseconds. An error is counted and
    /// passed over.
    pub fn observe(&mut self, accepted: bool, latency: u64)
        requires
            old(self).wf(),
            old(self).sent < u64::MAX,
        ensures
            final(self).wf(),
            final(self).id == old(self).id,
            final(self).deadline == old(self).deadline,
            final(self).sent == old(self).sent + 1,
            accepted ==> {
                &&& final(self).accepted == old(self).accepted + 1
                &&& final(self).latencies@ == old(self).latencies@.push(latency)
            },
            !accepted ==> {
                &&& final(self).errors == old(self).errors + 1
                &&& final(self).latencies == old(self).latencies
            },
    {
        if accepted {
            self.latencies.push(latency);
            self.accepted = self.accepted + 1;
        } else {
            self.errors = self.errors + 1;
        }
        self.sent = self.sent + 1;
    }

    /// What it measured.
    pub fn into_stats(self) -> (r: TaskStats)
        ensures
            r.request_count == self.accepted,
            r.error_count == self.errors,
            r.latencies == self.latencies,
    {
        TaskStats {
            request_count: self.accepted,
            error_count: self.errors,
            latencies: self.latencies,
        }
    }
}

} // verus!

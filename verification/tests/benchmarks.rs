use celeriant_integration_tests::read_list_benchmark;
use celeriant_integration_tests::read_list_benchmark::report_order;
use celeriant_integration_tests::read_list_benchmark_main;
use celeriant_integration_tests::rpi_cluster_bench;
use celeriant_integration_tests::rpi_cluster_bench::{
    certificate_paths, connect_batches, env_or, expand_home, read_number, smoke_test, Connection,
    NoConnections, WriteOutcome,
};
use celeriant_integration_tests::rpi_cluster_pool_bench;
use celeriant_integration_tests::rpi_cluster_pool_bench::PoolTask;
use celeriant_integration_tests::stats::{compute_result, Summary, TaskStats};
use celeriant_integration_tests::workers::{
    collect_stats, connect_pool, Answer, Data, Filler, PoolSummary, Request, Task, Worker,
};
use celeriant_integration_tests::workload::{
    aggregate_at, index_to_key, list_org, list_type, make_create_request, make_event,
    make_single_write_request, make_write_request, next_index, rotated, setup_share, small_value,
    split_mixed, TOTAL_AGGREGATES,
};

fn stats(request_count: u64, error_count: u64, latencies: Vec<u64>) -> TaskStats {
    TaskStats { request_count, error_count, latencies }
}

#[test]
fn positions_are_turned_into_keys() {
    assert_eq!(index_to_key(0), (1, 1, 0));
    assert_eq!(index_to_key(299), (1, 1, 299));
    assert_eq!(index_to_key(300), (1, 2, 0));
    assert_eq!(index_to_key(5_999), (1, 20, 299));
    assert_eq!(index_to_key(6_000), (2, 1, 0));
    assert_eq!(index_to_key(299_999), (50, 20, 299));
    assert_eq!(aggregate_at(6_301).aggregate_type_id, 2);
    assert_eq!(aggregate_at(6_301).aggregate_id, 1);
}

#[test]
fn workers_spread_over_the_aggregates() {
    assert_eq!(next_index(0, 0, TOTAL_AGGREGATES), 0);
    assert_eq!(next_index(1, 1, TOTAL_AGGREGATES), 14_190);
    assert_eq!(next_index(100, 0, 5_000), 1_900);
    assert_eq!(list_org(0, 0), 1);
    assert_eq!(list_org(3, 2), 28);
    assert_eq!(list_type(3, 2), 14);
}

#[test]
fn requests_are_built() {
    let even = make_create_request(6_300, 9);
    assert_eq!((even.key.org_id, even.key.aggregate_type_id), (2, 2));
    assert_eq!((even.events, even.payload_size, even.client_id), (10, 64, 9));
    assert_eq!(make_create_request(6_301, 9).payload_size, 2048);
    let single = make_single_write_request(2, 3, 4, 5);
    assert_eq!((single.key.org_id, single.key.aggregate_type_id, single.key.aggregate_id), (2, 3, 4));
    assert_eq!(single.events, 1);
    assert_eq!(single.client_id, 5);
    let event = make_event(64, 9);
    assert_eq!((event.client_seq, event.event_id, event.timestamp), (0, Some(1), 0));
    assert_eq!((event.event_type_major, event.event_type_minor), (1, 1));
    assert_eq!((event.payload_size, event.seed), (64, 9));
    assert_eq!(small_value().len(), 33);
    let narrow = make_write_request(77, 5);
    assert_eq!((narrow.key.org_id, narrow.key.aggregate_type_id, narrow.key.aggregate_id), (1, 1, 77));
}

#[test]
fn connections_share_the_filling() {
    assert_eq!(setup_share(100, 3, 0), (0, 33));
    assert_eq!(setup_share(100, 3, 2), (66, 33));
    assert_eq!(setup_share(2, 3, 2), (0, 0));
    assert_eq!(split_mixed(100, 20), (20, 80));
    assert_eq!(split_mixed(10, 20), (10, 0));
    assert!(rotated(3, 2));
    assert!(!rotated(2, 2));
}

#[test]
fn results_are_summed_up() {
    let all = vec![
        stats(50, 1, (1..=50).rev().collect()),
        stats(50, 2, (51..=100).collect()),
    ];
    assert_eq!(
        compute_result(&all),
        Summary {
            total_requests: 100,
            total_errors: 3,
            samples: 100,
            latency_sum: 5050,
            min: 1,
            max: 100,
            p50: 51,
            p95: 96,
            p99: 100,
            p999: 100,
        }
    );
}

#[test]
fn a_benchmark_without_requests_has_zeros() {
    let none = compute_result(&vec![stats(0, 7, vec![])]);
    assert_eq!(none.total_errors, 7);
    assert_eq!((none.samples, none.min, none.max, none.p50, none.p999), (0, 0, 0, 0, 0));
    let one = compute_result(&vec![stats(1, 0, vec![42])]);
    assert_eq!((one.min, one.max, one.p50, one.p95, one.p99, one.p999), (42, 42, 42, 42, 42, 42));
}

#[test]
fn a_reader_goes_on_until_its_time_is_up() {
    let mut w = Worker::new(Data::Wide, Task::Read, 0, 9, 100);
    assert_eq!(w.next(0), Some(Request::Read(aggregate_at(0))));
    w.observe(Answer::Right(None), 5);
    assert_eq!(w.next(1), Some(Request::Read(aggregate_at(6271))));
    w.observe(Answer::ServerError, 5);
    assert_eq!(w.next(2), Some(Request::Read(aggregate_at(6271))));
    w.observe(Answer::Wrong, 5);
    w.observe(Answer::TimedOut, 5);
    assert_eq!(w.next(100), None);
    let s = w.into_stats();
    assert_eq!((s.request_count, s.error_count, s.latencies), (1, 3, vec![5]));
}

#[test]
fn a_broken_connection_ends_a_reader_but_not_a_lister() {
    let mut w = Worker::new(Data::Wide, Task::Read, 0, 9, 100);
    w.observe(Answer::Broken, 5);
    assert_eq!(w.next(0), None);
    let mut w = Worker::new(Data::Wide, Task::ListOrgs, 0, 9, 100);
    w.observe(Answer::Broken, 5);
    assert_eq!(w.next(0), Some(Request::ListOrgs { cursor: None }));
}

#[test]
fn a_writer_takes_any_answer_for_a_success() {
    let mut w = Worker::new(Data::Narrow, Task::Write, 1, 9, 100);
    assert_eq!(w.next(0), Some(Request::Write(make_write_request(2919, 9))));
    w.observe(Answer::Wrong, 5);
    assert_eq!(w.count, 1);
    let mut r = Worker::new(Data::Narrow, Task::Read, 1, 9, 100);
    r.observe(Answer::Wrong, 5);
    assert_eq!((r.count, r.errors), (0, 1));
}

#[test]
fn a_listing_keeps_its_filters_over_its_pages() {
    let mut w = Worker::new(Data::Wide, Task::ListAggregates, 3, 9, 100);
    let first = Request::ListAggregates { org_id: 44, aggregate_type_id: 20, cursor: None };
    assert_eq!(w.next(0), Some(first));
    w.observe(Answer::Right(Some(7)), 1);
    assert_eq!(
        w.next(1),
        Some(Request::ListAggregates { org_id: 44, aggregate_type_id: 20, cursor: Some(7) })
    );
    w.observe(Answer::TimedOut, 1);
    assert_eq!(w.next(2), Some(first));
    w.observe(Answer::Right(None), 1);
    assert_eq!(
        w.next(3),
        Some(Request::ListAggregates { org_id: 28, aggregate_type_id: 14, cursor: None })
    );
}

#[test]
fn a_filler_stops_at_its_first_failure() {
    let mut f = Filler::new(Data::Narrow, 10, 2, 2, 9);
    let mut ids = vec![];
    while let Some(w) = f.next() {
        ids.push(w.key.aggregate_id);
        assert!(!f.observe(true));
    }
    assert_eq!(ids, vec![10, 10, 11, 11]);
    let mut f = Filler::new(Data::Wide, 6_300, 2, 1, 9);
    assert_eq!(f.next(), Some(make_create_request(6_300, 9)));
    assert!(!f.observe(true));
    assert_eq!(f.next(), Some(make_create_request(6_301, 9)));
    assert!(!f.observe(false));
    assert_eq!(f.next(), None);
    assert!(Filler::new(Data::Wide, 0, 2, 1, 9).observe(false));
}

#[test]
fn connections_are_counted() {
    assert_eq!(
        connect_pool(&vec![Some(5), None, Some(7), None]),
        PoolSummary { established: 2, verified_client_id: 7, failed: 2 }
    );
    assert_eq!(
        connect_pool(&vec![None]),
        PoolSummary { established: 0, verified_client_id: 0, failed: 1 }
    );
    let kept = collect_stats(vec![Some(stats(1, 0, vec![3])), None, Some(stats(2, 0, vec![4, 5]))]);
    assert_eq!(kept.iter().map(|s| s.request_count).collect::<Vec<_>>(), vec![1, 2]);
}

#[test]
fn the_last_result_comes_third_from_the_end() {
    assert_eq!(report_order(3), vec![2, 0, 1]);
    assert_eq!(report_order(7), vec![0, 1, 2, 3, 6, 4, 5]);
    assert_eq!(read_list_benchmark::run().data, Data::Wide);
    assert_eq!(read_list_benchmark_main::run().data, Data::Narrow);
}

#[test]
fn settings_fall_back_to_their_defaults() {
    assert_eq!(env_or(None, "d"), "d");
    assert_eq!(env_or(Some("v"), "d"), "v");
    assert_eq!(env_or(Some(""), "d"), "");
    assert_eq!(expand_home("~/x", Some("/home/a")), "/home/a/x");
    assert_eq!(expand_home("~x", Some("/home/a")), "~x");
    assert_eq!(expand_home("/x", Some("/home/a")), "/x");
    assert_eq!(expand_home("~/x", None), "~/x");
    assert_eq!(read_number(None, 7, "N").unwrap(), 7);
    assert_eq!(read_number(Some("8"), 7, "N").unwrap(), 8);
    assert_eq!(read_number(Some("x"), 7, "N").unwrap_err().0, "N");
    let fault = |v: &'static str| read_number(Some(v), 7, "N").unwrap_err().1.as_str();
    for v in ["", "x", "+", "-1", "12a", "18446744073709551616", "99999999999999999999x"] {
        assert_eq!(fault(v), v.parse::<u64>().unwrap_err().to_string());
    }
}

fn remote<'a>() -> rpi_cluster_bench::Environment<'a> {
    rpi_cluster_bench::Environment {
        address: None,
        plaintext: None,
        server_name: None,
        ca_cert: None,
        client_cert: None,
        client_key: None,
        throughput_connections: None,
        latency_connections: None,
        duration: None,
        connect_batch_size: None,
        home: Some("/home/a"),
    }
}

#[test]
fn the_cluster_benchmark_reads_its_environment() {
    let s = rpi_cluster_bench::settings(&remote()).unwrap();
    assert_eq!(s.address, "10.0.0.50:10000");
    assert_eq!(
        (s.throughput_connections, s.latency_connections, s.duration_secs, s.batch_size),
        (850, 125, 15, 100)
    );
    let paths = certificate_paths(None, None, None, Some("/home/a"));
    assert_eq!(s.certificates.unwrap().ca_cert, paths.ca_cert);
    assert_eq!(paths.ca_cert, "deploy/rpi-cluster/certs/client-ca.crt");
    let paths = certificate_paths(None, None, Some("~/k"), Some("/home/a"));
    assert_eq!(paths.client_key, "/home/a/k");

    let s = rpi_cluster_bench::settings(&rpi_cluster_bench::Environment {
        plaintext: Some("1"),
        duration: Some("3"),
        connect_batch_size: Some("many"),
        ..remote()
    })
    .unwrap();
    assert!(s.certificates.is_none());
    assert_eq!((s.duration_secs, s.batch_size), (3, 100));

    let bad = |env: rpi_cluster_bench::Environment| rpi_cluster_bench::settings(&env).unwrap_err().0;
    assert_eq!(
        bad(rpi_cluster_bench::Environment { throughput_connections: Some("x"), ..remote() }),
        "CLUSTER_THROUGHPUT_CONNECTIONS"
    );
    assert_eq!(
        bad(rpi_cluster_bench::Environment { latency_connections: Some("-1"), ..remote() }),
        "CLUSTER_LATENCY_CONNECTIONS"
    );
    assert_eq!(
        bad(rpi_cluster_bench::Environment { duration: Some(""), ..remote() }),
        "CLUSTER_DURATION"
    );
    let s = rpi_cluster_bench::settings(&remote()).unwrap();
    assert_eq!(rpi_cluster_bench::run(&s).len(), 4);
}

#[test]
fn the_pool_benchmark_reads_its_environment() {
    let env = || rpi_cluster_pool_bench::Environment {
        address_1: None,
        address_2: Some("b:1"),
        plaintext: Some(""),
        server_name: None,
        ca_cert: None,
        client_cert: None,
        client_key: None,
        connections: None,
        tasks: None,
        duration: None,
        home: None,
    };
    let s = rpi_cluster_pool_bench::settings(&env()).unwrap();
    assert_eq!((s.primary.as_str(), s.seed.as_str()), ("10.0.0.50:10000", "b:1"));
    assert_eq!((s.max_connections, s.tasks, s.duration_secs), (500, 2000, 15));
    assert_eq!((s.connection_timeout_s, s.request_timeout_s), (30, 5));
    assert!(s.certificates.is_none());
    let bad = rpi_cluster_pool_bench::settings(&rpi_cluster_pool_bench::Environment {
        tasks: Some("x"),
        connections: Some("x"),
        ..env()
    });
    assert_eq!(bad.unwrap_err().0, "CLUSTER_TASKS");
    assert_eq!(rpi_cluster_pool_bench::run(&s).len(), 2);
}

#[test]
fn connections_are_opened_in_batches() {
    assert_eq!(connect_batches(250, 100), vec![(0, 100), (100, 200), (200, 250)]);
    assert_eq!(connect_batches(100, 100), vec![(0, 100)]);
    assert_eq!(connect_batches(0, 100), vec![]);
}

#[test]
fn a_connection_greets_until_it_breaks() {
    let mut c = Connection::new(3, 100);
    let w = c.next(0).unwrap();
    assert_eq!((w.org_id, w.aggregate_type_id, w.aggregate_id, w.client_id), (1, 1, 3, 3));
    assert_eq!(w.text, "[conn-3-req-0] hello");
    c.observe(WriteOutcome::Accepted, 11);
    assert_eq!(c.next(1).unwrap().text, "[conn-3-req-1] hello");
    c.observe(WriteOutcome::ServerError, 11);
    assert_eq!(c.next(1).unwrap().text, "[conn-3-req-1] hello");
    assert!(c.next(100).is_none());
    c.observe(WriteOutcome::Broken, 11);
    assert!(c.next(1).is_none());
    let s = c.into_stats();
    assert_eq!((s.request_count, s.error_count, s.latencies), (1, 0, vec![11]));
    assert_eq!(smoke_test(4).text, "smoke-test");
    assert_eq!(smoke_test(4).client_id, 4);
}

#[test]
fn a_pool_task_counts_its_failures() {
    let mut t = PoolTask::new(3, 100);
    assert_eq!(t.next(0).unwrap().text, "[t-3-r-0] hello");
    t.observe(false, 5);
    assert_eq!(t.next(0).unwrap().text, "[t-3-r-1] hello");
    assert_eq!(t.next(0).unwrap().client_id, 0);
    t.observe(true, 6);
    assert!(t.next(100).is_none());
    let s = t.into_stats();
    assert_eq!((s.request_count, s.error_count, s.latencies), (1, 1, vec![6]));
}

#[test]
fn a_benchmark_needs_a_connection() {
    assert_eq!(rpi_cluster_bench::run_benchmark(vec![]).unwrap_err(), NoConnections);
    let r = rpi_cluster_bench::run_benchmark(vec![
        Some(stats(2, 0, vec![4, 2])),
        None,
        Some(stats(1, 0, vec![3])),
    ])
    .unwrap();
    assert_eq!(r.summary.total_requests, 3);
    assert_eq!((r.summary.min, r.summary.p50, r.summary.max), (2, 3, 4));
    let p = rpi_cluster_pool_bench::run_benchmark(vec![Some(stats(1, 0, vec![3])), None], 9, 8);
    assert_eq!((p.num_connections, p.summary.total_requests, p.summary.total_errors), (2, 9, 8));
}

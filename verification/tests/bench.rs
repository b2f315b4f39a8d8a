use celeriant_integration_tests::bench::{
    batch_path, cluster_config, expected_shard, fallback_prefixes, loopback_address, named, other, plain, port_of,
    probe_id, resolve, run_port, run_subfolder, server_config, shard_prefix, spread_port,
    standalone, tls_settings,
    ClientAuth, Node, Preset, Routing, S3Fields, Store, Who,
};
use celeriant_integration_tests::model::{
    append, classify, numbered_event, render_payload, seed_of, AggregateKey, Outcome, Payload, Refusal,
    Sequence,
};
use celeriant_integration_tests::phase9::tls_config;
use celeriant_integration_tests::promotion_failure_process_survival::node_config;
use celeriant_integration_tests::report::push_reply;
use celeriant_integration_tests::s3_common::count_events;
use celeriant_integration_tests::reply::{Batch, Reply, StoredEvent};
use celeriant_integration_tests::expect::{Expect, NumberRule, Registers};
use celeriant_integration_tests::script::{claimed_id, tell, Claim, Complaint, Race, Sides};

#[test]
fn roles_go_by_the_leader() {
    assert_eq!(other(Node::A), Node::B);
    assert_eq!(resolve(Who::Leader, Node::B), Node::B);
    assert_eq!(resolve(Who::Follower, Node::B), Node::A);
    assert_eq!(resolve(Who::A, Node::B), Node::A);
    assert_eq!(resolve(Who::B, Node::A), Node::B);
}

#[test]
fn ports_are_spread_over_processes() {
    assert_eq!(port_of(run_port(10600, 3), 4_242, 0), Some(10645));
    assert_eq!(port_of(run_port(65500, 0), 99, 0), None);
    assert_eq!(port_of(named("p11_fence_a", 5), 4_242, 20_000), Some(20005));
    assert_eq!(port_of(spread_port(21_500, 8), 47, 0), Some(21578));
    assert_ne!(port_of(run_port(10600, 0), 7, 0), port_of(run_port(10600, 0), 106, 0));
    assert_eq!(port_of(run_port(10600, 0), 7, 0), port_of(run_port(10600, 0), 107, 0));
    assert_eq!(loopback_address(4100), "127.0.0.1:4100");
}

#[test]
fn names_in_the_store_are_spelled() {
    assert_eq!(shard_prefix(7), "cluster/fallback/shard_007/");
    assert_eq!(
        batch_path(1, 4, 10),
        "cluster/fallback/shard_001/batch_000000004_000000010.bin"
    );
    let prefixes = fallback_prefixes(4);
    assert_eq!(prefixes.len(), 4);
    assert_eq!(prefixes[3], "cluster/fallback/shard_003/");
    assert_eq!(run_subfolder("p11-fence", 42, 1_700_000_000_000), "p11-fence-42-1700000000000");
    assert_eq!(expected_shard(5, 4), 1);
    assert_eq!(expected_shard(8, 4), 0);
    assert_eq!(probe_id(20_345), 345);
}

#[test]
fn settings_build_on_each_other() {
    let c = cluster_config("p6-elect", named("p6_elect_a", 1));
    assert_eq!(c.preset, Preset::Cluster);
    assert_eq!(c.num_shards, Some(1));
    assert_eq!(c.s3_subfolder, Some("p6-elect"));
    assert!(matches!(c.store, Store::Container));
    let t = tls_settings(ClientAuth::Require);
    assert!(matches!(t.tls_strict, Some(ClientAuth::Require)));
    assert!(t.standalone);
    assert_eq!(standalone(8).num_shards, Some(8));
    assert_eq!(plain().routing_rule, None::<Routing>);
}

#[test]
fn events_of_a_sequence_are_bound_to_each_other() {
    let s = Sequence {
        key: AggregateKey::new(1, 1, 9),
        lo: 1,
        hi: 3,
        event_type_major: 110,
        payload: Payload::Number,
        guarded: true,
    };
    let w = s.write_at(2);
    assert_eq!(w.client_seq, 2);
    assert_eq!(w.timestamp, 1002);
    assert_eq!(w.expected_version, Some(1));
    assert!(!w.allow_create);
    assert!(s.write_at(1).allow_create);
    assert_eq!(s.write_at(1).expected_version, Some(0));
    let open = Sequence { guarded: false, ..s };
    assert_eq!(open.write_at(2).expected_version, None);
}

#[test]
fn numbered_events_are_spelled_out() {
    let key = AggregateKey::new(1, 1, 1);
    let first = numbered_event(key, 1, true);
    assert_eq!(first.expected_version, Some(0));
    assert_eq!(first.client_id, 999);
    assert_eq!(first.timestamp, 1001);
    let later = numbered_event(key, 7, false);
    assert_eq!(later.expected_version, None);
    assert_eq!(render_payload(later.payload, 0, 7), Some("{\"event\":7}".to_string()));
}

#[test]
fn payloads_are_rendered() {
    assert_eq!(render_payload(Payload::Number, 4, 9), Some("{\"n\":9}".to_string()));
    assert_eq!(render_payload(Payload::Writer("w"), 4, 9), Some("{\"w\":4}".to_string()));
    assert_eq!(render_payload(Payload::Tagged, 4, 9), Some("{\"agg\":4,\"seq\":9}".to_string()));
    assert_eq!(render_payload(Payload::Text("{}"), 4, 9), Some("{}".to_string()));
    assert_eq!(render_payload(Payload::Repeated(3), 4, 9), None);
}

#[test]
fn racers_have_numbers_of_their_own() {
    let race = Race {
        write: append(AggregateKey::new(1, 1, 1), 100, 7, 2000, Payload::Writer("w")),
        writers: 16,
        own_seq: true,
        own_time: false,
    };
    assert_eq!(race.write_by(5).client_seq, 105);
    assert_eq!(race.write_by(5).timestamp, 2000);
    let race = Race { own_seq: false, own_time: true, ..race };
    assert_eq!(race.write_by(15).client_seq, 100);
    assert_eq!(race.write_by(15).timestamp, 2015);
}

#[test]
fn replies_to_racers_are_classified() {
    assert_eq!(classify(None), Outcome::Won);
    assert_eq!(classify(Some(Refusal::Coded(2003))), Outcome::OccLost);
    assert_eq!(classify(Some(Refusal::Coded(2002))), Outcome::Deduped);
    assert_eq!(classify(Some(Refusal::Coded(2013))), Outcome::Deduped);
    assert_eq!(classify(Some(Refusal::Coded(2012))), Outcome::Other);
    assert_eq!(classify(Some(Refusal::TimedOut)), Outcome::Other);
}

#[test]
fn a_claimed_id_goes_around_the_end() {
    assert_eq!(claimed_id(Claim::Own, 7), 7);
    assert_eq!(claimed_id(Claim::Shifted(3), u128::MAX), 2);
}

#[test]
fn events_are_counted_by_what_was_read() {
    let event = |n| StoredEvent { client_seq: n, event_type_minor: 0, value: vec![] };
    let reply = Reply::Batches(vec![
        Batch { version: 1, events: vec![event(1), event(2)] },
        Batch { version: 2, events: vec![event(3)] },
    ]);
    assert_eq!(count_events(&reply), Some(3));
    assert_eq!(count_events(&Reply::Refused(Refusal::Coded(1001))), Some(0));
    assert_eq!(count_events(&Reply::Refused(Refusal::TimedOut)), None);
    assert_eq!(count_events(&Reply::Done), None);
}

#[test]
fn seeds_follow_the_number_of_the_event() {
    assert_eq!(seed_of(Payload::Seeded(64), 3), Some((64, 3)));
    assert_eq!(seed_of(Payload::Scattered(8), 3), Some((8, 3 * 0x9E37_79B9)));
    assert_eq!(seed_of(Payload::Random(8), 3), None);
}

fn s3_fields() -> S3Fields {
    S3Fields {
        region: "r".to_string(),
        bucket: "b".to_string(),
        access_key: "a".to_string(),
        secret_key: "s".to_string(),
        endpoint: "e".to_string(),
        allow_http: true,
    }
}

#[test]
fn each_setting_of_the_store_has_its_place() {
    let c = node_config(&s3_fields());
    assert!(c.s3_enabled && c.s3_allow_http && !c.tls_strict);
    assert_eq!(c.s3_region.as_deref(), Some("r"));
    assert_eq!(c.s3_bucket.as_deref(), Some("b"));
    assert_eq!(c.s3_access_key_id.as_deref(), Some("a"));
    assert_eq!(c.s3_secret_access_key.as_deref(), Some("s"));
    assert_eq!(c.s3_endpoint_override.as_deref(), Some("e"));
    assert_eq!((c.node.num_shards, c.node.log_level), (Some(4), Some("info")));
    assert_eq!(c.node.heartbeat_lease_duration_ms, Some(1_500));
    assert_eq!((c.node.heartbeat_interval_ms, c.node.max_clock_drift_ms), (Some(500), Some(500)));
    assert_eq!(c.node.s3_lease_duration_ms, Some(10_000));
    assert!(c.tls_ca_cert.is_none());
    assert!(!node_config(&S3Fields { allow_http: false, ..s3_fields() }).s3_allow_http);
}

#[test]
fn each_file_of_a_tls_server_has_its_place() {
    let c = tls_config("ca", "cert", "key", ClientAuth::Named("optional"));
    assert!(c.tls_strict && c.node.standalone && !c.s3_enabled);
    assert_eq!(c.node.num_shards, Some(1));
    assert_eq!(c.tls_ca_cert.as_deref(), Some("ca"));
    assert_eq!(c.tls_node_cert.as_deref(), Some("cert"));
    assert_eq!(c.tls_node_key.as_deref(), Some("key"));
    assert!(matches!(c.tls_client_auth, Some(ClientAuth::Named("optional"))));
    assert!(c.s3_region.is_none());
}

#[test]
fn a_node_without_a_store_is_told_of_none() {
    let c = server_config(standalone(2), Some(&s3_fields()), None);
    assert!(!c.s3_enabled && c.s3_bucket.is_none() && !c.s3_allow_http);
}

#[test]
fn replies_are_told_in_words() {
    let told = |reply: Reply| {
        let mut out = String::new();
        push_reply(&mut out, &reply);
        out
    };
    assert_eq!(told(Reply::Number(7)), "got 7");
    assert_eq!(told(Reply::Counts(3, 12)), "got 3 and 12");
    assert_eq!(told(Reply::Refused(Refusal::Coded(2003))), "turned down with error 2003");
    assert_eq!(told(Reply::Redirected("h:1".to_string())), "pointed at h:1");
    assert_eq!(
        told(Reply::Leaders(true, false)),
        "node A accepts writes: true, node B accepts writes: false"
    );
    assert_eq!(told(Reply::Balance(-250)), "got a balance of -250");
    assert_eq!(told(Reply::Samples(vec![1, 2])), "got 2 samples");
    assert_eq!(told(Reply::Identity(None, 5)), "not known, instead of as 5");
}

#[test]
fn a_message_without_a_reply_stands_alone() {
    let complaint = Complaint { message: "late", panics: false, sides: Sides::Untold };
    let registers = Registers::new();
    let expect = Expect::Number(NumberRule::Is(5));
    assert_eq!(tell(complaint, expect, None, None, &registers), "late");
    let seven = Reply::Number(7);
    assert_eq!(tell(complaint, expect, Some(&seven), None, &registers), "late");
    let complaint = Complaint { message: "{got}{unknown}{", panics: true, sides: Sides::Equal };
    assert_eq!(
        tell(complaint, expect, Some(&seven), None, &registers),
        "assertion `left != right` failed: 77\n  left: 7\n right: 5"
    );
}

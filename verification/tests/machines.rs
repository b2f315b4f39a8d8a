use celeriant_integration_tests::bench::Node;
use celeriant_integration_tests::codec::{
    api_key_text, base64_decode, create_api_keys_file, ApiKeySet, NotBase64,
};
use celeriant_integration_tests::loops::{
    count_names, pair_up, CursorDrain, FillWrite, LargeEvent, LargeSender, ListedFill, Noise, Pour,
    Sampler, Sender,
};
use celeriant_integration_tests::model::{AggregateKey, Payload, Refusal, Sequence};
use celeriant_integration_tests::pool_test;
use celeriant_integration_tests::promotion_failure_process_survival as survival;
use celeriant_integration_tests::promotion_failure_process_survival::{
    Driver, LogWatch, NodeWatch, Tick, Verdict, Watcher,
};
use celeriant_integration_tests::recovery_multiseg_read_amplification as recovery;
use celeriant_integration_tests::recovery_multiseg_read_amplification::{
    Load, LoadPhase, Quiescence, Reading, Sidecars, Waiting,
};
use celeriant_integration_tests::reference_account_service as accounts;
use celeriant_integration_tests::regression_list_iterator_truncation as listing;
use celeriant_integration_tests::regression_list_iterator_truncation::ListingFault;
use celeriant_integration_tests::reply::{Batch, Lease, Reply, StoredEvent};
use celeriant_integration_tests::script::{Account, Action, AccountCall};
use celeriant_integration_tests::tls::{build_anonymous_tls, check_server_name, TlsFault};
use celeriant_integration_tests::workload::{make_create_request, Seeds};

fn sequence(lo: u64, hi: u64) -> Sequence {
    Sequence {
        key: AggregateKey::new(1, 1, 1),
        lo,
        hi,
        event_type_major: 1,
        payload: Payload::Number,
        guarded: true,
    }
}

fn strings(lines: &[&str]) -> Vec<String> {
    lines.iter().map(|s| s.to_string()).collect()
}

#[test]
fn a_sender_stops_at_the_first_refusal() {
    let mut s = Sender::new(sequence(1, 3));
    assert_eq!(s.next().unwrap().client_seq, 1);
    s.observe(None);
    assert_eq!(s.next().unwrap().client_seq, 2);
    s.observe(Some(Refusal::TimedOut));
    assert!(s.next().is_none());
    assert_eq!((s.accepted, s.refused), (1, Some(Refusal::TimedOut)));
    let mut s = Sender::new(sequence(4, 5));
    s.observe(None);
    s.observe(None);
    assert!(s.next().is_none());
}

#[test]
fn a_refused_event_is_sent_again_under_its_number() {
    let mut p = Pour::new(sequence(1, 10), 4, 100);
    assert_eq!(p.next(0).unwrap().client_seq, 1);
    p.observe(None);
    assert_eq!(p.next(0).unwrap().client_seq, 2);
    p.observe(Some(Refusal::Coded(2012)));
    assert_eq!(p.next(0).unwrap().client_seq, 2);
    p.observe(Some(Refusal::Coded(2003)));
    assert!(p.next(100).is_none());
    p.observe(None);
    assert!(p.next(0).is_none());
    assert_eq!((p.sent, p.acked, p.busy, p.rejected), (4, 2, 1, 1));
}

#[test]
fn a_drained_stream_is_read_on_from_its_end() {
    let mut d = CursorDrain::new(3, 100);
    assert_eq!(d.cursor, 1);
    d.observe(&vec![]);
    assert_eq!(d.cursor, 1);
    d.observe(&vec![1, 2]);
    assert_eq!(d.cursor, 3);
    assert!(d.goes_on(99));
    assert!(!d.goes_on(100));
    d.observe(&vec![3]);
    assert!(!d.goes_on(0));
    assert_eq!(d.seen, vec![1, 2, 3]);
}

#[test]
fn noise_is_reproducible() {
    let mut n = Noise::new();
    assert_eq!(n.take(3), vec![77, 59, 195]);
    assert_eq!(n.take(5), vec![36, 76, 132, 87, 45]);
}

#[test]
fn a_sampler_keeps_what_it_saw() {
    let mut s = Sampler::new(10);
    assert!(s.goes_on(9));
    s.observe(4);
    s.observe(4);
    assert!(!s.goes_on(10));
    assert_eq!(s.samples, vec![4, 4]);
}

#[test]
fn payloads_do_not_compress() {
    let p = recovery::payload(3, 5);
    assert_eq!(p.len(), 1024);
    assert_eq!(
        p[..16],
        [193, 135, 28, 59, 25, 78, 106, 29, 136, 68, 45, 247, 37, 178, 52, 212]
    );
    assert_ne!(recovery::payload(3, 6), p);
}

#[test]
fn the_load_goes_in_rounds_until_the_log_was_rotated() {
    let mut l = Load::new();
    for i in 0..64u64 {
        assert_eq!(l.phase, LoadPhase::Writing);
        let w = l.write();
        assert_eq!(w.client_seq, i + 1);
        assert_eq!(w.key.aggregate_id, i as u128 + 1);
        assert!(w.allow_create && w.enforce_client_idempotency);
        assert_eq!(w.client_id, 7777);
        l.written();
    }
    assert_eq!(l.phase, LoadPhase::Counting);
    l.counted(2);
    assert_eq!(l.phase, LoadPhase::Writing);
    assert!(!l.write().allow_create);
    for _ in 0..64 {
        l.written();
    }
    l.counted(3);
    assert_eq!(l.phase, LoadPhase::Rotated);
    assert!(l.complaint(2).starts_with("log did not reach 3 segments after 128 writes (2 wal files)"));
}

#[test]
fn the_load_gives_up() {
    let mut l = Load::new();
    while l.phase != LoadPhase::GaveUp {
        match l.phase {
            LoadPhase::Writing => l.written(),
            _ => l.counted(1),
        }
    }
    assert_eq!(l.seq, 8000);
}

#[test]
fn probes_touch_one_old_and_one_new_aggregate() {
    assert_eq!(recovery::probe_a().key.aggregate_id, 1);
    assert!(!recovery::probe_a().allow_create);
    assert_eq!(recovery::probe_b().key.aggregate_id, 165);
    assert!(recovery::probe_b().allow_create);
    let w = recovery::crash_write(65);
    assert_eq!((w.client_seq, w.key.aggregate_id, w.client_id), (65, 2, 0));
    assert_eq!(recovery::summary_name(12), "log_12.summary");
    assert_eq!(recovery::segment_name(12), "log_12.wal");
    assert_eq!(recovery::run().len(), 11);
}

#[test]
fn summaries_are_waited_for_one_by_one() {
    let mut s = Sidecars::new(vec![1, 2], 100);
    assert_eq!(s.next(), Waiting::Look(1));
    s.observe(false, 50);
    assert_eq!(s.next(), Waiting::Look(1));
    s.observe(true, 60);
    assert_eq!(s.next(), Waiting::Look(2));
    s.observe(false, 101);
    assert_eq!(s.next(), Waiting::Late(2));
    assert_eq!(Sidecars::new(vec![], 0).next(), Waiting::Complete);
    assert_eq!(recovery::sealed_bytes(&vec![Some(5), None, Some(7)]), 12 + 2_097_152);
}

#[test]
fn a_server_settles_when_it_reads_no_more() {
    let mut q = Quiescence::new(5, 100);
    assert_eq!(q.observe(9, 10), Reading::Moving);
    assert_eq!(q.observe(9, 20), Reading::Settled(9));
    assert_eq!(q.observe(12, 101), Reading::Restless(9, 12));
    assert_eq!(
        recovery::restless_message(9, 12),
        "server still reading after 60s (read_bytes 9 -> 12)"
    );
}

#[test]
fn a_first_touch_has_a_budget() {
    assert_eq!(recovery::verdict(10, 10 + 262_144, 10 + 2 * 262_144), Ok(()));
    assert_eq!(
        recovery::verdict(0, 262_145, 262_145).unwrap_err(),
        "1 probe(s) re-read the sealed chain on first touch after recovery"
    );
    assert_eq!(
        recovery::verdict(0, 262_145, 524_290).unwrap_err(),
        "2 probe(s) re-read the sealed chain on first touch after recovery"
    );
    assert_eq!(recovery::judge_probe("A", 0, 262_144, 9), None);
    assert!(recovery::judge_probe("A", 0, 262_145, 9)
        .unwrap()
        .starts_with("A read 262145 bytes of the 9-byte sealed chain"));
}

#[test]
fn listings_are_held_against_what_was_written() {
    let all = vec![1, 2, 3];
    assert_eq!(listing::check_listings(&all, &vec![3, 2, 1, 1], &all), vec![]);
    assert_eq!(
        listing::check_listings(&all, &vec![1, 9], &all),
        vec![
            ListingFault::Discovery { missing: 2, unexpected: 1, got: 2, want: 3 },
            ListingFault::Disagree { discovery: 2, hinted: 3 },
        ]
    );
    assert_eq!(
        listing::check_listings(&all, &vec![1], &vec![1]),
        vec![
            ListingFault::Discovery { missing: 2, unexpected: 0, got: 1, want: 3 },
            ListingFault::Hinted { got: 1, want: 3 },
        ]
    );
    assert_eq!(
        listing::describe(ListingFault::Discovery { missing: 2, unexpected: 1, got: 2, want: 3 }),
        "discovery listing wrong: 2 missing, 1 unexpected (got 2 of 3)"
    );
    assert_eq!(listing::failure_message(2), "2 assertion(s) failed");
    assert_eq!(listing::written_ids().len(), 300);
    assert_eq!(listing::max_shard_hint(), 1);
}

#[test]
fn the_verdict_on_the_listings_reads_the_replies() {
    let all = listing::written_ids();
    let history = |found: Vec<u128>, hinted: Vec<u128>| {
        vec![Reply::Done, Reply::Done, Reply::Done, Reply::Ids(found), Reply::Ids(hinted)]
    };
    assert_eq!(listing::verdict(&history(all.clone(), all.clone())), vec![]);
    assert_eq!(listing::verdict(&history(all.clone(), vec![])).len(), 2);
    assert_eq!(listing::verdict(&vec![]).len(), 2);
}

#[test]
fn keys_are_written_as_hashes() {
    let keys = ApiKeySet {
        primary_rw: [0xfb; 32],
        primary_rw_hash: [0x00; 32],
        secondary_rw_hash: [0xff; 32],
        primary_ro_hash: [0x1a; 32],
        secondary_ro_hash: [0x07; 32],
    };
    assert_eq!(
        create_api_keys_file(&keys),
        format!(
            "[keys]\nprimary_rw = \"{}\"\nsecondary_rw = \"{}\"\nprimary_ro = \"{}\"\nsecondary_ro = \"{}\"\n",
            "00".repeat(32),
            "ff".repeat(32),
            "1a".repeat(32),
            "07".repeat(32)
        )
    );
    let text = api_key_text(&keys);
    assert_eq!(text.len(), 44);
    assert!(text.starts_with("+/v7"));
    assert_eq!(base64_decode(&text).unwrap(), vec![0xfb; 32]);
}

#[test]
fn base64_is_read_with_its_padding() {
    assert_eq!(base64_decode("aGVsbG8=").unwrap(), b"hello".to_vec());
    assert_eq!(base64_decode("").unwrap(), Vec::<u8>::new());
    let NotBase64(e) = base64_decode("aGVsbG8").unwrap_err();
    assert_eq!(e.to_string(), "Invalid padding");
    let NotBase64(e) = base64_decode("a-Vs").unwrap_err();
    assert_eq!(e.to_string(), "Invalid symbol 45, offset 1.");
}

/// The certificate of an authority.
const AUTHORITY: &str = "\
    -----BEGIN CERTIFICATE-----\n\
    MIIBSDCB+6ADAgECAhRNc9Xgt/r1clJlEW2yTsLjJ1TqeDAFBgMrZXAwGTEXMBUG\n\
    A1UEAwwOdGVzdC1hdXRob3JpdHkwIBcNMjYxMTE1MTYyMDA2WhgPMjEyNjEwMjIx\n\
    NjIwMDZaMBkxFzAVBgNVBAMMDnRlc3QtYXV0aG9yaXR5MCowBQYDK2VwAyEAof6X\n\
    FaC+nijOStsfT8s2wvJZKG5SRJahlXCJUQ28CoqjUzBRMB0GA1UdDgQWBBT+2zO3\n\
    UiJEwrpzaz3qUwNkRJDezTAfBgNVHSMEGDAWgBT+2zO3UiJEwrpzaz3qUwNkRJDe\n\
    zTAPBgNVHRMBAf8EBTADAQH/MAUGAytlcANBAKJFrbhk2fKcxkuYBM5OAogTWvi7\n\
    PXqen6gockgGVDiffVq1CZ1FcKiRzYpa7QdRBWA0WSlhAuk0RwqZNFaimwQ=\n\
    -----END CERTIFICATE-----\n\
";

#[test]
fn authorities_are_read_from_a_file() {
    let tls = build_anonymous_tls(AUTHORITY.as_bytes(), "localhost").unwrap();
    assert_eq!(tls.roots.len(), 1);
    assert_eq!(tls.roots[0][0], 0x30);
    assert_eq!(tls.server_name, "localhost");
    let twice = AUTHORITY.repeat(2);
    let tls = build_anonymous_tls(twice.as_bytes(), "10.0.0.50").unwrap();
    assert_eq!(tls.roots[0], tls.roots[1]);
    assert_eq!(build_anonymous_tls(b"", "10.0.0.50").unwrap().roots.len(), 0);
}

#[test]
fn the_first_fault_of_an_authority_is_told() {
    let fault = |pem: &str, name: &str| build_anonymous_tls(pem.as_bytes(), name).unwrap_err();
    let no_root = "-----BEGIN CERTIFICATE-----\nAAEC\n-----END CERTIFICATE-----\n";
    let broken = "-----BEGIN CERTIFICATE-----\nAAEC\n";
    assert!(matches!(fault(no_root, "localhost"), TlsFault::BadRoot(0, _)));
    assert!(matches!(
        fault(&format!("{AUTHORITY}{no_root}{broken}"), ""),
        TlsFault::BadRoot(1, _)
    ));
    match fault(&format!("{AUTHORITY}{broken}"), "") {
        TlsFault::BadPem(1, e) => assert!(!e.to_string().is_empty()),
        other => panic!("{other:?}"),
    }
    assert!(matches!(fault(AUTHORITY, "not a name"), TlsFault::BadName));
    assert_eq!(check_server_name("localhost"), Ok("localhost".to_string()));
    assert_eq!(
        check_server_name(""),
        Err("Invalid server name '': invalid dns name".to_string())
    );
}

#[test]
fn pool_events_have_ids_of_their_own() {
    let a = pool_test::make_event(3, "p", 9, 77);
    assert_eq!((a.client_seq, a.event_id, a.timestamp), (3, Some(9), 77));
    assert_eq!((a.event_type_major, a.event_type_minor, a.value.as_str()), (1, 0, "p"));
    let ids: Vec<_> = (0..8).map(|i| pool_test::fresh_event(i, "p", 0).event_id).collect();
    for i in 0..8 {
        for j in 0..i {
            assert_ne!(ids[i], ids[j]);
        }
    }
}

#[test]
fn any_failed_pool_scenario_shows() {
    assert_eq!(pool_test::run().len(), 17);
    assert_eq!(pool_test::verdict(&vec![true; 17]), Ok(()));
    assert_eq!(
        pool_test::verdict(&vec![true, false, true, false]),
        Err("2 pool test(s) failed".to_string())
    );
}

#[test]
fn accounts_and_requests_have_names() {
    assert_eq!(accounts::request_name("mem", 7), "mem-req-7");
    assert_eq!(accounts::account_name("pg", Account::First), "pg-suite-acct-1");
    assert_eq!(accounts::account_name("pg", Account::Second), "pg-suite-acct-2");
    assert_eq!(accounts::count_hits(&vec![Some(1), None, Some(2), Some(1)], 1), 2);
    assert_eq!(accounts::count_hits(&vec![], 1), 0);
    assert_eq!(accounts::run(false).len(), 1);
    assert_eq!(accounts::run(true).len(), 2);
    assert!(matches!(
        accounts::deposit(Node::B, 5, 1),
        Action::Account(AccountCall::Deposit { replica: Node::B, cents: 5, request: 1, .. })
    ));
}

#[test]
fn a_log_keeps_the_first_panic_it_showed() {
    let mut w = LogWatch::new();
    w.poll(strings(&["all well"]));
    assert!(w.panic_line.is_none() && !w.is_full());
    w.poll(strings(&["a", "shard 1: Election FAILED after retries", "b"]));
    assert_eq!(w.panic_line.as_deref(), Some("shard 1: Election FAILED after retries"));
    assert_eq!(w.context.len(), 3);
    w.poll(strings(&["election failed after retries again", "Shard executor panic detected: 1"]));
    assert_eq!(w.panic_line.as_deref(), Some("shard 1: Election FAILED after retries"));
    assert_eq!(w.restart_line.as_deref(), Some("Shard executor panic detected: 1"));
    assert_eq!(w.context.len(), 3);
    assert!(w.is_full());
    let mut other = LogWatch::new();
    other.poll(strings(&["shard executor panic detected"]));
    assert!(other.restart_line.is_none());
    assert_eq!(survival::indent(&strings(&["a", "b"])), "      | a\n      | b");
    assert_eq!(survival::indent(&vec![]), "");
}

#[test]
fn a_watcher_probes_at_intervals() {
    let mut w = Watcher::new(10_000, 500);
    assert!(w.goes_on(9_999));
    assert!(!w.goes_on(10_000));
    assert_eq!(w.alive(0, None), Tick::Probe(500));
    assert_eq!(w.alive(100, None), Tick::Pause);
    assert_eq!(w.alive(200, Some(false)), Tick::Pause);
    assert_eq!(w.alive(1_999, None), Tick::Pause);
    assert_eq!(w.alive(2_000, None), Tick::Probe(2_500));
    assert_eq!(w.alive(2_300, Some(true)), Tick::Over);
    assert_eq!(w.seen.first_writable, Some(2_300));
    assert!(!w.goes_on(2_400));
    let mut w = Watcher::new(10_000, 0);
    w.died("exit 1".to_string());
    assert!(!w.goes_on(0));
    assert_eq!(w.seen.death.as_deref(), Some("exit 1"));
    assert_eq!(survival::write_probe(2_500).key.aggregate_id, 2_500);
}

#[test]
fn writers_of_the_load_keep_apart() {
    let mut a = Driver::new(0);
    let b = Driver::new(1);
    assert_eq!(a.next().len(), 4);
    assert_eq!(a.next()[3].client_seq, 4);
    assert_eq!(a.next()[0].client_id, 1000);
    assert_ne!(a.next()[0].key, b.next()[0].key);
    let first = a.next()[0].key;
    a.observe(true);
    a.observe(false);
    assert_eq!((a.sent, a.acked), (2, 4));
    assert_ne!(a.next()[0].key, first);
}

#[test]
fn survival_is_judged_in_order() {
    let quiet = LogWatch::new();
    let mut loud = LogWatch::new();
    loud.poll(strings(&["election failed after retries"]));
    let watch = |death: Option<&str>, first_writable| NodeWatch {
        death: death.map(|s| s.to_string()),
        first_writable,
    };
    let fine = watch(None, Some(9_000));
    let dead = watch(Some("exit 101"), None);
    assert_eq!(survival::verdict(&loud, &dead, &fine), Verdict::Panicked);
    assert_eq!(survival::verdict(&quiet, &fine, &dead), Verdict::Died);
    assert_eq!(survival::verdict(&quiet, &watch(None, Some(7_999)), &fine), Verdict::MissedWindow(7_999));
    assert_eq!(survival::verdict(&quiet, &watch(None, Some(8_000)), &fine), Verdict::Survived);
    assert_eq!(survival::verdict(&quiet, &watch(None, None), &fine), Verdict::Survived);
    assert_eq!(survival::death(&fine, &dead).map(|s| s.as_str()), Some("exit 101"));
    assert!(survival::death(&fine, &fine).is_none());
    assert_eq!(
        survival::harness("x"),
        "HARNESS FAILURE (setup never reached the defect's preconditions): x"
    );
}

#[test]
fn large_events_follow_each_other_up_to_a_refusal() {
    let key = AggregateKey::new(1, 1, 7);
    let mut sender = LargeSender::new(key, 6, 8, 65_536);
    let mut sent = Vec::new();
    while let Some(event) = sender.next() {
        sent.push(event);
        sender.observe(None);
    }
    let large = |n| LargeEvent { key, n, payload_bytes: 65_536 };
    assert_eq!(sent, vec![large(6), large(7), large(8)]);
    assert_eq!(sender.accepted, 3);
    let mut sender = LargeSender::new(key, 6, 8, 65_536);
    sender.observe(None);
    sender.observe(Some(Refusal::Other));
    assert_eq!(sender.next(), None);
    assert_eq!((sender.accepted, sender.refused), (1, Some(Refusal::Other)));
    assert_eq!(LargeSender::new(key, 9, 8, 1).next(), None);
}

#[test]
fn a_fill_creates_each_aggregate_and_makes_it_large() {
    let mut fill = ListedFill::new(1, 2, 300, 24_576);
    let mut writes = Vec::new();
    while let Some(write) = fill.next() {
        writes.push(write);
        fill.observe(None);
    }
    assert_eq!(writes.len(), 600);
    match (&writes[598], &writes[599]) {
        (FillWrite::Create(w), FillWrite::Large(e)) => {
            assert_eq!(w.key, AggregateKey::new(1, 2, 300));
            assert!(w.allow_create);
            assert_eq!(w.client_seq, 1);
            let want = LargeEvent { key: w.key, n: 2, payload_bytes: 24_576 };
            assert_eq!(*e, want);
        }
        other => panic!("{other:?}"),
    }
    let mut fill = ListedFill::new(1, 2, 300, 24_576);
    fill.observe(None);
    fill.observe(Some(Refusal::Other));
    assert!(fill.next().is_none());
    assert_eq!((fill.done, fill.created), (0, true));
}

#[test]
fn names_are_counted_over_all_listings() {
    let names = |n: usize| vec!["x".to_string(); n];
    assert_eq!(count_names(&vec![]), Some(0));
    assert_eq!(count_names(&vec![names(2), names(0), names(5)]), Some(7));
}

#[test]
fn values_are_laid_beside_what_was_written() {
    let event = |value: &[u8]| StoredEvent {
        client_seq: 1,
        event_type_minor: 0,
        value: value.to_vec(),
    };
    let batches = vec![
        Batch { version: 1, events: vec![event(b"a"), event(b"b")] },
        Batch { version: 2, events: vec![] },
        Batch { version: 9, events: vec![event(b"c")] },
    ];
    let pairs = pair_up(&batches, &vec![b"A".to_vec(), b"B".to_vec()]);
    let flat: Vec<_> =
        pairs.iter().map(|p| (p.version, p.events, &p.read[..], &p.written[..])).collect();
    assert_eq!(
        flat,
        vec![
            (1, 2, &b"a"[..], &b"A"[..]),
            (2, 0, &b""[..], &b"B"[..]),
            (9, 1, &b"c"[..], &b""[..]),
        ]
    );
}

#[test]
fn every_writer_has_a_key_of_its_own() {
    let s = sequence(1, 3);
    assert_eq!(s.for_writer(0).key, s.key);
    assert_eq!(s.for_writer(23).key, AggregateKey::new(1, 1, 24));
    assert_eq!((s.for_writer(5).lo, s.for_writer(5).hi), (1, 3));
}

#[test]
fn events_of_a_run_have_seeds_of_their_own() {
    let mut seeds = Seeds::new();
    let mut seen = Vec::new();
    for k in 0..3 {
        for event in seeds.events(&make_create_request(k, 5)) {
            assert!(!seen.contains(&event.seed));
            seen.push(event.seed);
        }
    }
    assert_eq!(seen, (0..30).collect::<Vec<u64>>());
    assert_eq!(seeds.next, 30);
}

fn survival_history() -> Vec<Reply> {
    let lease = |epoch| {
        Reply::Lease(Lease {
            leader_node_id: 1,
            lease_index: 1,
            lease_epoch: epoch,
            acquired_at_ms: 0,
            expires_at_ms: 0,
        })
    };
    let mut history: Vec<Reply> = (0..29).map(|_| Reply::Done).collect();
    history[6] = Reply::Flag(true);
    let warm = Batch { version: 1, events: vec![] };
    history[13] = Reply::Batches(vec![warm]);
    history[15] = Reply::Number(1234);
    history[16] = Reply::Flag(true);
    history[17] = Reply::Number(9);
    history[22] = Reply::Batches(vec![]);
    history[23] = lease(3);
    history[26] = Reply::Flag(false);
    history[27] = lease(4);
    history
}

#[test]
fn a_verdict_is_told_with_what_led_to_it() {
    let p = survival::preconditions(&survival_history(), 85);
    let said_of_the_setup = "Preconditions all held: 1234 events acked with the replication link severed, 9 S3 fallback objects for the promoting node to read back, follower behind, leader SIGKILLed, lease epoch 3 -> 4, S3 stalled 85ms after the CAS win.";
    let quiet = || NodeWatch { death: None, first_writable: None };
    let log = LogWatch::new();
    assert_eq!(survival::describe(&p, &log, &quiet(), &quiet()), None);
    let exit = survival::exit_text("exit status: 101", 12_349, &vec!["last".to_string()]);
    assert_eq!(exit, "exit status: 101 (after 12.3s)\n      | last");
    let dead = || NodeWatch { death: Some(exit.clone()), first_writable: None };
    assert_eq!(
        survival::describe(&p, &log, &dead(), &quiet()).unwrap(),
        format!(
            "CONTRACT VIOLATED: the challenger's PROCESS TERMINATED after its failed leadership challenge (no \"election failed after retries\" line was captured, so the cause is something else on the same path).\n{said_of_the_setup}\nExit and log tail:\n{exit}"
        )
    );
    let early = NodeWatch { death: None, first_writable: Some(7_950) };
    assert_eq!(
        survival::describe(&p, &log, &early, &quiet()).unwrap(),
        "HARNESS FAILURE (setup never reached the defect's preconditions): the challenger was serving writes 8.0s into the stall (< 8s), so its S3 catch-up had already completed when MinIO was paused. The stall landed after the promotion window, not inside it; nothing about a FAILED challenge was exercised"
    );
    let mut log = LogWatch::new();
    log.poll(vec!["Election failed after retries".to_string()]);
    assert_eq!(
        survival::describe(&p, &log, &quiet(), &dead()).unwrap(),
        format!(
            "CONTRACT VIOLATED: the challenger's leadership challenge failed and the node PANICKED on the election path.\ndocs/leadership-replication-design.md makes `Promoting -> Follower | Fenced` (\"lost the race / overran\") an ordinary, recoverable transition; a node that cannot complete its S3 WAL catch-up must step back and retry, not abort.\n{said_of_the_setup}\nPanic: Election failed after retries\nSupervisor: (no shard-restart line seen)\nProcess exited: {exit}\nLog around the panic:\n      | Election failed after retries"
        )
    );
    assert!(survival::describe(&p, &log, &quiet(), &quiet())
        .unwrap()
        .contains("\nProcess exited: no — the in-process supervisor restarted the shard executors under it."));
}

#[test]
fn a_sequence_tells_where_it_was_halted() {
    let mut sender = Sender::new(sequence(4, 9));
    assert!(matches!(sender.outcome(0), Reply::Done));
    sender.observe(None);
    sender.observe(None);
    sender.observe(Some(Refusal::Other));
    assert!(matches!(
        sender.outcome(7),
        Reply::Halted { writer: 7, event: 6, refusal: Refusal::Other }
    ));
}

//! What a sound server lets in and reports: who may connect and write, which events conform to their
//! schema, and which changes a watch is told of. The scenarios ask for just that.

use crate::bench::{ClientAuth, Routing};
use crate::expect::{Expect, StreamRule};
use crate::ledger::{events_in, part_of};
use crate::model::{AggregateKey, Payload, Write};
use crate::script::{Action, Claim, Credential, Signer, Step};
use vstd::prelude::*;

verus! {

/// A server, what it holds, and what its client has shown of itself.
pub struct Gate {
    /// What is asked of a client over TLS; none where connections are plain.
    pub tls: Option<ClientAuth>,
    /// A client has to say who it is.
    pub wants_identity: bool,
    /// Keys are spread over shards by the aggregate.
    pub spread: bool,
    pub linked: bool,
    /// The client has shown whose key it holds.
    pub identified: bool,
    /// Organisation, type and version of each schema.
    pub schemas: Set<(u128, u128, u64, u64)>,
    /// The first write of each aggregate.
    pub first: Map<AggregateKey, Write>,
    pub versions: Map<AggregateKey, nat>,
    /// The aggregate that is watched.
    pub watched: Option<u128>,
    /// What has changed since the last report, and whether by a write.
    pub news: Option<(AggregateKey, bool)>,
    /// What the last report was about.
    pub told: Option<AggregateKey>,
    /// How many reports had an operation of their own.
    pub operations: nat,
}

/// A server that was not started.
pub open spec fn shut() -> Gate {
    Gate {
        tls: None,
        wants_identity: false,
        spread: false,
        linked: false,
        identified: false,
        schemas: Set::empty(),
        first: Map::empty(),
        versions: Map::empty(),
        watched: None,
        news: None,
        told: None,
        operations: 0,
    }
}

/// The version of an aggregate: 0 where there is none.
pub open spec fn version(g: Gate, key: AggregateKey) -> nat {
    if g.versions.contains_key(key) {
        g.versions[key]
    } else {
        0
    }
}

/// Whether a client with this credential may connect over TLS.
pub open spec fn admits(auth: ClientAuth, credential: Credential) -> bool {
    auth == ClientAuth::Anonymous || (auth == ClientAuth::Require && credential
        == Credential::Signed)
}

/// Whether the text of a schema is whole.
pub open spec fn is_whole(schema: Seq<char>) -> bool {
    schema.len() >= 2 && schema[0] == '{' && schema[schema.len() - 1] == '}'
}

/// Whether an event has a number as its amount.
pub open spec fn has_amount(w: Write) -> bool {
    w.payload matches Payload::Text(t) && t@.len() > 10 && t@.take(10) == "{\"amount\":"@ && '0'
        <= t@[10] <= '9'
}

/// The schema that an event is held against.
pub open spec fn schema_of(w: Write) -> (u128, u128, u64, u64) {
    (w.key.org_id, w.key.aggregate_type_id, w.event_type_major, w.event_type_minor)
}

/// The code with which a write is turned down.
pub open spec fn bars(g: Gate, w: Write) -> Option<u32> {
    if g.wants_identity && !g.identified {
        Some(10004)
    } else if g.schemas.contains(schema_of(w)) && !has_amount(w) {
        Some(2022)
    } else {
        None
    }
}

/// A server that has taken `n` writes to an aggregate, `w` first.
pub open spec fn wrote(g: Gate, w: Write, n: nat) -> Gate {
    Gate {
        first: if version(g, w.key) == 0 {
            g.first.insert(w.key, w)
        } else {
            g.first
        },
        versions: g.versions.insert(w.key, version(g, w.key) + n),
        news: Some((w.key, true)),
        ..g
    }
}

/// The server after a step.
pub open spec fn passed(g: Gate, step: Step) -> Gate {
    match step.action {
        Action::StartNode { config, .. } => Gate {
            tls: config.tls_strict,
            wants_identity: config.require_client_identity,
            spread: config.num_shards matches Some(n) && n > 1 && config.routing_rule != Some(
                Routing::OrgId,
            ),
            ..shut()
        },
        Action::Connect(_) => Gate { linked: true, ..g },
        Action::ConnectTls(_) => Gate { linked: true, ..g },
        Action::Identify(Signer::Own) => Gate { identified: true, ..g },
        Action::Write(_, w) => if bars(g, w) is None {
            wrote(g, w, 1)
        } else {
            g
        },
        Action::WriteSequence(_, q) => wrote(g, q.write(q.lo), events_in(q)),
        Action::Trim(_, key, _) => Gate { news: Some((key, false)), ..g },
        Action::Delete(_, d) => Gate {
            news: Some((d.key, false)),
            versions: g.versions.insert(d.key, 0),
            ..g
        },
        Action::RegisterSchema { org, kind, major, minor, schema } => if is_whole(schema@) {
            Gate { schemas: g.schemas.insert((org, kind, major, minor)), ..g }
        } else {
            g
        },
        Action::Watch { aggregate_id, .. } => Gate {
            watched: Some(aggregate_id),
            news: None,
            ..g
        },
        Action::NextNotices(_) => match g.news {
            Some((key, _)) => Gate {
                told: Some(key),
                news: None,
                operations: g.operations + 1,
                ..g
            },
            None => g,
        },
        _ => g,
    }
}

/// The server before step `k`.
pub open spec fn gate_at(steps: Seq<Step>, k: nat) -> Gate
    decreases k,
{
    if k == 0 {
        shut()
    } else {
        passed(gate_at(steps, (k - 1) as nat), steps[k - 1])
    }
}

/// Whether a read of an aggregate is what is asked for.
pub open spec fn read_is_apt(g: Gate, key: AggregateKey, expect: Expect) -> bool {
    match expect {
        Expect::NothingStored => version(g, key) == 0,
        Expect::Stream(StreamRule::Count(n)) => n == version(g, key) && n > 0,
        Expect::Stream(StreamRule::FirstHolds(text)) => version(g, key) > 0 && (
        g.first[key].payload matches Payload::Text(t) && part_of(text@, t@)),
        Expect::Stream(StreamRule::FirstMinor(n)) => version(g, key) > 0 && n
            == g.first[key].event_type_minor,
        _ => false,
    }
}

/// Whether an action asks for exactly what a sound server answers.
pub open spec fn is_apt(g: Gate, action: Action, expect: Expect) -> bool {
    match action {
        Action::StartNode { .. } => expect is Accepted,
        Action::Connect(_) => g.tls is None && expect is Accepted,
        Action::ConnectTls(credential) => g.tls matches Some(auth) && admits(auth, credential)
            && expect is Accepted,
        Action::ProbeTls { credential, .. } => g.tls matches Some(auth) && if admits(
            auth,
            credential,
        ) {
            expect is Accepted
        } else {
            expect is RefusedInTime
        },
        Action::ProbePlaintext { .. } => g.tls is Some && expect is RefusedInTime,
        Action::Identify(signer) => g.linked && match signer {
            Signer::Own => expect is IdentityMatches || expect is Accepted,
            Signer::Mismatched => expect == Expect::RefusedWith(10002),
        },
        Action::WriteClaiming(claim, _) => g.linked && g.identified && match claim {
            Claim::Own => expect is Accepted,
            Claim::Shifted(by) => by != 0 && expect == Expect::RefusedWith(10003),
        },
        Action::Write(_, w) => g.linked && (version(g, w.key) == 0 ==> w.allow_create) && match bars(
            g,
            w,
        ) {
            Some(code) => expect == Expect::RefusedWith(code),
            None => expect is Accepted && w.client_seq == version(g, w.key) + 1,
        },
        Action::WriteSequence(_, q) => expect is Accepted && q.lo == version(g, q.key) + 1 && q.lo
            <= q.hi,
        Action::Trim(_, key, keep) => g.linked && 1 <= keep <= version(g, key) && expect is Accepted,
        Action::Delete(_, d) => g.linked && version(g, d.key) > 0 && expect is Accepted,
        Action::RegisterSchema { org, kind, major, minor, schema } => g.linked && if !is_whole(
            schema@,
        ) {
            expect == Expect::RefusedWith(2021)
        } else if g.schemas.contains((org, kind, major, minor)) {
            expect == Expect::RefusedWith(2020)
        } else {
            expect is Accepted
        },
        Action::Watch { latency_ms, .. } => if latency_ms <= 1000 {
            expect is Accepted
        } else {
            expect == Expect::RefusedWith(8001)
        },
        Action::WatchOrganisation(_) => g.spread && expect == Expect::RefusedWith(9002),
        Action::NextNotices(_) => g.news matches Some((key, written)) && g.watched == Some(
            key.aggregate_id,
        ) && (expect matches Expect::Notice(rule) && rule.aggregate_id == key.aggregate_id && (
        rule.ranged ==> written)),
        Action::FollowWatch { key, versions, .. } => g.watched == Some(key.aggregate_id) && versions
            == version(g, key) && expect == Expect::FollowedTo(versions),
        Action::ReadAll(_, key) => g.linked && read_is_apt(g, key, expect),
        _ => false,
    }
}

/// Whether step `k` asks for exactly what a sound server answers.
pub open spec fn is_gated(steps: Seq<Step>, k: nat) -> bool {
    let g = gate_at(steps, k);
    let expect = steps[k as int].expect;
    match steps[k as int].action {
        Action::Recall(j) => j < k && match expect {
            Expect::NoticeNames(org, kind) => g.told matches Some(key) && key.org_id == org
                && key.aggregate_type_id == kind,
            Expect::NoticeReaches(n) => g.told matches Some(key) && n == version(g, key),
            Expect::DistinctOperations(n) => n == g.operations && n > 1,
            _ => is_apt(gate_at(steps, j as nat), steps[j as int].action, expect),
        },
        action => is_apt(g, action, expect),
    }
}

/// Whether the first `n` steps do.
pub open spec fn gated_before(steps: Seq<Step>, n: nat) -> bool
    decreases n,
{
    n == 0 || (gated_before(steps, (n - 1) as nat) && is_gated(steps, (n - 1) as nat))
}

/// Whether every step of a script does.
pub open spec fn all_gated(steps: Seq<Step>) -> bool {
    forall|k: nat| k < steps.len() ==> #[trigger] is_gated(steps, k)
}

proof fn lemma_gated(steps: Seq<Step>, n: nat)
    requires
        gated_before(steps, n),
    ensures
        forall|k: nat| k < n ==> #[trigger] is_gated(steps, k),
    decreases n,
{
    if n > 0 {
        lemma_gated(steps, (n - 1) as nat);
    }
}

proof fn lemma_schema_texts()
    ensures
        is_whole(
            "{\"type\":\"object\",\"properties\":{\"amount\":{\"type\":\"integer\"}},\"required\":[\"amount\"]}"@,
        ),
        !is_whole("{ this is not valid json schema "@),
{
    reveal_strlit(
        "{\"type\":\"object\",\"properties\":{\"amount\":{\"type\":\"integer\"}},\"required\":[\"amount\"]}",
    );
    reveal_strlit("{ this is not valid json schema ");
}

proof fn lemma_event_texts()
    ensures
        ({
            let t = "{\"amount\":42}"@;
            t.len() > 10 && t.take(10) == "{\"amount\":"@ && '0' <= t[10] <= '9' && part_of(
                "\"amount\":42"@,
                t,
            )
        }),
        ({
            let t = "{\"amount\":\"not-an-integer\"}"@;
            t.len() > 10 && !('0' <= t[10] <= '9')
        }),
{
    reveal_strlit("{\"amount\":42}");
    reveal_strlit("{\"amount\":");
    reveal_strlit("\"amount\":42");
    reveal_strlit("{\"amount\":\"not-an-integer\"}");
    let t = "{\"amount\":42}"@;
    assert(t.take(10) =~= "{\"amount\":"@);
    let part = "\"amount\":42"@;
    assert(t.subrange(1int, 1int + part.len()) =~= part);
}

/// Every step of [`crate::phase4::schema_rejects_bad_event`] asks for exactly what a sound
/// server answers.
pub proof fn schema_rejects_bad_event_is_gated()
    ensures
        all_gated(crate::phase4::schema_rejects_bad_event_steps()),
{
    let steps = crate::phase4::schema_rejects_bad_event_steps();
    lemma_schema_texts();
    lemma_event_texts();
    reveal_with_fuel(gate_at, 6);
    reveal_with_fuel(gated_before, 6);
    lemma_gated(steps, 5);
}

/// Every step of [`crate::phase4::schema_accepts_good_event`] asks for exactly what a sound
/// server answers.
pub proof fn schema_accepts_good_event_is_gated()
    ensures
        all_gated(crate::phase4::schema_accepts_good_event_steps()),
{
    let steps = crate::phase4::schema_accepts_good_event_steps();
    lemma_schema_texts();
    lemma_event_texts();
    reveal_with_fuel(gate_at, 7);
    reveal_with_fuel(gated_before, 7);
    lemma_gated(steps, 6);
}

/// Every step of [`crate::phase4::schema_duplicate_register_rejected`] asks for exactly what a sound
/// server answers.
pub proof fn schema_duplicate_register_rejected_is_gated()
    ensures
        all_gated(crate::phase4::schema_duplicate_register_rejected_steps()),
{
    let steps = crate::phase4::schema_duplicate_register_rejected_steps();
    lemma_schema_texts();
    lemma_event_texts();
    reveal_with_fuel(gate_at, 5);
    reveal_with_fuel(gated_before, 5);
    lemma_gated(steps, 4);
}

/// Every step of [`crate::phase4::schema_invalid_register_rejected`] asks for exactly what a sound
/// server answers.
pub proof fn schema_invalid_register_rejected_is_gated()
    ensures
        all_gated(crate::phase4::schema_invalid_register_rejected_steps()),
{
    let steps = crate::phase4::schema_invalid_register_rejected_steps();
    lemma_schema_texts();
    lemma_event_texts();
    reveal_with_fuel(gate_at, 4);
    reveal_with_fuel(gated_before, 4);
    lemma_gated(steps, 3);
}

/// Every step of [`crate::phase4::schema_unregistered_version_unvalidated`] asks for exactly what a sound
/// server answers.
pub proof fn schema_unregistered_version_unvalidated_is_gated()
    ensures
        all_gated(crate::phase4::schema_unregistered_version_unvalidated_steps()),
{
    let steps = crate::phase4::schema_unregistered_version_unvalidated_steps();
    lemma_schema_texts();
    lemma_event_texts();
    reveal_with_fuel(gate_at, 7);
    reveal_with_fuel(gated_before, 7);
    lemma_gated(steps, 6);
}

/// Every step of [`crate::phase5::watch_notifies_on_write`] asks for exactly what a sound
/// server answers.
pub proof fn watch_notifies_on_write_is_gated()
    ensures
        all_gated(crate::phase5::watch_notifies_on_write_steps()),
{
    let steps = crate::phase5::watch_notifies_on_write_steps();
    reveal_with_fuel(gate_at, 9);
    reveal_with_fuel(gated_before, 9);
    lemma_gated(steps, 8);
}

/// Every step of [`crate::phase5::watch_create_notification_carries_version_range`] asks for exactly what a sound
/// server answers.
pub proof fn watch_create_notification_carries_version_range_is_gated()
    ensures
        all_gated(crate::phase5::watch_create_notification_carries_version_range_steps()),
{
    let steps = crate::phase5::watch_create_notification_carries_version_range_steps();
    reveal_with_fuel(gate_at, 7);
    reveal_with_fuel(gated_before, 7);
    lemma_gated(steps, 6);
}

/// Every step of [`crate::phase5::watch_incompatible_filter_rejected`] asks for exactly what a sound
/// server answers.
pub proof fn watch_incompatible_filter_rejected_is_gated()
    ensures
        all_gated(crate::phase5::watch_incompatible_filter_rejected_steps()),
{
    let steps = crate::phase5::watch_incompatible_filter_rejected_steps();
    reveal_with_fuel(gate_at, 4);
    reveal_with_fuel(gated_before, 4);
    lemma_gated(steps, 3);
}

/// Every step of [`crate::phase5::watch_latency_too_high_rejected`] asks for exactly what a sound
/// server answers.
pub proof fn watch_latency_too_high_rejected_is_gated()
    ensures
        all_gated(crate::phase5::watch_latency_too_high_rejected_steps()),
{
    let steps = crate::phase5::watch_latency_too_high_rejected_steps();
    reveal_with_fuel(gate_at, 3);
    reveal_with_fuel(gated_before, 3);
    lemma_gated(steps, 2);
}

/// Every step of [`crate::phase5::watch_cursor_misses_no_events`] asks for exactly what a sound
/// server answers.
pub proof fn watch_cursor_misses_no_events_is_gated()
    ensures
        all_gated(crate::phase5::watch_cursor_misses_no_events_steps()),
{
    let steps = crate::phase5::watch_cursor_misses_no_events_steps();
    reveal_with_fuel(gate_at, 6);
    reveal_with_fuel(gated_before, 6);
    lemma_gated(steps, 5);
}

/// Every step of [`crate::phase5::watch_operations_are_distinct`] asks for exactly what a sound
/// server answers.
pub proof fn watch_operations_are_distinct_is_gated()
    ensures
        all_gated(crate::phase5::watch_operations_are_distinct_steps()),
{
    let steps = crate::phase5::watch_operations_are_distinct_steps();
    reveal_with_fuel(gate_at, 12);
    reveal_with_fuel(gated_before, 12);
    lemma_gated(steps, 11);
}

/// Every step of [`crate::phase9::mtls_require_good_client_connects`] asks for exactly what a sound
/// server answers.
pub proof fn mtls_require_good_client_connects_is_gated()
    ensures
        all_gated(crate::phase9::mtls_require_good_client_connects_steps()),
{
    let steps = crate::phase9::mtls_require_good_client_connects_steps();
    reveal_with_fuel(gate_at, 5);
    reveal_with_fuel(gated_before, 5);
    lemma_gated(steps, 4);
}

/// Every step of [`crate::phase9::mtls_require_untrusted_ca_refused`] asks for exactly what a sound
/// server answers.
pub proof fn mtls_require_untrusted_ca_refused_is_gated()
    ensures
        all_gated(crate::phase9::mtls_require_untrusted_ca_refused_steps()),
{
    let steps = crate::phase9::mtls_require_untrusted_ca_refused_steps();
    reveal_with_fuel(gate_at, 4);
    reveal_with_fuel(gated_before, 4);
    lemma_gated(steps, 3);
}

/// Every step of [`crate::phase9::mtls_require_no_cert_refused`] asks for exactly what a sound
/// server answers.
pub proof fn mtls_require_no_cert_refused_is_gated()
    ensures
        all_gated(crate::phase9::mtls_require_no_cert_refused_steps()),
{
    let steps = crate::phase9::mtls_require_no_cert_refused_steps();
    reveal_with_fuel(gate_at, 4);
    reveal_with_fuel(gated_before, 4);
    lemma_gated(steps, 3);
}

/// Every step of [`crate::phase9::tls_strict_refuses_plaintext`] asks for exactly what a sound
/// server answers.
pub proof fn tls_strict_refuses_plaintext_is_gated()
    ensures
        all_gated(crate::phase9::tls_strict_refuses_plaintext_steps()),
{
    let steps = crate::phase9::tls_strict_refuses_plaintext_steps();
    reveal_with_fuel(gate_at, 4);
    reveal_with_fuel(gated_before, 4);
    lemma_gated(steps, 3);
}

/// Every step of [`crate::phase9::tls_client_auth_none_allows_anonymous`] asks for exactly what a sound
/// server answers.
pub proof fn tls_client_auth_none_allows_anonymous_is_gated()
    ensures
        all_gated(crate::phase9::tls_client_auth_none_allows_anonymous_steps()),
{
    let steps = crate::phase9::tls_client_auth_none_allows_anonymous_steps();
    reveal_with_fuel(gate_at, 5);
    reveal_with_fuel(gated_before, 5);
    lemma_gated(steps, 4);
}

/// Every step of [`crate::phase9::identity_required_but_absent_rejected`] asks for exactly what a sound
/// server answers.
pub proof fn identity_required_but_absent_rejected_is_gated()
    ensures
        all_gated(crate::phase9::identity_required_but_absent_rejected_steps()),
{
    let steps = crate::phase9::identity_required_but_absent_rejected_steps();
    reveal_with_fuel(gate_at, 4);
    reveal_with_fuel(gated_before, 4);
    lemma_gated(steps, 3);
}

/// Every step of [`crate::phase9::public_key_identity_accepted_and_deterministic`] asks for exactly what a sound
/// server answers.
pub proof fn public_key_identity_accepted_and_deterministic_is_gated()
    ensures
        all_gated(crate::phase9::public_key_identity_accepted_and_deterministic_steps()),
{
    let steps = crate::phase9::public_key_identity_accepted_and_deterministic_steps();
    reveal_with_fuel(gate_at, 5);
    reveal_with_fuel(gated_before, 5);
    lemma_gated(steps, 4);
}

/// Every step of [`crate::phase9::identity_bad_signature_rejected`] asks for exactly what a sound
/// server answers.
pub proof fn identity_bad_signature_rejected_is_gated()
    ensures
        all_gated(crate::phase9::identity_bad_signature_rejected_steps()),
{
    let steps = crate::phase9::identity_bad_signature_rejected_steps();
    reveal_with_fuel(gate_at, 4);
    reveal_with_fuel(gated_before, 4);
    lemma_gated(steps, 3);
}

/// Every step of [`crate::phase9::identity_clientid_mismatch_rejected`] asks for exactly what a sound
/// server answers.
pub proof fn identity_clientid_mismatch_rejected_is_gated()
    ensures
        all_gated(crate::phase9::identity_clientid_mismatch_rejected_steps()),
{
    let steps = crate::phase9::identity_clientid_mismatch_rejected_steps();
    reveal_with_fuel(gate_at, 5);
    reveal_with_fuel(gated_before, 5);
    lemma_gated(steps, 4);
}

} // verus!

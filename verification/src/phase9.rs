//! Who may connect and write: TLS, client certificates, and the identity of a client.

use crate::bench::{
    ClientAuth, Node, NodeConfig, ServerConfig, TlsPaths, Who, holds_text, identity_config, named,
    server_config, tls_settings,
};
use crate::expect::{Expect, StreamRule, group_judgement, turned_down};
use crate::model::{
    AggregateKey, IDENTITY_MISMATCH, IDENTITY_REQUIRED, INVALID_SIGNATURE, Payload, Refusal, Write,
    append,
};
use crate::reply::Reply;
use crate::script::{
    Action, Claim, Credential, OnFail, Patience, Signer, Step, accepted_through, either, met_before,
    must, passes, passing_is_step_by_step, step,
};
use vstd::prelude::*;

verus! {

/// The event type that these scenarios write.
pub const TYPE: u64 = 900;

/// How long a server has to take a client or to refuse it.
pub const ATTEMPT_WITHIN_MS: u64 = 10_000;

/// The start of the node `A` on its own.
#[verifier::allow_in_spec]
pub fn start(name: &'static str, label: &'static str, config: NodeConfig) -> Step
    returns
        (
            must(
                Action::StartNode {
                    node: Node::A,
                    port: named(name, 0),
                    label: Some(label),
                    config,
                },
            )
        ),
{
    must(Action::StartNode { node: Node::A, port: named(name, 0), label: Some(label), config })
}

/// A server on its own that speaks TLS only, trusts `ca_cert`, shows `node_cert` with `node_key`, and
/// asks its clients for what `client_auth` says.
pub fn tls_config(ca_cert: &str, node_cert: &str, node_key: &str, client_auth: ClientAuth) -> (r:
    ServerConfig)
    ensures
        r.node == tls_settings(client_auth),
        r.node.standalone,
        r.node.num_shards == Some(1u64),
        r.tls_strict,
        r.tls_client_auth == Some(client_auth),
        holds_text(r.tls_ca_cert, ca_cert@),
        holds_text(r.tls_node_cert, node_cert@),
        holds_text(r.tls_node_key, node_key@),
        !r.s3_enabled,
        r.s3_region is None,
        r.s3_bucket is None,
        r.s3_access_key_id is None,
        r.s3_secret_access_key is None,
        r.s3_endpoint_override is None,
        !r.s3_allow_http,
{
    let paths: TlsPaths = TlsPaths {
        ca_cert: ca_cert.to_owned(),
        node_cert: node_cert.to_owned(),
        node_key: node_key.to_owned(),
    };
    server_config(tls_settings(client_auth), None, Some(&paths))
}

/// A first event that creates its aggregate, of this type and id.
#[verifier::allow_in_spec]
pub fn create(kind: u128) -> Write
    returns
        (Write {
            allow_create: true,
            ..append(AggregateKey::new(900, kind, 1), 1, TYPE, 1000, Payload::Text("{}"))
        }),
{
    Write {
        allow_create: true,
        ..append(AggregateKey::new(900, kind, 1), 1, TYPE, 1000, Payload::Text("{}"))
    }
}

/// One connection and one write, by which a server shows whether it takes a client.
#[verifier::allow_in_spec]
pub fn connect_and_probe(credential: Credential) -> Action
    returns
        (Action::ProbeTls { credential, write: create(2), connect_within_ms: ATTEMPT_WITHIN_MS }),
{
    Action::ProbeTls { credential, write: create(2), connect_within_ms: ATTEMPT_WITHIN_MS }
}

/// The client id that no client has that was not given it: the identified one, moved on.
pub const BOGUS_SHIFT: u128 = 3735928559;

/// The steps of [`mtls_require_good_client_connects`].
pub open spec fn mtls_require_good_client_connects_steps() -> Seq<Step> {
    seq![
        start("p9_mtls_good", "tls-require", tls_settings(ClientAuth::Require)),
        must(Action::ConnectTls(Credential::Signed)),
        must(Action::Write(Who::A, create(1))),
        step(
            Action::ReadAll(Who::A, AggregateKey::new(900, 1, 1)),
            Expect::Stream(StreamRule::Count(1)),
            "expected 1 batch over mTLS, got {got}",
        ),
    ]
}

/// A client with a certificate of the trusted authority connects and writes.
pub fn mtls_require_good_client_connects() -> (r: Vec<Step>)
    ensures
        r@ == mtls_require_good_client_connects_steps(),
{
    let steps: Vec<Step> = vec![
        start("p9_mtls_good", "tls-require", tls_settings(ClientAuth::Require)),
        must(Action::ConnectTls(Credential::Signed)),
        must(Action::Write(Who::A, create(1))),
        step(
            Action::ReadAll(Who::A, AggregateKey::new(900, 1, 1)),
            Expect::Stream(StreamRule::Count(1)),
            "expected 1 batch over mTLS, got {got}",
        ),
    ];
    assert(steps@ =~= mtls_require_good_client_connects_steps());
    steps
}

/// What [`mtls_require_good_client_connects`] demands of the replies, one for each of its steps.
pub open spec fn mtls_require_good_client_connects_holds(history: Seq<Reply>) -> bool {
    &&& history.len() == 4
    &&& accepted_through(history, 0, 2)
    &&& history[3] matches Reply::Batches(b) && b@.len() == 1
}

/// [`mtls_require_good_client_connects`] passes exactly on the replies that it demands.
pub proof fn mtls_require_good_client_connects_passes(history: Seq<Reply>)
    ensures
        passes(mtls_require_good_client_connects_steps(), history)
            <==> mtls_require_good_client_connects_holds(history),
{
    broadcast use group_judgement;

    let steps = mtls_require_good_client_connects_steps();
    passing_is_step_by_step(steps, history);
    reveal_with_fuel(met_before, 5);
}

/// The steps of [`mtls_require_untrusted_ca_refused`].
pub open spec fn mtls_require_untrusted_ca_refused_steps() -> Seq<Step> {
    seq![
        start("p9_mtls_untrusted", "tls-require", tls_settings(ClientAuth::Require)),
        step(
            connect_and_probe(Credential::Signed),
            Expect::Accepted,
            "positive control failed — a valid mTLS client could not connect: {reply}",
        ),
        Step {
            action: connect_and_probe(Credential::Stranger),
            expect: Expect::RefusedInTime,
            patience: Patience::Once,
            on_fail: OnFail::Errors(
                "require server accepted a client whose cert was signed by an untrusted CA",
                "connect_tls timed out",
            ),
        },
    ]
}

/// A client with a certificate of another authority is refused by a server that takes good ones; to
/// hang is not to refuse.
pub fn mtls_require_untrusted_ca_refused() -> (r: Vec<Step>)
    ensures
        r@ == mtls_require_untrusted_ca_refused_steps(),
{
    let steps: Vec<Step> = vec![
        start("p9_mtls_untrusted", "tls-require", tls_settings(ClientAuth::Require)),
        step(
            connect_and_probe(Credential::Signed),
            Expect::Accepted,
            "positive control failed — a valid mTLS client could not connect: {reply}",
        ),
        Step {
            action: connect_and_probe(Credential::Stranger),
            expect: Expect::RefusedInTime,
            patience: Patience::Once,
            on_fail: OnFail::Errors(
                "require server accepted a client whose cert was signed by an untrusted CA",
                "connect_tls timed out",
            ),
        },
    ];
    assert(steps@ =~= mtls_require_untrusted_ca_refused_steps());
    steps
}

/// What [`mtls_require_untrusted_ca_refused`] demands of the replies, one for each of its steps.
pub open spec fn mtls_require_untrusted_ca_refused_holds(history: Seq<Reply>) -> bool {
    &&& history.len() == 3
    &&& !turned_down(history[0])
    &&& !turned_down(history[1])
    &&& history[2] is Redirected || (history[2] matches Reply::Refused(r) && !(r is TimedOut))
}

/// [`mtls_require_untrusted_ca_refused`] passes exactly on the replies that it demands.
pub proof fn mtls_require_untrusted_ca_refused_passes(history: Seq<Reply>)
    ensures
        passes(mtls_require_untrusted_ca_refused_steps(), history)
            <==> mtls_require_untrusted_ca_refused_holds(history),
{
    broadcast use group_judgement;

    let steps = mtls_require_untrusted_ca_refused_steps();
    passing_is_step_by_step(steps, history);
    reveal_with_fuel(met_before, 4);
}

/// The steps of [`mtls_require_no_cert_refused`].
pub open spec fn mtls_require_no_cert_refused_steps() -> Seq<Step> {
    seq![
        start("p9_mtls_nocert", "tls-require", tls_settings(ClientAuth::Require)),
        step(
            connect_and_probe(Credential::Signed),
            Expect::Accepted,
            "positive control failed — a valid mTLS client could not connect: {reply}",
        ),
        Step {
            action: connect_and_probe(Credential::Anonymous),
            expect: Expect::RefusedInTime,
            patience: Patience::Once,
            on_fail: OnFail::Errors(
                "require server accepted a client presenting NO certificate",
                "connect_tls timed out",
            ),
        },
    ]
}

/// A client without a certificate is refused by a server that takes good ones; to hang is not to
/// refuse.
pub fn mtls_require_no_cert_refused() -> (r: Vec<Step>)
    ensures
        r@ == mtls_require_no_cert_refused_steps(),
{
    let steps: Vec<Step> = vec![
        start("p9_mtls_nocert", "tls-require", tls_settings(ClientAuth::Require)),
        step(
            connect_and_probe(Credential::Signed),
            Expect::Accepted,
            "positive control failed — a valid mTLS client could not connect: {reply}",
        ),
        Step {
            action: connect_and_probe(Credential::Anonymous),
            expect: Expect::RefusedInTime,
            patience: Patience::Once,
            on_fail: OnFail::Errors(
                "require server accepted a client presenting NO certificate",
                "connect_tls timed out",
            ),
        },
    ];
    assert(steps@ =~= mtls_require_no_cert_refused_steps());
    steps
}

/// What [`mtls_require_no_cert_refused`] demands of the replies, one for each of its steps.
pub open spec fn mtls_require_no_cert_refused_holds(history: Seq<Reply>) -> bool {
    &&& history.len() == 3
    &&& !turned_down(history[0])
    &&& !turned_down(history[1])
    &&& history[2] is Redirected || (history[2] matches Reply::Refused(r) && !(r is TimedOut))
}

/// [`mtls_require_no_cert_refused`] passes exactly on the replies that it demands.
pub proof fn mtls_require_no_cert_refused_passes(history: Seq<Reply>)
    ensures
        passes(mtls_require_no_cert_refused_steps(), history)
            <==> mtls_require_no_cert_refused_holds(history),
{
    broadcast use group_judgement;

    let steps = mtls_require_no_cert_refused_steps();
    passing_is_step_by_step(steps, history);
    reveal_with_fuel(met_before, 4);
}

/// The steps of [`tls_strict_refuses_plaintext`].
pub open spec fn tls_strict_refuses_plaintext_steps() -> Seq<Step> {
    seq![
        start("p9_strict_plain", "tls-strict", tls_settings(ClientAuth::Anonymous)),
        step(
            connect_and_probe(Credential::Anonymous),
            Expect::Accepted,
            "positive control failed — a TLS client could not reach the strict server: {reply}",
        ),
        Step {
            action: Action::ProbePlaintext { write: create(3), within_ms: ATTEMPT_WITHIN_MS },
            expect: Expect::RefusedInTime,
            patience: Patience::Once,
            on_fail: OnFail::Errors(
                "TLS-strict server accepted a plaintext write",
                "plaintext write to a TLS-strict server neither completed nor was refused within 10s (hang)",
            ),
        },
    ]
}

/// A server that speaks TLS only refuses a client that does not; to hang is not to refuse.
pub fn tls_strict_refuses_plaintext() -> (r: Vec<Step>)
    ensures
        r@ == tls_strict_refuses_plaintext_steps(),
{
    let steps: Vec<Step> = vec![
        start("p9_strict_plain", "tls-strict", tls_settings(ClientAuth::Anonymous)),
        step(
            connect_and_probe(Credential::Anonymous),
            Expect::Accepted,
            "positive control failed — a TLS client could not reach the strict server: {reply}",
        ),
        Step {
            action: Action::ProbePlaintext { write: create(3), within_ms: ATTEMPT_WITHIN_MS },
            expect: Expect::RefusedInTime,
            patience: Patience::Once,
            on_fail: OnFail::Errors(
                "TLS-strict server accepted a plaintext write",
                "plaintext write to a TLS-strict server neither completed nor was refused within 10s (hang)",
            ),
        },
    ];
    assert(steps@ =~= tls_strict_refuses_plaintext_steps());
    steps
}

/// What [`tls_strict_refuses_plaintext`] demands of the replies, one for each of its steps.
pub open spec fn tls_strict_refuses_plaintext_holds(history: Seq<Reply>) -> bool {
    &&& history.len() == 3
    &&& !turned_down(history[0])
    &&& !turned_down(history[1])
    &&& history[2] is Redirected || (history[2] matches Reply::Refused(r) && !(r is TimedOut))
}

/// [`tls_strict_refuses_plaintext`] passes exactly on the replies that it demands.
pub proof fn tls_strict_refuses_plaintext_passes(history: Seq<Reply>)
    ensures
        passes(tls_strict_refuses_plaintext_steps(), history)
            <==> tls_strict_refuses_plaintext_holds(history),
{
    broadcast use group_judgement;

    let steps = tls_strict_refuses_plaintext_steps();
    passing_is_step_by_step(steps, history);
    reveal_with_fuel(met_before, 4);
}

/// The steps of [`tls_client_auth_none_allows_anonymous`].
pub open spec fn tls_client_auth_none_allows_anonymous_steps() -> Seq<Step> {
    seq![
        start("p9_auth_none", "tls-none", tls_settings(ClientAuth::Anonymous)),
        must(Action::ConnectTls(Credential::Anonymous)),
        must(Action::Write(Who::A, create(4))),
        step(
            Action::ReadAll(Who::A, AggregateKey::new(900, 4, 1)),
            Expect::Stream(StreamRule::Count(1)),
            "anonymous client over client-auth=none failed to write",
        ),
    ]
}

/// A server that asks for no certificate takes a client without one.
pub fn tls_client_auth_none_allows_anonymous() -> (r: Vec<Step>)
    ensures
        r@ == tls_client_auth_none_allows_anonymous_steps(),
{
    let steps: Vec<Step> = vec![
        start("p9_auth_none", "tls-none", tls_settings(ClientAuth::Anonymous)),
        must(Action::ConnectTls(Credential::Anonymous)),
        must(Action::Write(Who::A, create(4))),
        step(
            Action::ReadAll(Who::A, AggregateKey::new(900, 4, 1)),
            Expect::Stream(StreamRule::Count(1)),
            "anonymous client over client-auth=none failed to write",
        ),
    ];
    assert(steps@ =~= tls_client_auth_none_allows_anonymous_steps());
    steps
}

/// What [`tls_client_auth_none_allows_anonymous`] demands of the replies, one for each of its
/// steps.
pub open spec fn tls_client_auth_none_allows_anonymous_holds(history: Seq<Reply>) -> bool {
    &&& history.len() == 4
    &&& accepted_through(history, 0, 2)
    &&& history[3] matches Reply::Batches(b) && b@.len() == 1
}

/// [`tls_client_auth_none_allows_anonymous`] passes exactly on the replies that it demands.
pub proof fn tls_client_auth_none_allows_anonymous_passes(history: Seq<Reply>)
    ensures
        passes(tls_client_auth_none_allows_anonymous_steps(), history)
            <==> tls_client_auth_none_allows_anonymous_holds(history),
{
    broadcast use group_judgement;

    let steps = tls_client_auth_none_allows_anonymous_steps();
    passing_is_step_by_step(steps, history);
    reveal_with_fuel(met_before, 5);
}

/// The steps of [`identity_required_but_absent_rejected`].
pub open spec fn identity_required_but_absent_rejected_steps() -> Seq<Step> {
    seq![
        start("p9_ident_absent", "require-identity", identity_config()),
        must(Action::Connect(Who::A)),
        step(
            Action::Write(Who::A, create(5)),
            Expect::RefusedWith(IDENTITY_REQUIRED),
            "expected IdentityRequired (10004), got {reply}",
        ),
    ]
}

/// Where an identity is required, a write without one is refused.
pub fn identity_required_but_absent_rejected() -> (r: Vec<Step>)
    ensures
        r@ == identity_required_but_absent_rejected_steps(),
{
    let steps: Vec<Step> = vec![
        start("p9_ident_absent", "require-identity", identity_config()),
        must(Action::Connect(Who::A)),
        step(
            Action::Write(Who::A, create(5)),
            Expect::RefusedWith(IDENTITY_REQUIRED),
            "expected IdentityRequired (10004), got {reply}",
        ),
    ];
    assert(steps@ =~= identity_required_but_absent_rejected_steps());
    steps
}

/// What [`identity_required_but_absent_rejected`] demands of the replies, one for each of its
/// steps.
pub open spec fn identity_required_but_absent_rejected_holds(history: Seq<Reply>) -> bool {
    &&& history.len() == 3
    &&& !turned_down(history[0])
    &&& !turned_down(history[1])
    &&& history[2] == Reply::Refused(Refusal::Coded(IDENTITY_REQUIRED))
}

/// [`identity_required_but_absent_rejected`] passes exactly on the replies that it demands.
pub proof fn identity_required_but_absent_rejected_passes(history: Seq<Reply>)
    ensures
        passes(identity_required_but_absent_rejected_steps(), history)
            <==> identity_required_but_absent_rejected_holds(history),
{
    broadcast use group_judgement;

    let steps = identity_required_but_absent_rejected_steps();
    passing_is_step_by_step(steps, history);
    reveal_with_fuel(met_before, 4);
}

/// The steps of [`public_key_identity_accepted_and_deterministic`].
pub open spec fn public_key_identity_accepted_and_deterministic_steps() -> Seq<Step> {
    seq![
        start("p9_ident_pubkey", "require-identity", identity_config()),
        must(Action::Connect(Who::A)),
        either(
            Action::Identify(Signer::Own),
            Expect::IdentityMatches,
            "server returned client id {given}, expected {own} (SHA-256(pubkey)[..16])",
            "identify returned no client id for a public-key identity",
        ),
        must(Action::WriteClaiming(Claim::Own, create(6))),
    ]
}

/// A client that proves its key is known by the id that the key gives, and may write under it.
pub fn public_key_identity_accepted_and_deterministic() -> (r: Vec<Step>)
    ensures
        r@ == public_key_identity_accepted_and_deterministic_steps(),
{
    let steps: Vec<Step> = vec![
        start("p9_ident_pubkey", "require-identity", identity_config()),
        must(Action::Connect(Who::A)),
        either(
            Action::Identify(Signer::Own),
            Expect::IdentityMatches,
            "server returned client id {given}, expected {own} (SHA-256(pubkey)[..16])",
            "identify returned no client id for a public-key identity",
        ),
        must(Action::WriteClaiming(Claim::Own, create(6))),
    ];
    assert(steps@ =~= public_key_identity_accepted_and_deterministic_steps());
    steps
}

/// What [`public_key_identity_accepted_and_deterministic`] demands of the replies, one for each of
/// its steps.
pub open spec fn public_key_identity_accepted_and_deterministic_holds(history: Seq<Reply>) -> bool {
    &&& history.len() == 4
    &&& !turned_down(history[0])
    &&& !turned_down(history[1])
    &&& history[2] matches Reply::Identity(given, own) && given == Some(own)
    &&& !turned_down(history[3])
}

/// [`public_key_identity_accepted_and_deterministic`] passes exactly on the replies that it
/// demands.
pub proof fn public_key_identity_accepted_and_deterministic_passes(history: Seq<Reply>)
    ensures
        passes(public_key_identity_accepted_and_deterministic_steps(), history)
            <==> public_key_identity_accepted_and_deterministic_holds(history),
{
    broadcast use group_judgement;

    let steps = public_key_identity_accepted_and_deterministic_steps();
    passing_is_step_by_step(steps, history);
    reveal_with_fuel(met_before, 5);
}

/// The steps of [`identity_bad_signature_rejected`].
pub open spec fn identity_bad_signature_rejected_steps() -> Seq<Step> {
    seq![
        start("p9_ident_badsig", "require-identity", identity_config()),
        must(Action::Connect(Who::A)),
        step(
            Action::Identify(Signer::Mismatched),
            Expect::RefusedWith(INVALID_SIGNATURE),
            "expected IdentifyInvalidSignature (10002), got {reply}",
        ),
    ]
}

/// A signature by another key than the one shown is refused.
pub fn identity_bad_signature_rejected() -> (r: Vec<Step>)
    ensures
        r@ == identity_bad_signature_rejected_steps(),
{
    let steps: Vec<Step> = vec![
        start("p9_ident_badsig", "require-identity", identity_config()),
        must(Action::Connect(Who::A)),
        step(
            Action::Identify(Signer::Mismatched),
            Expect::RefusedWith(INVALID_SIGNATURE),
            "expected IdentifyInvalidSignature (10002), got {reply}",
        ),
    ];
    assert(steps@ =~= identity_bad_signature_rejected_steps());
    steps
}

/// What [`identity_bad_signature_rejected`] demands of the replies, one for each of its steps.
pub open spec fn identity_bad_signature_rejected_holds(history: Seq<Reply>) -> bool {
    &&& history.len() == 3
    &&& !turned_down(history[0])
    &&& !turned_down(history[1])
    &&& history[2] == Reply::Refused(Refusal::Coded(INVALID_SIGNATURE))
}

/// [`identity_bad_signature_rejected`] passes exactly on the replies that it demands.
pub proof fn identity_bad_signature_rejected_passes(history: Seq<Reply>)
    ensures
        passes(identity_bad_signature_rejected_steps(), history)
            <==> identity_bad_signature_rejected_holds(history),
{
    broadcast use group_judgement;

    let steps = identity_bad_signature_rejected_steps();
    passing_is_step_by_step(steps, history);
    reveal_with_fuel(met_before, 4);
}

/// The steps of [`identity_clientid_mismatch_rejected`].
pub open spec fn identity_clientid_mismatch_rejected_steps() -> Seq<Step> {
    seq![
        start("p9_ident_mismatch", "require-identity", identity_config()),
        must(Action::Connect(Who::A)),
        must(Action::Identify(Signer::Own)),
        step(
            Action::WriteClaiming(Claim::Shifted(BOGUS_SHIFT), create(8)),
            Expect::RefusedWith(IDENTITY_MISMATCH),
            "expected IdentifyMismatch (10003), got {reply}",
        ),
    ]
}

/// A write under another id than the identified one is refused.
pub fn identity_clientid_mismatch_rejected() -> (r: Vec<Step>)
    ensures
        r@ == identity_clientid_mismatch_rejected_steps(),
{
    let steps: Vec<Step> = vec![
        start("p9_ident_mismatch", "require-identity", identity_config()),
        must(Action::Connect(Who::A)),
        must(Action::Identify(Signer::Own)),
        step(
            Action::WriteClaiming(Claim::Shifted(BOGUS_SHIFT), create(8)),
            Expect::RefusedWith(IDENTITY_MISMATCH),
            "expected IdentifyMismatch (10003), got {reply}",
        ),
    ];
    assert(steps@ =~= identity_clientid_mismatch_rejected_steps());
    steps
}

/// What [`identity_clientid_mismatch_rejected`] demands of the replies, one for each of its steps.
pub open spec fn identity_clientid_mismatch_rejected_holds(history: Seq<Reply>) -> bool {
    &&& history.len() == 4
    &&& accepted_through(history, 0, 2)
    &&& history[3] == Reply::Refused(Refusal::Coded(IDENTITY_MISMATCH))
}

/// [`identity_clientid_mismatch_rejected`] passes exactly on the replies that it demands.
pub proof fn identity_clientid_mismatch_rejected_passes(history: Seq<Reply>)
    ensures
        passes(identity_clientid_mismatch_rejected_steps(), history)
            <==> identity_clientid_mismatch_rejected_holds(history),
{
    broadcast use group_judgement;

    let steps = identity_clientid_mismatch_rejected_steps();
    passing_is_step_by_step(steps, history);
    reveal_with_fuel(met_before, 5);
}

} // verus!

//! What the benchmarks write and read: which aggregates, how large, and by which worker.

use crate::model::AggregateKey;
use vstd::prelude::*;

verus! {

/// The organisations that the read and list benchmark fills.
pub const NUM_ORGS: u64 = 50;

/// The aggregate types of each organisation.
pub const TYPES_PER_ORG: u64 = 20;

/// The aggregates of each type.
pub const AGGREGATES_PER_TYPE: u64 = 300;

/// The aggregates of each organisation.
pub const AGGREGATES_PER_ORG: u64 = 6_000;

/// All aggregates of the read and list benchmark.
pub const TOTAL_AGGREGATES: u64 = 300_000;

/// The events of each write that fills an aggregate.
pub const EVENTS_PER_WRITE: u64 = 10;

/// The size of a value that is kept beside the entry itself.
pub const SMALL_PAYLOAD_SIZE: u64 = 64;

/// The size of a value that is kept in a block of its own.
pub const LARGE_PAYLOAD_SIZE: u64 = 2048;

/// The aggregates of the small benchmark.
pub const NUM_AGGREGATES: u64 = 5_000;

/// The writes that each aggregate of the small benchmark gets.
pub const BATCHES_PER_AGGREGATE: u64 = 10;

/// Organisation, type and aggregate of the aggregate at a flat position: aggregates count fastest,
/// organisations slowest, and organisations and types are numbered from 1.
pub open spec fn key_at(flat_index: int) -> (int, int, int) {
    (
        flat_index / AGGREGATES_PER_ORG as int + 1,
        (flat_index / AGGREGATES_PER_TYPE as int) % TYPES_PER_ORG as int + 1,
        flat_index % AGGREGATES_PER_TYPE as int,
    )
}

/// Organisation, type and aggregate of the aggregate at a flat position.
pub fn index_to_key(flat_index: u64) -> (r: (u128, u128, u128))
    ensures
        r.0 == key_at(flat_index as int).0,
        r.1 == key_at(flat_index as int).1,
        r.2 == key_at(flat_index as int).2,
{
    let agg_within_type: u64 = flat_index % AGGREGATES_PER_TYPE;
    let type_index: u64 = (flat_index / AGGREGATES_PER_TYPE) % TYPES_PER_ORG;
    let org_index: u64 = flat_index / AGGREGATES_PER_ORG;
    ((org_index + 1) as u128, (type_index + 1) as u128, agg_within_type as u128)
}

/// The aggregate at a flat position.
pub fn aggregate_at(flat_index: u64) -> (r: AggregateKey)
    ensures
        r.org_id == key_at(flat_index as int).0,
        r.aggregate_type_id == key_at(flat_index as int).1,
        r.aggregate_id == key_at(flat_index as int).2,
{
    let k: (u128, u128, u128) = index_to_key(flat_index);
    AggregateKey::new(k.0, k.1, k.2)
}

/// The organisations, types and aggregates make up the total.
pub proof fn totals_agree()
    ensures
        AGGREGATES_PER_ORG == AGGREGATES_PER_TYPE * TYPES_PER_ORG,
        TOTAL_AGGREGATES == NUM_ORGS * AGGREGATES_PER_ORG,
{
}

/// Every position below the total has an organisation, a type and an aggregate within its range.
pub proof fn keys_stay_in_range(flat_index: int)
    requires
        0 <= flat_index < TOTAL_AGGREGATES,
    ensures
        1 <= key_at(flat_index).0 <= NUM_ORGS,
        1 <= key_at(flat_index).1 <= TYPES_PER_ORG,
        0 <= key_at(flat_index).2 < AGGREGATES_PER_TYPE,
{
}

/// The flat position can be told from the key, so no two positions share one.
pub proof fn key_tells_the_position(flat_index: int)
    requires
        0 <= flat_index,
    ensures
        flat_index == ((key_at(flat_index).0 - 1) * TYPES_PER_ORG + (key_at(flat_index).1 - 1))
            * AGGREGATES_PER_TYPE + key_at(flat_index).2,
{
    let a: int = flat_index / 300;
    assert(flat_index / 6000 == a / 20) by (nonlinear_arith)
        requires
            a == flat_index / 300,
            0 <= flat_index,
    ;
}

/// Two positions with the same key are the same position.
pub proof fn keys_differ(a: int, b: int)
    requires
        0 <= a,
        0 <= b,
        key_at(a) == key_at(b),
    ensures
        a == b,
{
    key_tells_the_position(a);
    key_tells_the_position(b);
}

/// The position that worker `id` goes to after `count` requests, among `total`.
pub open spec fn stride(id: int, count: int, total: int) -> int {
    (id * 7919 + count * 6271) % total
}

/// The position that worker `id` goes to after `count` requests, among `total`.
pub fn next_index(id: u64, count: u64, total: u64) -> (r: u64)
    requires
        total > 0,
        id * 7919 + count * 6271 <= u64::MAX,
    ensures
        r == stride(id as int, count as int, total as int),
        r < total,
{
    (id * 7919 + count * 6271) % total
}

/// The organisation that lister `id` asks for after `count` pages.
pub open spec fn org_at(id: int, count: int) -> int {
    (id * 31 + count * 17) % NUM_ORGS as int + 1
}

/// The type that lister `id` asks for after `count` pages.
pub open spec fn type_at(id: int, count: int) -> int {
    (id * 13 + count * 7) % TYPES_PER_ORG as int + 1
}

/// The organisation that lister `id` asks for after `count` pages.
pub fn list_org(id: u64, count: u64) -> (r: u128)
    requires
        id * 31 + count * 17 <= u64::MAX,
    ensures
        r == org_at(id as int, count as int),
        1 <= r <= NUM_ORGS,
{
    ((id * 31 + count * 17) % NUM_ORGS + 1) as u128
}

/// The type that lister `id` asks for after `count` pages.
pub fn list_type(id: u64, count: u64) -> (r: u128)
    requires
        id * 13 + count * 7 <= u64::MAX,
    ensures
        r == type_at(id as int, count as int),
        1 <= r <= TYPES_PER_ORG,
{
    ((id * 13 + count * 7) % TYPES_PER_ORG + 1) as u128
}

/// A write of several events of one size, of type 1.1, that may create its aggregate.
#[derive(Debug, Clone, Copy, PartialEq, Eq, Structural)]
pub struct BulkWrite {
    pub key: AggregateKey,
    pub events: u64,
    pub payload_size: u64,
    pub client_id: u128,
}

/// One event of a write, as it goes out: `payload_size` bytes that do not compress, for `seed`.
#[derive(Debug, Clone, Copy, PartialEq, Eq, Structural)]
pub struct BulkEvent {
    pub client_seq: u64,
    pub event_id: Option<u128>,
    pub timestamp: u64,
    pub event_type_major: u64,
    pub event_type_minor: u64,
    pub payload_size: u64,
    pub seed: u64,
}

/// An event whose bytes are made from `seed`.
#[verifier::allow_in_spec]
pub fn make_event(payload_size: u64, seed: u64) -> BulkEvent
    returns
        (BulkEvent {
            client_seq: 0,
            event_id: Some(1u128),
            timestamp: 0,
            event_type_major: 1,
            event_type_minor: 1,
            payload_size,
            seed,
        }),
{
    BulkEvent {
        client_seq: 0,
        event_id: Some(1u128),
        timestamp: 0,
        event_type_major: 1,
        event_type_minor: 1,
        payload_size,
        seed,
    }
}

/// The events that the writes of a run are made of. Each gets a seed of its own, so that none is
/// compressed away beside another.
#[derive(Debug)]
pub struct Seeds {
    /// The seed of the next event.
    pub next: u64,
}

impl Seeds {
    /// The seeds of a run, before its first event.
    pub fn new() -> (r: Seeds)
        ensures
            r.next == 0,
    {
        Seeds { next: 0 }
    }

    /// The events of a write.
    pub fn events(&mut self, write: &BulkWrite) -> (r: Vec<BulkEvent>)
        requires
            old(self).next + write.events <= u64::MAX,
        ensures
            final(self).next == old(self).next + write.events,
            r@.len() == write.events,
            forall|i: int|
                0 <= i < r@.len() ==> #[trigger] r@[i] == make_event(
                    write.payload_size,
                    (old(self).next + i) as u64,
                ),
    {
        let mut out: Vec<BulkEvent> = Vec::new();
        let first: u64 = self.next;
        for i in 0..write.events
            invariant
                first + write.events <= u64::MAX,
                out@.len() == i,
                forall|j: int|
                    0 <= j < i ==> #[trigger] out@[j] == make_event(
                        write.payload_size,
                        (first + j) as u64,
                    ),
        {
            out.push(make_event(write.payload_size, first + i));
        }
        self.next = first + write.events;
        out
    }
}

/// No two events of a run have the same seed: not within a write, and not in two writes, of which
/// the later one begins where the earlier one ended or behind it.
pub proof fn seeds_differ(a: BulkWrite, first_a: u64, i: int, b: BulkWrite, first_b: u64, j: int)
    requires
        first_a + a.events <= u64::MAX,
        first_b + b.events <= u64::MAX,
        0 <= i < a.events,
        0 <= j < b.events,
        first_a + a.events <= first_b || (first_a == first_b && i != j),
    ensures
        make_event(a.payload_size, (first_a + i) as u64).seed != make_event(
            b.payload_size,
            (first_b + j) as u64,
        ).seed,
{
}

/// The write that fills the aggregate at a flat position: ten events, small at even positions and
/// large at odd ones.
pub fn make_create_request(flat_index: u64, client_id: u128) -> (r: BulkWrite)
    ensures
        r.key.org_id == key_at(flat_index as int).0,
        r.key.aggregate_type_id == key_at(flat_index as int).1,
        r.key.aggregate_id == key_at(flat_index as int).2,
        r.events == EVENTS_PER_WRITE,
        r.payload_size == if flat_index % 2 == 0 {
            SMALL_PAYLOAD_SIZE
        } else {
            LARGE_PAYLOAD_SIZE
        },
        r.client_id == client_id,
{
    let payload_size: u64 = if flat_index % 2 == 0 {
        SMALL_PAYLOAD_SIZE
    } else {
        LARGE_PAYLOAD_SIZE
    };
    BulkWrite { key: aggregate_at(flat_index), events: EVENTS_PER_WRITE, payload_size, client_id }
}

/// The write of the mixed phase: one large event, so that the log goes on being rotated.
#[verifier::allow_in_spec]
pub fn make_single_write_request(
    org_id: u128,
    type_id: u128,
    aggregate_id: u128,
    client_id: u128,
) -> BulkWrite
    returns
        (BulkWrite {
            key: AggregateKey::new(org_id, type_id, aggregate_id),
            events: 1,
            payload_size: LARGE_PAYLOAD_SIZE,
            client_id,
        }),
{
    BulkWrite {
        key: AggregateKey::new(org_id, type_id, aggregate_id),
        events: 1,
        payload_size: LARGE_PAYLOAD_SIZE,
        client_id,
    }
}

/// The write of the small benchmark: one event of 33 bytes.
#[verifier::allow_in_spec]
pub fn make_write_request(aggregate_id: u128, client_id: u128) -> BulkWrite
    returns
        (BulkWrite {
            key: AggregateKey::new(1, 1, aggregate_id),
            events: 1,
            payload_size: 33,
            client_id,
        }),
{
    BulkWrite { key: AggregateKey::new(1, 1, aggregate_id), events: 1, payload_size: 33, client_id }
}

/// The value of the event of [`make_write_request`].
pub fn small_value() -> (r: &'static str)
    ensures
        r@ == "benchmark-payload-data-0123456789"@,
        r@.len() == make_write_request(0, 0).payload_size,
{
    proof {
        reveal_strlit("benchmark-payload-data-0123456789");
    }
    "benchmark-payload-data-0123456789"
}

/// The part of `total` aggregates that connection `k` of `connections` fills: where it begins and
/// how many they are. What does not divide evenly is left out.
pub open spec fn share(total: int, connections: int, k: int) -> (int, int) {
    (k * (total / connections), total / connections)
}

/// The part of `total` aggregates that connection `k` of `connections` fills.
pub fn setup_share(total: u64, connections: u64, k: u64) -> (r: (u64, u64))
    requires
        k < connections,
    ensures
        r.0 == share(total as int, connections as int, k as int).0,
        r.1 == share(total as int, connections as int, k as int).1,
        r.0 + r.1 <= total,
{
    let per: u64 = total / connections;
    proof {
        shares_fit(total as int, connections as int, k as int);
    }
    (k * per, per)
}

proof fn shares_fit(total: int, connections: int, k: int)
    requires
        0 <= total,
        0 <= k < connections,
    ensures
        0 <= share(total, connections, k).0,
        share(total, connections, k).0 + share(total, connections, k).1 <= total,
{
    let per = total / connections;
    assert(per * connections <= total && per >= 0) by (nonlinear_arith)
        requires
            per == total / connections,
            connections > 0,
            total >= 0,
    ;
    assert(k * per + per <= per * connections && 0 <= k * per) by (nonlinear_arith)
        requires
            0 <= k < connections,
            per >= 0,
    ;
}

/// No aggregate is in the part of two connections.
pub proof fn shares_do_not_overlap(total: int, connections: int, j: int, k: int)
    requires
        0 <= total,
        0 <= j < k < connections,
    ensures
        share(total, connections, j).0 + share(total, connections, j).1 <= share(
            total,
            connections,
            k,
        ).0,
{
    let per = total / connections;
    assert(per >= 0) by (nonlinear_arith)
        requires
            per == total / connections,
            connections > 0,
            total >= 0,
    ;
    assert(j * per + per <= k * per) by (nonlinear_arith)
        requires
            j + 1 <= k,
            per >= 0,
    ;
}

/// The writers and readers of the mixed phase, of `actual` connections: writers first, as many as
/// are wanted, and readers with the rest.
pub fn split_mixed(actual: u64, wanted_writers: u64) -> (r: (u64, u64))
    ensures
        r.0 == if wanted_writers <= actual {
            wanted_writers
        } else {
            actual
        },
        r.0 + r.1 == actual,
{
    let writers: u64 = if wanted_writers <= actual {
        wanted_writers
    } else {
        actual
    };
    (writers, actual - writers)
}

/// Whether the log was rotated at least once: more segments in all than shards.
#[verifier::allow_in_spec]
pub fn rotated(total_segments: u64, shards: u64) -> bool
    returns
        (total_segments > shards),
{
    total_segments > shards
}

/// From one request to the next a worker moves on by the same step around the ring of positions, and
/// two workers that have made as many requests stay as far apart as they began.
pub proof fn workers_stride_evenly(id: int, count: int, total: int)
    requires
        0 <= id,
        0 <= count,
        0 < total,
    ensures
        stride(id, count + 1, total) == (stride(id, count, total) + 6271) % total,
        stride(id + 1, count, total) == (stride(id, count, total) + 7919) % total,
        stride(0, 0, total) == 0,
{
    let x = id * 7919 + count * 6271;
    vstd::arithmetic::div_mod::lemma_add_mod_noop_right(6271, x, total);
    vstd::arithmetic::div_mod::lemma_add_mod_noop_right(7919, x, total);
    vstd::arithmetic::div_mod::lemma_small_mod(0, total as nat);
}

/// A lister comes to another organisation and another type at every page, and back to the first ones
/// once it has been through all of them.
pub proof fn listers_go_round(id: int, count: int)
    requires
        0 <= id,
        0 <= count,
    ensures
        org_at(id, count + 1) != org_at(id, count),
        type_at(id, count + 1) != type_at(id, count),
        org_at(id, count + 50) == org_at(id, count),
        type_at(id, count + 20) == type_at(id, count),
        1 <= org_at(id, count) <= 50,
        1 <= type_at(id, count) <= 20,
{
    let x = id * 31 + count * 17;
    let y = id * 13 + count * 7;
    lemma_around_orgs(x);
    lemma_around_types(y);
    assert(id * 31 + (count + 1) * 17 == x + 17);
    assert(id * 31 + (count + 50) * 17 == x + 850);
    assert(id * 13 + (count + 1) * 7 == y + 7);
    assert(id * 13 + (count + 20) * 7 == y + 140);
}

proof fn lemma_around_orgs(x: int)
    ensures
        (x + 17) % 50 != x % 50,
        (x + 850) % 50 == x % 50,
        0 <= x % 50 < 50,
{
}

proof fn lemma_around_types(y: int)
    ensures
        (y + 7) % 20 != y % 20,
        (y + 140) % 20 == y % 20,
        0 <= y % 20 < 20,
{
}

/// Between them the connections fill all but what does not divide evenly, which is less than one part
/// would take from each connection.
pub proof fn shares_leave_out_less_than_one_each(total: int, connections: int)
    requires
        0 <= total,
        0 < connections,
    ensures
        ({
            let last = share(total, connections, connections - 1);
            0 <= total - (last.0 + last.1) < connections
        }),
        share(total, connections, 0).0 == 0,
{
    let per = total / connections;
    assert(total == per * connections + total % connections) by {
        vstd::arithmetic::div_mod::lemma_fundamental_div_mod(total, connections);
        assert(connections * per == per * connections) by (nonlinear_arith);
    }
    assert((connections - 1) * per + per == per * connections) by (nonlinear_arith);
    assert(0 * per == 0) by (nonlinear_arith);
}

} // verus!

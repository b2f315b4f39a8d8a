//! The workers of a benchmark: what each asks for next, and what it makes of the answer.

use crate::model::AggregateKey;
use crate::stats::TaskStats;
use crate::workload::{
    AGGREGATES_PER_TYPE, BulkWrite, NUM_AGGREGATES, NUM_ORGS, TOTAL_AGGREGATES, TYPES_PER_ORG,
    aggregate_at, key_at, list_org, list_type, make_create_request, make_single_write_request,
    make_write_request, next_index, org_at, stride, type_at,
};
use vstd::prelude::*;

verus! {

/// The data that a benchmark filled its server with.
#[derive(Debug, Clone, Copy, PartialEq, Eq, Structural)]
pub enum Data {
    /// Many organisations, each with many types.
    Wide,
    /// One type of one organisation.
    Narrow,
}

/// What a worker does.
#[derive(Debug, Clone, Copy, PartialEq, Eq, Structural)]
pub enum Task {
    Read,
    Write,
    ListAggregates,
    ListOrgs,
    ListTypes,
}

/// What a worker asks a server for.
#[derive(Debug, Clone, Copy, PartialEq, Eq, Structural)]
pub enum Request {
    /// A stream from its first version on.
    Read(AggregateKey),
    Write(BulkWrite),
    ListAggregates { org_id: u128, aggregate_type_id: u128, cursor: Option<u64> },
    ListOrgs { cursor: Option<u64> },
    ListTypes { org_id: u128, cursor: Option<u64> },
}

/// How a request came out.
#[derive(Debug, Clone, Copy, PartialEq, Eq, Structural)]
pub enum Answer {
    /// The kind of answer that was asked for; a listing says where it goes on, if it does.
    Right(Option<u64>),
    /// Some other kind of answer.
    Wrong,
    /// The server's own error.
    ServerError,
    TimedOut,
    /// The connection's error.
    Broken,
}

/// A listing under way.
#[derive(Debug, Clone, Copy, PartialEq, Eq, Structural)]
pub struct Walk {
    pub org_id: u128,
    pub aggregate_type_id: u128,
    pub cursor: Option<u64>,
}

/// One worker of a benchmark.
pub struct Worker {
    pub data: Data,
    pub task: Task,
    pub id: u64,
    /// The id that writes go out under.
    pub client_id: u128,
    /// When it stops asking.
    pub deadline: u64,
    pub count: u64,
    pub errors: u64,
    pub latencies: Vec<u64>,
    pub walk: Option<Walk>,
    pub stopped: bool,
}

/// Whether a task goes through pages.
#[verifier::allow_in_spec]
pub fn lists(task: Task) -> bool
    returns
        (match task {
            Task::Read | Task::Write => false,
            Task::ListAggregates | Task::ListOrgs | Task::ListTypes => true,
        }),
{
    match task {
        Task::Read | Task::Write => false,
        Task::ListAggregates | Task::ListOrgs | Task::ListTypes => true,
    }
}

/// Whether an answer counts as a success. A writer takes any answer for one.
#[verifier::allow_in_spec]
pub fn succeeds(task: Task, answer: Answer) -> bool
    returns
        (match answer {
            Answer::Right(_) => true,
            Answer::Wrong => task == Task::Write,
            _ => false,
        }),
{
    match answer {
        Answer::Right(_) => true,
        Answer::Wrong => task == Task::Write,
        _ => false,
    }
}

/// Whether an answer ends the work. A lister begins anew instead.
#[verifier::allow_in_spec]
pub fn ends(task: Task, answer: Answer) -> bool
    returns
        (answer == Answer::Broken && !lists(task)),
{
    answer == Answer::Broken && !lists(task)
}

/// The listing after an answer: on where it said, from the start again when nothing came in time,
/// and over in every other case.
#[verifier::allow_in_spec]
pub fn walk_after(walk: Option<Walk>, answer: Answer) -> Option<Walk>
    returns
        (match (walk, answer) {
            (Some(w), Answer::Right(Some(next))) => Some(Walk { cursor: Some(next), ..w }),
            (Some(w), Answer::TimedOut) => Some(Walk { cursor: None, ..w }),
            _ => None,
        }),
{
    match (walk, answer) {
        (Some(w), Answer::Right(Some(next))) => Some(Walk { cursor: Some(next), ..w }),
        (Some(w), Answer::TimedOut) => Some(Walk { cursor: None, ..w }),
        _ => None,
    }
}

impl Worker {
    /// Every success has its latency, and only a lister is in the middle of a listing.
    pub open spec fn wf(&self) -> bool {
        &&& self.latencies@.len() == self.count
        &&& self.walk is Some ==> lists(self.task)
    }

    /// Whether what it asks for next can be told in 64 bits.
    pub open spec fn fits(&self) -> bool {
        self.id * 7919 + self.count * 6271 <= u64::MAX
    }

    /// Whether it is done at the time `now`.
    pub open spec fn finished(&self, now: u64) -> bool {
        self.stopped || now >= self.deadline
    }

    /// The aggregate that it goes to next.
    pub open spec fn target(&self) -> (int, int, int) {
        match self.data {
            Data::Wide => key_at(stride(self.id as int, self.count as int, TOTAL_AGGREGATES as int)),
            Data::Narrow => (
                1,
                1,
                stride(self.id as int, self.count as int, NUM_AGGREGATES as int),
            ),
        }
    }

    /// The listing that it is in, or begins.
    pub open spec fn page(&self) -> Walk {
        match self.walk {
            Some(w) => w,
            None => Walk {
                org_id: match self.data {
                    Data::Wide => org_at(self.id as int, self.count as int) as u128,
                    Data::Narrow => 1,
                },
                aggregate_type_id: match self.data {
                    Data::Wide => type_at(self.id as int, self.count as int) as u128,
                    Data::Narrow => 1,
                },
                cursor: None,
            },
        }
    }

    /// What it asks for next.
    pub open spec fn wanted(&self) -> Request {
        let (org, kind, id) = self.target();
        let key = AggregateKey {
            org_id: org as u128,
            aggregate_type_id: kind as u128,
            aggregate_id: id as u128,
        };
        match self.task {
            Task::Read => Request::Read(key),
            Task::Write => Request::Write(
                match self.data {
                    Data::Wide => make_single_write_request(
                        key.org_id,
                        key.aggregate_type_id,
                        key.aggregate_id,
                        self.client_id,
                    ),
                    Data::Narrow => make_write_request(key.aggregate_id, self.client_id),
                },
            ),
            Task::ListAggregates => Request::ListAggregates {
                org_id: self.page().org_id,
                aggregate_type_id: self.page().aggregate_type_id,
                cursor: self.page().cursor,
            },
            Task::ListOrgs => Request::ListOrgs { cursor: self.page().cursor },
            Task::ListTypes => Request::ListTypes {
                org_id: self.page().org_id,
                cursor: self.page().cursor,
            },
        }
    }

    /// A worker before its first request.
    pub fn new(data: Data, task: Task, id: u64, client_id: u128, deadline: u64) -> (r: Worker)
        ensures
            r.wf(),
            r.data == data,
            r.task == task,
            r.id == id,
            r.client_id == client_id,
            r.deadline == deadline,
            r.count == 0,
            r.errors == 0,
            r.walk is None,
            !r.stopped,
    {
        Worker {
            data,
            task,
            id,
            client_id,
            deadline,
            count: 0,
            errors: 0,
            latencies: Vec::new(),
            walk: None,
            stopped: false,
        }
    }

    fn target_key(&self) -> (r: AggregateKey)
        requires
            self.fits(),
        ensures
            r.org_id == self.target().0,
            r.aggregate_type_id == self.target().1,
            r.aggregate_id == self.target().2,
    {
        match self.data {
            Data::Wide => aggregate_at(next_index(self.id, self.count, TOTAL_AGGREGATES)),
            Data::Narrow => AggregateKey::new(
                1,
                1,
                next_index(self.id, self.count, NUM_AGGREGATES) as u128,
            ),
        }
    }

    fn current_page(&self) -> (r: Walk)
        requires
            self.fits(),
        ensures
            r == self.page(),
    {
        match self.walk {
            Some(w) => w,
            None => match self.data {
                Data::Wide => Walk {
                    org_id: list_org(self.id, self.count),
                    aggregate_type_id: list_type(self.id, self.count),
                    cursor: None,
                },
                Data::Narrow => Walk { org_id: 1, aggregate_type_id: 1, cursor: None },
            },
        }
    }

    /// What it asks for at the time `now`: nothing once its time has passed or its connection broke.
    pub fn next(&mut self, now: u64) -> (r: Option<Request>)
        requires
            old(self).wf(),
            old(self).fits(),
        ensures
            final(self).wf(),
            final(self).data == old(self).data,
            final(self).task == old(self).task,
            final(self).id == old(self).id,
            final(self).client_id == old(self).client_id,
            final(self).deadline == old(self).deadline,
            final(self).count == old(self).count,
            final(self).errors == old(self).errors,
            final(self).latencies == old(self).latencies,
            final(self).stopped == old(self).stopped,
            r == if old(self).finished(now) {
                None
            } else {
                Some(old(self).wanted())
            },
            final(self).walk == if !old(self).finished(now) && lists(old(self).task) {
                Some(old(self).page())
            } else {
                old(self).walk
            },
    {
        if self.stopped || now >= self.deadline {
            return None;
        }
        match self.task {
            Task::Read => Some(Request::Read(self.target_key())),
            Task::Write => {
                let key: AggregateKey = self.target_key();
                Some(
                    Request::Write(
                        match self.data {
                            Data::Wide => make_single_write_request(
                                key.org_id,
                                key.aggregate_type_id,
                                key.aggregate_id,
                                self.client_id,
                            ),
                            Data::Narrow => make_write_request(key.aggregate_id, self.client_id),
                        },
                    ),
                )
            },
            Task::ListAggregates => {
                let w: Walk = self.current_page();
                self.walk = Some(w);
                Some(
                    Request::ListAggregates {
                        org_id: w.org_id,
                        aggregate_type_id: w.aggregate_type_id,
                        cursor: w.cursor,
                    },
                )
            },
            Task::ListOrgs => {
                let w: Walk = self.current_page();
                self.walk = Some(w);
                Some(Request::ListOrgs { cursor: w.cursor })
            },
            Task::ListTypes => {
                let w: Walk = self.current_page();
                self.walk = Some(w);
                Some(Request::ListTypes { org_id: w.org_id, cursor: w.cursor })
            },
        }
    }

    /// Takes the answer to what it asked for, which took `latency` milliseconds.
    pub fn observe(&mut self, answer: Answer, latency: u64)
        requires
            old(self).wf(),
            old(self).count < u64::MAX,
            old(self).errors < u64::MAX,
        ensures
            final(self).wf(),
            final(self).data == old(self).data,
            final(self).task == old(self).task,
            final(self).id == old(self).id,
            final(self).client_id == old(self).client_id,
            final(self).deadline == old(self).deadline,
            succeeds(old(self).task, answer) ==> {
                &&& final(self).count == old(self).count + 1
                &&& final(self).errors == old(self).errors
                &&& final(self).latencies@ == old(self).latencies@.push(latency)
            },
            !succeeds(old(self).task, answer) ==> {
                &&& final(self).count == old(self).count
                &&& final(self).errors == old(self).errors + 1
                &&& final(self).latencies == old(self).latencies
            },
            final(self).walk == walk_after(old(self).walk, answer),
            final(self).stopped == (old(self).stopped || ends(old(self).task, answer)),
    {
        if succeeds(self.task, answer) {
            self.latencies.push(latency);
            self.count = self.count + 1;
        } else {
            self.errors = self.errors + 1;
        }
        self.walk = walk_after(self.walk, answer);
        if ends(self.task, answer) {
            self.stopped = true;
        }
    }

    /// What it measured.
    pub fn into_stats(self) -> (r: TaskStats)
        requires
            self.wf(),
        ensures
            r.request_count == self.count,
            r.error_count == self.errors,
            r.latencies == self.latencies,
            r.latencies@.len() == r.request_count,
    {
        TaskStats {
            request_count: self.count,
            error_count: self.errors,
            latencies: self.latencies,
        }
    }
}

/// A reader or writer of the wide data stays within the organisations, types and aggregates that
/// were filled, and a lister within the organisations and types.
pub proof fn workers_ask_for_what_was_filled(w: Worker)
    requires
        w.data == Data::Wide,
        w.fits(),
    ensures
        1 <= w.target().0 <= NUM_ORGS,
        1 <= w.target().1 <= TYPES_PER_ORG,
        0 <= w.target().2 < AGGREGATES_PER_TYPE,
        w.walk is None ==> 1 <= w.page().org_id <= NUM_ORGS && 1 <= w.page().aggregate_type_id
            <= TYPES_PER_ORG,
{
    crate::workload::keys_stay_in_range(
        stride(w.id as int, w.count as int, TOTAL_AGGREGATES as int),
    );
}

/// A listing that is under way keeps to its organisation and type, whatever comes back, until it is
/// over.
pub proof fn a_walk_keeps_its_filters(w: Walk, answer: Answer)
    ensures
        match walk_after(Some(w), answer) {
            Some(n) => n.org_id == w.org_id && n.aggregate_type_id == w.aggregate_type_id,
            None => answer != Answer::TimedOut && !(answer matches Answer::Right(Some(_))),
        },
{
}

/// One connection that fills a part of the data, aggregate by aggregate, and gives up at the first
/// error.
pub struct Filler {
    pub data: Data,
    pub offset: u64,
    /// How many aggregates.
    pub aggregates: u64,
    /// How many writes for each.
    pub batches: u64,
    pub client_id: u128,
    /// How many writes were acknowledged.
    pub done: u64,
    pub stopped: bool,
}

impl Filler {
    /// Whether all of its positions and writes can be counted in 64 bits.
    pub open spec fn wf(&self) -> bool {
        &&& self.offset + self.aggregates <= u64::MAX
        &&& self.aggregates * self.batches <= u64::MAX
        &&& self.done <= self.aggregates * self.batches
        &&& self.batches > 0
    }

    /// The write after `done` others.
    pub open spec fn position(&self) -> int {
        self.offset + self.done as int / self.batches as int
    }

    /// A connection before its first write.
    pub fn new(data: Data, offset: u64, aggregates: u64, batches: u64, client_id: u128) -> (r:
        Filler)
        requires
            offset + aggregates <= u64::MAX,
            aggregates * batches <= u64::MAX,
            batches > 0,
        ensures
            r.wf(),
            r.data == data,
            r.offset == offset,
            r.aggregates == aggregates,
            r.batches == batches,
            r.client_id == client_id,
            r.done == 0,
            !r.stopped,
    {
        proof {
            assert(0 <= aggregates * batches) by (nonlinear_arith)
                requires
                    aggregates >= 0,
                    batches >= 0,
            ;
        }
        Filler { data, offset, aggregates, batches, client_id, done: 0, stopped: false }
    }

    /// The next write, until all are done or one failed.
    pub fn next(&self) -> (r: Option<BulkWrite>)
        requires
            self.wf(),
        ensures
            r is Some == (!self.stopped && self.done < self.aggregates * self.batches),
            r matches Some(w) ==> {
                &&& w.client_id == self.client_id
                &&& self.offset <= self.position() < self.offset + self.aggregates
                &&& match self.data {
                    Data::Wide => {
                        &&& w.key.org_id == key_at(self.position()).0
                        &&& w.key.aggregate_type_id == key_at(self.position()).1
                        &&& w.key.aggregate_id == key_at(self.position()).2
                        &&& w.events == crate::workload::EVENTS_PER_WRITE
                        &&& w.payload_size == if self.position() % 2 == 0 {
                            crate::workload::SMALL_PAYLOAD_SIZE
                        } else {
                            crate::workload::LARGE_PAYLOAD_SIZE
                        }
                    },
                    Data::Narrow => w == make_write_request(
                        self.position() as u128,
                        self.client_id,
                    ),
                }
            },
    {
        if self.stopped || self.done >= self.aggregates * self.batches {
            return None;
        }
        proof {
            let (d, b, a) = (self.done as int, self.batches as int, self.aggregates as int);
            assert(0 <= d / b < a) by (nonlinear_arith)
                requires
                    0 <= d < a * b,
                    b > 0,
            ;
        }
        let at: u64 = self.offset + self.done / self.batches;
        Some(
            match self.data {
                Data::Wide => make_create_request(at, self.client_id),
                Data::Narrow => make_write_request(at as u128, self.client_id),
            },
        )
    }

    /// Takes the outcome of the write. Tells whether a failure is to be reported: with the wide data
    /// only that of the very first write is.
    pub fn observe(&mut self, accepted: bool) -> (r: bool)
        requires
            old(self).wf(),
            old(self).done < old(self).aggregates * old(self).batches,
        ensures
            final(self).wf(),
            final(self).data == old(self).data,
            final(self).offset == old(self).offset,
            final(self).aggregates == old(self).aggregates,
            final(self).batches == old(self).batches,
            final(self).client_id == old(self).client_id,
            final(self).done == old(self).done + if accepted {
                1int
            } else {
                0
            },
            final(self).stopped == (old(self).stopped || !accepted),
            r == (!accepted && (old(self).data == Data::Narrow || old(self).done == 0)),
    {
        if accepted {
            self.done = self.done + 1;
            false
        } else {
            self.stopped = true;
            self.data == Data::Narrow || self.done == 0
        }
    }
}

/// What came of opening a number of connections: how many stand, under which id, and how many
/// failed.
#[derive(Debug, Clone, Copy, PartialEq, Eq, Structural)]
pub struct PoolSummary {
    pub established: usize,
    pub verified_client_id: u128,
    pub failed: usize,
}

/// How many of `results` are there.
pub open spec fn present(results: Seq<Option<u128>>) -> nat
    decreases results.len(),
{
    if results.len() == 0 {
        0
    } else {
        present(results.drop_last()) + if results.last() is Some {
            1nat
        } else {
            0
        }
    }
}

/// The last of `results` that is there; 0 where none is.
pub open spec fn last_present(results: Seq<Option<u128>>) -> u128
    decreases results.len(),
{
    if results.len() == 0 {
        0
    } else {
        match results.last() {
            Some(id) => id,
            None => last_present(results.drop_last()),
        }
    }
}

/// Sums up what came of opening connections: `None` for one that failed, and the id that the server
/// gave for one that stands. The last id is the one that counts.
pub fn connect_pool(results: &Vec<Option<u128>>) -> (r: PoolSummary)
    ensures
        r.established == present(results@),
        r.verified_client_id == last_present(results@),
        r.established + r.failed == results@.len(),
{
    let mut established: usize = 0;
    let mut failed: usize = 0;
    let mut verified_client_id: u128 = 0;
    assert(results@.take(0) =~= Seq::empty());
    for i in 0..results.len()
        invariant
            established == present(results@.take(i as int)),
            verified_client_id == last_present(results@.take(i as int)),
            established + failed == i,
    {
        assert(results@.take(i + 1).drop_last() =~= results@.take(i as int));
        match results[i] {
            Some(id) => {
                established = established + 1;
                verified_client_id = id;
            },
            None => {
                failed = failed + 1;
            },
        }
    }
    assert(results@.take(results@.len() as int) =~= results@);
    PoolSummary { established, verified_client_id, failed }
}

/// The results that are there, in their order.
pub open spec fn finished_ones(results: Seq<Option<TaskStats>>) -> Seq<TaskStats>
    decreases results.len(),
{
    if results.len() == 0 {
        Seq::empty()
    } else {
        match results.last() {
            Some(s) => finished_ones(results.drop_last()).push(s),
            None => finished_ones(results.drop_last()),
        }
    }
}

/// What the workers measured that came to their end; one that did not counts for nothing.
pub fn collect_stats(results: Vec<Option<TaskStats>>) -> (r: Vec<TaskStats>)
    ensures
        r@ == finished_ones(results@),
{
    let mut out: Vec<TaskStats> = Vec::new();
    let ghost all = results@;
    assert(all.take(0) =~= Seq::empty());
    for x in iter: results
        invariant
            iter.seq() == all,
            out@ == finished_ones(all.take(iter.index() as int)),
    {
        assert(all.take(iter.index() + 1).drop_last() =~= all.take(iter.index() as int));
        match x {
            Some(s) => {
                out.push(s);
            },
            None => {},
        }
    }
    assert(all.take(all.len() as int) =~= all);
    out
}

/// What came back right counts for every worker, silence and an error for none, and something else than
/// was asked for only for a writer; a broken connection ends the work of those who do not list.
pub proof fn answers_count_as_they_come(task: Task, answer: Answer, next: Option<u64>)
    ensures
        succeeds(task, Answer::Right(next)),
        succeeds(task, Answer::Wrong) <==> !lists(task) && task != Task::Read,
        !succeeds(task, Answer::TimedOut) && !succeeds(task, Answer::Broken),
        ends(task, answer) ==> !succeeds(task, answer),
        ends(task, Answer::Broken) <==> task == Task::Read || task == Task::Write,
        answer != Answer::Broken ==> !ends(task, answer),
{
}

} // verus!

//! What a benchmark makes of the latencies that its workers measured.

use crate::sorting::{sort, sorted_from, sorting_is_unique, sorting_keeps_elements};
use vstd::prelude::*;

verus! {

/// What one worker measured.
#[derive(Debug, Clone)]
pub struct TaskStats {
    pub request_count: u64,
    pub error_count: u64,
    /// One for each request that was answered, in milliseconds.
    pub latencies: Vec<u64>,
}

/// What all workers measured together.
#[derive(Debug, Clone, Copy, PartialEq, Eq, Structural)]
pub struct Summary {
    pub total_requests: u64,
    pub total_errors: u64,
    /// How many latencies there are.
    pub samples: usize,
    /// All latencies added up.
    pub latency_sum: u64,
    pub min: u64,
    pub max: u64,
    pub p50: u64,
    pub p95: u64,
    pub p99: u64,
    pub p999: u64,
}

/// The requests of all workers.
pub open spec fn requests_of(stats: Seq<TaskStats>) -> nat
    decreases stats.len(),
{
    if stats.len() == 0 {
        0
    } else {
        requests_of(stats.drop_last()) + stats.last().request_count as nat
    }
}

/// The errors of all workers.
pub open spec fn errors_of(stats: Seq<TaskStats>) -> nat
    decreases stats.len(),
{
    if stats.len() == 0 {
        0
    } else {
        errors_of(stats.drop_last()) + stats.last().error_count as nat
    }
}

/// The latencies of all workers, one worker after the other.
pub open spec fn latencies_of(stats: Seq<TaskStats>) -> Seq<u64>
    decreases stats.len(),
{
    if stats.len() == 0 {
        Seq::empty()
    } else {
        latencies_of(stats.drop_last()) + stats.last().latencies@
    }
}

/// All of `s` added up.
pub open spec fn sum_of(s: Seq<u64>) -> nat
    decreases s.len(),
{
    if s.len() == 0 {
        0
    } else {
        sum_of(s.drop_last()) + s.last() as nat
    }
}

/// Whether the totals fit into 64 bits and the positions of the percentiles into a word.
pub open spec fn totals_fit(stats: Seq<TaskStats>) -> bool {
    &&& requests_of(stats) <= u64::MAX
    &&& errors_of(stats) <= u64::MAX
    &&& sum_of(latencies_of(stats)) <= u64::MAX
    &&& latencies_of(stats).len() * 999 <= usize::MAX
}

/// The value at the share `num`/`den` of `sorted`; 0 where there is none.
pub open spec fn percentile(sorted: Seq<u64>, num: int, den: int) -> u64 {
    if sorted.len() == 0 {
        0
    } else {
        sorted[(sorted.len() * num) / den]
    }
}

/// Whether `s` is the summary of `stats`, where `sorted` are all latencies in ascending order.
pub open spec fn summarises(s: Summary, stats: Seq<TaskStats>, sorted: Seq<u64>) -> bool {
    &&& sorted_from(sorted, latencies_of(stats))
    &&& s.total_requests == requests_of(stats)
    &&& s.total_errors == errors_of(stats)
    &&& s.samples == latencies_of(stats).len()
    &&& s.latency_sum == sum_of(latencies_of(stats))
    &&& s.min == if sorted.len() == 0 {
        0
    } else {
        sorted.first()
    }
    &&& s.max == if sorted.len() == 0 {
        0
    } else {
        sorted.last()
    }
    &&& s.p50 == percentile(sorted, 50, 100)
    &&& s.p95 == percentile(sorted, 95, 100)
    &&& s.p99 == percentile(sorted, 99, 100)
    &&& s.p999 == percentile(sorted, 999, 1000)
}

/// Whether `s` is the summary of `stats`.
pub open spec fn is_summary(s: Summary, stats: Seq<TaskStats>) -> bool {
    exists|sorted: Seq<u64>| summarises(s, stats, sorted)
}

proof fn lemma_prefix_requests(stats: Seq<TaskStats>, n: int)
    requires
        0 <= n <= stats.len(),
    ensures
        requests_of(stats.take(n)) <= requests_of(stats),
        errors_of(stats.take(n)) <= errors_of(stats),
    decreases stats.len() - n,
{
    if n < stats.len() {
        lemma_prefix_requests(stats, n + 1);
        assert(stats.take(n + 1).drop_last() =~= stats.take(n));
    } else {
        assert(stats.take(n) =~= stats);
    }
}

proof fn lemma_prefix_sum(s: Seq<u64>, n: int)
    requires
        0 <= n <= s.len(),
    ensures
        sum_of(s.take(n)) <= sum_of(s),
    decreases s.len() - n,
{
    if n < s.len() {
        lemma_prefix_sum(s, n + 1);
        assert(s.take(n + 1).drop_last() =~= s.take(n));
    } else {
        assert(s.take(n) =~= s);
    }
}

fn add_up(v: &Vec<u64>) -> (r: u64)
    requires
        sum_of(v@) <= u64::MAX,
    ensures
        r == sum_of(v@),
{
    let mut sum: u64 = 0;
    assert(v@.take(0) =~= Seq::empty());
    for i in 0..v.len()
        invariant
            sum_of(v@) <= u64::MAX,
            sum == sum_of(v@.take(i as int)),
    {
        assert(v@.take(i + 1).drop_last() =~= v@.take(i as int));
        proof {
            lemma_prefix_sum(v@, i + 1);
        }
        sum = sum + v[i];
    }
    assert(v@.take(v@.len() as int) =~= v@);
    sum
}

fn gather(stats: &Vec<TaskStats>) -> (r: Vec<u64>)
    ensures
        r@ == latencies_of(stats@),
{
    let mut out: Vec<u64> = Vec::new();
    assert(stats@.take(0) =~= Seq::empty());
    for i in 0..stats.len()
        invariant
            out@ == latencies_of(stats@.take(i as int)),
    {
        assert(stats@.take(i + 1).drop_last() =~= stats@.take(i as int));
        let ghost before = out@;
        let part: &Vec<u64> = &stats[i].latencies;
        for j in 0..part.len()
            invariant
                out@ == before + part@.take(j as int),
        {
            out.push(part[j]);
            assert(part@.take(j + 1) =~= part@.take(j as int).push(part@[j as int]));
        }
        assert(part@.take(part@.len() as int) =~= part@);
    }
    assert(stats@.take(stats@.len() as int) =~= stats@);
    out
}

proof fn lemma_index_in_range(n: int, num: int, den: int)
    requires
        0 < n,
        0 <= num < den,
    ensures
        0 <= (n * num) / den < n,
{
    assert(0 <= (n * num) / den < n) by (nonlinear_arith)
        requires
            0 < n,
            0 <= num < den,
    ;
}

/// Puts together what all workers measured: totals, and of the latencies in ascending order the
/// first, the last, and those at the half, at 95, 99 and 99.9 of a hundred. Without latencies
/// these are 0.
pub fn compute_result(stats: &Vec<TaskStats>) -> (r: Summary)
    requires
        totals_fit(stats@),
    ensures
        is_summary(r, stats@),
{
    let mut total_requests: u64 = 0;
    let mut total_errors: u64 = 0;
    assert(stats@.take(0) =~= Seq::empty());
    for i in 0..stats.len()
        invariant
            totals_fit(stats@),
            total_requests == requests_of(stats@.take(i as int)),
            total_errors == errors_of(stats@.take(i as int)),
    {
        assert(stats@.take(i + 1).drop_last() =~= stats@.take(i as int));
        proof {
            lemma_prefix_requests(stats@, i + 1);
        }
        total_requests = total_requests + stats[i].request_count;
        total_errors = total_errors + stats[i].error_count;
    }
    assert(stats@.take(stats@.len() as int) =~= stats@);
    let all: Vec<u64> = gather(stats);
    let latency_sum: u64 = add_up(&all);
    let sorted: Vec<u64> = sort(&all);
    let n: usize = sorted.len();
    proof {
        sorting_keeps_elements(sorted@, all@, 0);
    }
    if n == 0 {
        let r: Summary = Summary {
            total_requests,
            total_errors,
            samples: 0,
            latency_sum,
            min: 0,
            max: 0,
            p50: 0,
            p95: 0,
            p99: 0,
            p999: 0,
        };
        assert(summarises(r, stats@, sorted@));
        return r;
    }
    proof {
        lemma_index_in_range(n as int, 50, 100);
        lemma_index_in_range(n as int, 95, 100);
        lemma_index_in_range(n as int, 99, 100);
        lemma_index_in_range(n as int, 999, 1000);
    }
    let r: Summary = Summary {
        total_requests,
        total_errors,
        samples: n,
        latency_sum,
        min: sorted[0],
        max: sorted[n - 1],
        p50: sorted[n * 50 / 100],
        p95: sorted[n * 95 / 100],
        p99: sorted[n * 99 / 100],
        p999: sorted[n * 999 / 1000],
    };
    assert(summarises(r, stats@, sorted@));
    r
}

/// There is one summary of what the workers measured.
pub proof fn summary_is_unique(stats: Seq<TaskStats>, a: Summary, b: Summary)
    requires
        is_summary(a, stats),
        is_summary(b, stats),
    ensures
        a == b,
{
    let x = choose|sorted: Seq<u64>| summarises(a, stats, sorted);
    let y = choose|sorted: Seq<u64>| summarises(b, stats, sorted);
    sorting_is_unique(x, y);
}

/// The percentiles rise with their share, between the smallest and the largest latency.
pub proof fn percentiles_rise(s: Summary, stats: Seq<TaskStats>)
    requires
        is_summary(s, stats),
    ensures
        s.min <= s.p50 <= s.p95 <= s.p99 <= s.p999 <= s.max,
{
    let sorted = choose|sorted: Seq<u64>| summarises(s, stats, sorted);
    let n: int = sorted.len() as int;
    if n > 0 {
        lemma_index_in_range(n, 50, 100);
        lemma_index_in_range(n, 95, 100);
        lemma_index_in_range(n, 99, 100);
        lemma_index_in_range(n, 999, 1000);
        assert(n * 50 / 100 <= n * 95 / 100 <= n * 99 / 100);
        assert(n * 99 / 100 <= n * 999 / 1000);
    }
}

/// Every percentile is a latency that some worker measured.
pub proof fn percentiles_were_measured(s: Summary, stats: Seq<TaskStats>)
    requires
        is_summary(s, stats),
        latencies_of(stats).len() > 0,
    ensures
        latencies_of(stats).contains(s.p50),
        latencies_of(stats).contains(s.p95),
        latencies_of(stats).contains(s.p99),
        latencies_of(stats).contains(s.p999),
{
    let sorted = choose|sorted: Seq<u64>| summarises(s, stats, sorted);
    let all = latencies_of(stats);
    let n: int = sorted.len() as int;
    sorting_keeps_elements(sorted, all, s.p50);
    sorting_keeps_elements(sorted, all, s.p95);
    sorting_keeps_elements(sorted, all, s.p99);
    sorting_keeps_elements(sorted, all, s.p999);
    lemma_index_in_range(n, 50, 100);
    lemma_index_in_range(n, 95, 100);
    lemma_index_in_range(n, 99, 100);
    lemma_index_in_range(n, 999, 1000);
}

/// How many of `s` are above `x`.
pub open spec fn count_above(s: Seq<u64>, x: u64) -> nat
    decreases s.len(),
{
    if s.len() == 0 {
        0
    } else {
        count_above(s.drop_last(), x) + if s.last() > x {
            1nat
        } else {
            0
        }
    }
}

/// How many of `s` are `x` or above.
pub open spec fn count_from(s: Seq<u64>, x: u64) -> nat
    decreases s.len(),
{
    if s.len() == 0 {
        0
    } else {
        count_from(s.drop_last(), x) + if s.last() >= x {
            1nat
        } else {
            0
        }
    }
}

proof fn lemma_counts_go_by_content(s: Seq<u64>, x: u64)
    ensures
        count_above(s, x) == s.to_multiset().filter(|v: u64| v > x).len(),
        count_from(s, x) == s.to_multiset().filter(|v: u64| v >= x).len(),
    decreases s.len(),
{
    broadcast use vstd::seq_lib::group_to_multiset_ensures;
    broadcast use vstd::multiset::group_multiset_axioms;

    let above = |v: u64| v > x;
    let from = |v: u64| v >= x;
    if s.len() == 0 {
        assert(s.to_multiset() =~= vstd::multiset::Multiset::empty());
        assert(s.to_multiset().filter(above) =~= vstd::multiset::Multiset::empty());
        assert(s.to_multiset().filter(from) =~= vstd::multiset::Multiset::empty());
    } else {
        let rest = s.drop_last();
        let last = s.last();
        lemma_counts_go_by_content(rest, x);
        assert(rest.push(last) =~= s);
        let m = rest.to_multiset();
        assert(s.to_multiset() =~= m.insert(last));
        if last > x {
            assert(m.insert(last).filter(above) =~= m.filter(above).insert(last));
        } else {
            assert(m.insert(last).filter(above) =~= m.filter(above));
        }
        if last >= x {
            assert(m.insert(last).filter(from) =~= m.filter(from).insert(last));
        } else {
            assert(m.insert(last).filter(from) =~= m.filter(from));
        }
    }
}

proof fn lemma_counts_of_a_sorted_one(s: Seq<u64>, k: int, n: int)
    requires
        crate::sorting::ascending(s),
        0 <= k < s.len(),
        0 <= n <= s.len(),
    ensures
        count_above(s.take(n), s[k]) <= if n > k + 1 {
            n - k - 1
        } else {
            0
        },
        count_from(s.take(n), s[k]) >= if n > k {
            n - k
        } else {
            0
        },
    decreases n,
{
    if n > 0 {
        lemma_counts_of_a_sorted_one(s, k, n - 1);
        assert(s.take(n).drop_last() =~= s.take(n - 1));
        assert(s.take(n).last() == s[n - 1]);
    }
}

/// Fewer than one of `den` are above the value at the position, and one of `den` or more are not
/// below it.
proof fn lemma_share(sorted: Seq<u64>, all: Seq<u64>, num: int, den: int)
    requires
        sorted_from(sorted, all),
        all.len() > 0,
        0 < den,
        num == den - 1,
    ensures
        count_above(all, percentile(sorted, num, den)) * den < all.len(),
        count_from(all, percentile(sorted, num, den)) * den >= all.len(),
{
    sorting_keeps_elements(sorted, all, 0);
    let n = sorted.len() as int;
    let k = n * num / den;
    lemma_index_in_range(n, num, den);
    lemma_counts_of_a_sorted_one(sorted, k, n);
    assert(sorted.take(n) =~= sorted);
    let p = sorted[k];
    lemma_counts_go_by_content(sorted, p);
    lemma_counts_go_by_content(all, p);
    let above = count_above(all, p) as int;
    let from = count_from(all, p) as int;
    assert(k * den <= n * num < (k + 1) * den) by (nonlinear_arith)
        requires
            k == n * num / den,
            0 < den,
            0 <= n * num,
    ;
    assert(0 <= n * num) by (nonlinear_arith)
        requires
            0 <= n,
            0 <= num,
    ;
    assert((n - k - 1) * den < n && (n - k) * den >= n) by (nonlinear_arith)
        requires
            k * den <= n * num < (k + 1) * den,
            num == den - 1,
    ;
    assert(above * den <= (n - k - 1) * den) by (nonlinear_arith)
        requires
            above <= n - k - 1,
            0 < den,
    ;
    assert(from * den >= (n - k) * den) by (nonlinear_arith)
        requires
            from >= n - k,
            0 < den,
    ;
}

proof fn lemma_same_share(sorted: Seq<u64>, num: int, den: int, by: int)
    requires
        0 < den,
        0 < by,
        0 <= num < den,
    ensures
        percentile(sorted, num * by, den * by) == percentile(sorted, num, den),
{
    let n = sorted.len() as int;
    assert((n * (num * by)) / (den * by) == (n * num) / den) by {
        assert(n * (num * by) == by * (n * num)) by (nonlinear_arith);
        assert(den * by == by * den) by (nonlinear_arith);
        assert(0 <= n * num) by (nonlinear_arith)
            requires
                0 <= n,
                0 <= num,
        ;
        vstd::arithmetic::div_mod::lemma_div_denominator(by * (n * num), by, den);
        vstd::arithmetic::div_mod::lemma_div_by_multiple(n * num, by);
        assert((n * num) * by == by * (n * num)) by (nonlinear_arith);
    }
}

/// The percentiles are told by counting: of all latencies, fewer than one in a thousand are above
/// the last, one in a hundred above the third, one in twenty above the second and half above the
/// first; and as many or more are not below it.
pub proof fn percentiles_share_the_latencies(s: Summary, stats: Seq<TaskStats>)
    requires
        is_summary(s, stats),
        latencies_of(stats).len() > 0,
    ensures
        ({
            let all = latencies_of(stats);
            let n = all.len();
            &&& count_above(all, s.p999) * 1000 < n <= count_from(all, s.p999) * 1000
            &&& count_above(all, s.p99) * 100 < n <= count_from(all, s.p99) * 100
            &&& count_above(all, s.p95) * 20 < n <= count_from(all, s.p95) * 20
            &&& count_above(all, s.p50) * 2 < n <= count_from(all, s.p50) * 2
        }),
{
    let all = latencies_of(stats);
    let sorted = choose|sorted: Seq<u64>| summarises(s, stats, sorted);
    lemma_share(sorted, all, 999, 1000);
    lemma_share(sorted, all, 99, 100);
    lemma_share(sorted, all, 19, 20);
    lemma_share(sorted, all, 1, 2);
    lemma_same_share(sorted, 19, 20, 5);
    lemma_same_share(sorted, 1, 2, 50);
}

/// The smallest and the largest latency were measured, and all others lie between them; without
/// latencies everything about them is 0.
pub proof fn extremes_bound_the_latencies(s: Summary, stats: Seq<TaskStats>, x: u64)
    requires
        is_summary(s, stats),
    ensures
        latencies_of(stats).contains(x) ==> s.min <= x <= s.max,
        latencies_of(stats).len() > 0 ==> latencies_of(stats).contains(s.min)
            && latencies_of(stats).contains(s.max),
        latencies_of(stats).len() == 0 ==> s.min == 0 && s.max == 0 && s.p50 == 0 && s.p95 == 0
            && s.p99 == 0 && s.p999 == 0 && s.latency_sum == 0,
{
    let sorted = choose|sorted: Seq<u64>| summarises(s, stats, sorted);
    let all = latencies_of(stats);
    sorting_keeps_elements(sorted, all, x);
    sorting_keeps_elements(sorted, all, s.min);
    sorting_keeps_elements(sorted, all, s.max);
    if all.contains(x) {
        let i = choose|i: int| 0 <= i < sorted.len() && sorted[i] == x;
        assert(sorted[0] <= sorted[i] <= sorted[sorted.len() - 1]);
    }
    if all.len() > 0 {
        assert(sorted.contains(sorted[0]));
        assert(sorted.contains(sorted[sorted.len() - 1]));
    }
}

proof fn lemma_totals_add_up(a: Seq<TaskStats>, b: Seq<TaskStats>)
    ensures
        requests_of(a + b) == requests_of(a) + requests_of(b),
        errors_of(a + b) == errors_of(a) + errors_of(b),
        latencies_of(a + b) == latencies_of(a) + latencies_of(b),
    decreases b.len(),
{
    if b.len() == 0 {
        assert(a + b =~= a);
        assert(latencies_of(a) + latencies_of(b) =~= latencies_of(a));
    } else {
        lemma_totals_add_up(a, b.drop_last());
        assert((a + b).drop_last() =~= a + b.drop_last());
        assert(latencies_of(a + b) =~= latencies_of(a) + latencies_of(b));
    }
}

proof fn lemma_sums_add_up(a: Seq<u64>, b: Seq<u64>)
    ensures
        sum_of(a + b) == sum_of(a) + sum_of(b),
    decreases b.len(),
{
    if b.len() == 0 {
        assert(a + b =~= a);
    } else {
        lemma_sums_add_up(a, b.drop_last());
        assert((a + b).drop_last() =~= a + b.drop_last());
    }
}

/// What two groups of workers measured together is what each of them measured, added up: requests,
/// errors, samples and latencies; and every latency of either counts in the whole.
pub proof fn groups_add_up(
    a: Seq<TaskStats>,
    of_a: Summary,
    b: Seq<TaskStats>,
    of_b: Summary,
    of_both: Summary,
)
    requires
        is_summary(of_a, a),
        is_summary(of_b, b),
        is_summary(of_both, a + b),
    ensures
        of_both.total_requests == of_a.total_requests + of_b.total_requests,
        of_both.total_errors == of_a.total_errors + of_b.total_errors,
        of_both.samples == of_a.samples + of_b.samples,
        of_both.latency_sum == of_a.latency_sum + of_b.latency_sum,
        latencies_of(a + b) == latencies_of(a) + latencies_of(b),
{
    lemma_totals_add_up(a, b);
    lemma_sums_add_up(latencies_of(a), latencies_of(b));
}

/// One worker's summary is what it measured itself; with a latency more, that latency is added to
/// the sum and counted once, and nothing else is.
pub proof fn one_worker_is_summed_up(
    w: TaskStats,
    of_w: Summary,
    longer: TaskStats,
    of_longer: Summary,
    x: u64,
)
    requires
        is_summary(of_w, seq![w]),
        is_summary(of_longer, seq![longer]),
        longer.latencies@ == w.latencies@.push(x),
        longer.request_count == w.request_count,
        longer.error_count == w.error_count,
    ensures
        of_w.total_requests == w.request_count,
        of_w.total_errors == w.error_count,
        of_w.samples == w.latencies@.len(),
        latencies_of(seq![w]) == w.latencies@,
        of_longer.latency_sum == of_w.latency_sum + x,
        of_longer.samples == of_w.samples + 1,
        of_longer.total_requests == of_w.total_requests,
        of_longer.total_errors == of_w.total_errors,
{
    reveal_with_fuel(requests_of, 2);
    reveal_with_fuel(errors_of, 2);
    reveal_with_fuel(latencies_of, 2);
    assert(seq![w].drop_last() =~= Seq::empty());
    assert(seq![longer].drop_last() =~= Seq::empty());
    assert(latencies_of(seq![w]) =~= w.latencies@);
    assert(latencies_of(seq![longer]) =~= longer.latencies@);
    assert(longer.latencies@.drop_last() =~= w.latencies@);
}

} // verus!

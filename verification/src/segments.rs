//! The files of a shard: the segments of its log, the summaries beside them, and what a test may
//! conclude from their names and sizes.

use crate::sorting::{names_ascending, sort, sort_names, sorted_from, texts};
use crate::text::{
    a_number_is_read_back, a_spelled_number_is_parsed, a_text_holds_its_parts, all_digits, decimal,
    has_prefix, has_suffix, is_digit, not_after, padded, parse_u64, split, split_on, strip_prefix,
    strip_suffix, text_le, text_order_is_total, trim, trimmed, u64_value, views,
};
use vstd::prelude::*;

verus! {

/// A file or directory, as a listing shows it.
#[derive(Debug, PartialEq, Eq)]
pub struct FileEntry {
    pub name: String,
    pub size: u64,
    pub is_dir: bool,
}

/// The number in a name of the form `log_NUMBER` and `suffix`.
pub open spec fn log_id(name: Seq<char>, suffix: Seq<char>) -> Option<u64> {
    if has_prefix(name, "log_"@) && has_suffix(name.skip(4), suffix) {
        u64_value(name.skip(4).take(name.len() - 4 - suffix.len()))
    } else {
        None
    }
}

/// The number in a name of the form `log_NUMBER` and `suffix`.
pub fn parse_log_id(name: &str, suffix: &str) -> (r: Option<u64>)
    ensures
        r == log_id(name@, suffix@),
{
    proof {
        reveal_strlit("log_");
    }
    match strip_prefix(name, "log_") {
        Some(stem) => match strip_suffix(stem, suffix) {
            Some(id) => parse_u64(id),
            None => None,
        },
        None => None,
    }
}

/// The number of a segment of the log, by its name.
pub open spec fn wal_id(name: Seq<char>) -> Option<u64> {
    log_id(name, ".wal"@)
}

/// The numbers of the `names` that end in `suffix`, in the order of the names.
pub open spec fn ids(names: Seq<Seq<char>>, suffix: Seq<char>) -> Seq<u64>
    decreases names.len(),
{
    if names.len() == 0 {
        Seq::empty()
    } else {
        match log_id(names.last(), suffix) {
            Some(id) => ids(names.drop_last(), suffix).push(id),
            None => ids(names.drop_last(), suffix),
        }
    }
}

fn collect_ids(names: &Vec<String>, suffix: &str) -> (r: Vec<u64>)
    ensures
        r@ == ids(texts(names@), suffix@),
{
    let mut out: Vec<u64> = Vec::new();
    assert(texts(names@).take(0) =~= Seq::empty());
    for i in 0..names.len()
        invariant
            out@ == ids(texts(names@).take(i as int), suffix@),
    {
        assert(texts(names@).take(i + 1).drop_last() =~= texts(names@).take(i as int));
        match parse_log_id(names[i].as_str(), suffix) {
            Some(id) => {
                out.push(id);
            },
            None => {},
        }
    }
    assert(texts(names@).take(names@.len() as int) =~= texts(names@));
    out
}

/// The segments and the summaries among the names of a shard's files, each in ascending order.
pub fn scan_log_files(names: &Vec<String>) -> (r: (Vec<u64>, Vec<u64>))
    ensures
        sorted_from(r.0@, ids(texts(names@), ".wal"@)),
        sorted_from(r.1@, ids(texts(names@), ".summary"@)),
{
    let wal: Vec<u64> = collect_ids(names, ".wal");
    let summaries: Vec<u64> = collect_ids(names, ".summary");
    (sort(&wal), sort(&summaries))
}

/// Whether `id` is the highest of `wal`.
pub open spec fn is_active(wal: Seq<u64>, id: u64) -> bool {
    &&& wal.contains(id)
    &&& forall|i: int| 0 <= i < wal.len() ==> wal[i] <= id
}

/// The sealed segments, which are all but the highest, that have no summary.
pub open spec fn missing_summaries(wal: Seq<u64>, summaries: Seq<u64>) -> Seq<u64> {
    unsummarised(wal, wal, summaries)
}

/// Those of `part` that are sealed in `wal` and have no summary.
pub open spec fn unsummarised(part: Seq<u64>, wal: Seq<u64>, summaries: Seq<u64>) -> Seq<u64>
    decreases part.len(),
{
    if part.len() == 0 {
        Seq::empty()
    } else {
        let before = unsummarised(part.drop_last(), wal, summaries);
        if !is_active(wal, part.last()) && !summaries.contains(part.last()) {
            before.push(part.last())
        } else {
            before
        }
    }
}

/// What is wrong with the segments of a shard.
#[derive(Debug, PartialEq, Eq)]
pub enum SealedFault {
    /// There are fewer than two, so the log was never rotated.
    NoRotation,
    /// These are sealed and have no summary.
    Missing(Vec<u64>),
}

/// Whether `id` is among `v`.
pub fn has_id(v: &[u64], id: u64) -> (r: bool)
    ensures
        r == v@.contains(id),
{
    for i in 0..v.len()
        invariant
            forall|j: int| 0 <= j < i ==> v@[j] != id,
    {
        if v[i] == id {
            return true;
        }
    }
    false
}

fn highest(v: &[u64]) -> (r: u64)
    requires
        v@.len() > 0,
    ensures
        is_active(v@, r),
{
    let mut best: u64 = v[0];
    for i in 1..v.len()
        invariant
            v@.len() > 0,
            v@.contains(best),
            forall|j: int| 0 <= j < i ==> v@[j] <= best,
    {
        if v[i] > best {
            best = v[i];
        }
    }
    best
}

/// Checks that the log was rotated at least once, and that every sealed segment, which is every
/// one but that with the highest number, has a summary.
pub fn assert_sealed_summaries(wal_ids: &[u64], summary_ids: &[u64]) -> (r: Result<
    (),
    SealedFault,
>)
    ensures
        match r {
            Ok(()) => wal_ids@.len() >= 2 && missing_summaries(wal_ids@, summary_ids@).len() == 0,
            Err(SealedFault::NoRotation) => wal_ids@.len() < 2,
            Err(SealedFault::Missing(ids)) => wal_ids@.len() >= 2 && ids@ == missing_summaries(
                wal_ids@,
                summary_ids@,
            ) && ids@.len() > 0,
        },
{
    if wal_ids.len() < 2 {
        return Err(SealedFault::NoRotation);
    }
    let active: u64 = highest(wal_ids);
    let mut missing: Vec<u64> = Vec::new();
    assert(wal_ids@.take(0) =~= Seq::empty());
    for i in 0..wal_ids.len()
        invariant
            is_active(wal_ids@, active),
            missing@ == unsummarised(wal_ids@.take(i as int), wal_ids@, summary_ids@),
    {
        assert(wal_ids@.take(i + 1).drop_last() =~= wal_ids@.take(i as int));
        let id: u64 = wal_ids[i];
        proof {
            lemma_active_unique(wal_ids@, active, id);
        }
        if id != active && !has_id(summary_ids, id) {
            missing.push(id);
        }
    }
    assert(wal_ids@.take(wal_ids@.len() as int) =~= wal_ids@);
    if missing.len() == 0 {
        Ok(())
    } else {
        Err(SealedFault::Missing(missing))
    }
}

proof fn lemma_active_unique(wal: Seq<u64>, active: u64, id: u64)
    requires
        is_active(wal, active),
        wal.contains(id),
    ensures
        is_active(wal, id) == (id == active),
{
    if is_active(wal, id) {
        let i = choose|i: int| 0 <= i < wal.len() && wal[i] == active;
        let j = choose|j: int| 0 <= j < wal.len() && wal[j] == id;
        assert(wal[i] <= id && wal[j] <= active);
    }
}

/// With every summary in place, a sealed segment always has one; the segment that is written to
/// needs none.
pub proof fn sealed_segments_have_summaries(wal: Seq<u64>, summaries: Seq<u64>, i: int)
    requires
        missing_summaries(wal, summaries).len() == 0,
        0 <= i < wal.len(),
        !is_active(wal, wal[i]),
    ensures
        summaries.contains(wal[i]),
{
    lemma_unsummarised_covers(wal, wal, summaries, i);
}

proof fn lemma_unsummarised_covers(part: Seq<u64>, wal: Seq<u64>, summaries: Seq<u64>, i: int)
    requires
        0 <= i < part.len(),
        unsummarised(part, wal, summaries).len() == 0,
        !is_active(wal, part[i]),
    ensures
        summaries.contains(part[i]),
    decreases part.len(),
{
    if i < part.len() - 1 {
        lemma_unsummarised_covers(part.drop_last(), wal, summaries, i);
    }
}

/// Whether the files of a shard show a rotation, and a summary for every sealed segment.
pub open spec fn summarised(names: Seq<Seq<char>>) -> bool {
    &&& ids(names, ".wal"@).len() >= 2
    &&& forall|i: int|
        0 <= i < ids(names, ".wal"@).len() && !is_active(
            ids(names, ".wal"@),
            #[trigger] ids(names, ".wal"@)[i],
        ) ==> ids(names, ".summary"@).contains(ids(names, ".wal"@)[i])
}

proof fn lemma_covered_none_missing(part: Seq<u64>, wal: Seq<u64>, summaries: Seq<u64>)
    requires
        forall|i: int|
            0 <= i < part.len() && !is_active(wal, #[trigger] part[i]) ==> summaries.contains(part[i]),
    ensures
        unsummarised(part, wal, summaries).len() == 0,
    decreases part.len(),
{
    if part.len() > 0 {
        assert forall|i: int|
            0 <= i < part.drop_last().len() && !is_active(
                wal,
                #[trigger] part.drop_last()[i],
            ) implies summaries.contains(part.drop_last()[i]) by {
            assert(part.drop_last()[i] == part[i]);
        }
        lemma_covered_none_missing(part.drop_last(), wal, summaries);
        assert(part.last() == part[part.len() - 1]);
    }
}

/// Whether the files of a shard show a rotation, and a summary for every sealed segment.
pub fn check_summarised(names: &Vec<String>) -> (r: bool)
    ensures
        r == summarised(texts(names@)),
{
    let wal: Vec<u64> = collect_ids(names, ".wal");
    let summaries: Vec<u64> = collect_ids(names, ".summary");
    let ok: bool = match assert_sealed_summaries(wal.as_slice(), summaries.as_slice()) {
        Ok(()) => true,
        Err(_) => false,
    };
    proof {
        if ok {
            assert forall|i: int|
                0 <= i < wal@.len() && !is_active(wal@, #[trigger] wal@[i]) implies summaries@.contains(
                wal@[i],
            ) by {
                sealed_segments_have_summaries(wal@, summaries@, i);
            }
        } else if summarised(texts(names@)) {
            lemma_covered_none_missing(wal@, wal@, summaries@);
        }
    }
    ok
}

/// The number of segments among the names of a shard's files.
pub fn count_segments(names: &Vec<String>) -> (r: usize)
    ensures
        r == ids(texts(names@), ".wal"@).len(),
{
    let wal: Vec<u64> = collect_ids(names, ".wal");
    wal.len()
}

/// Whether a segment other than the highest of its shard is smaller than `preallocate`.
pub open spec fn shard_shrank(files: Seq<FileEntry>, preallocate: u64) -> bool {
    exists|i: int, j: int|
        0 <= i < files.len() && 0 <= j < files.len() && #[trigger] shrunk_below(
            files[i],
            files[j],
            preallocate,
        )
}

/// Whether `low` is a segment that comes before the segment `high` and is smaller than
/// `preallocate`.
pub open spec fn shrunk_below(low: FileEntry, high: FileEntry, preallocate: u64) -> bool {
    match (wal_id(low.name@), wal_id(high.name@)) {
        (Some(a), Some(b)) => a < b && low.size < preallocate,
        _ => false,
    }
}

/// Whether some shard has a sealed segment that is smaller than `preallocate`.
pub open spec fn some_shard_shrank(shards: Seq<Vec<FileEntry>>, preallocate: u64) -> bool {
    exists|k: int| 0 <= k < shards.len() && shard_shrank(#[trigger] shards[k]@, preallocate)
}

fn has_shrunk(files: &Vec<FileEntry>, preallocate: u64) -> (r: bool)
    ensures
        r == shard_shrank(files@, preallocate),
{
    let mut top: Option<u64> = None;
    let ghost mut top_at: int = 0;
    for i in 0..files.len()
        invariant
            match top {
                Some(t) => 0 <= top_at < i && wal_id(files@[top_at].name@) == Some(t),
                None => true,
            },
            forall|j: int|
                0 <= j < i ==> match wal_id((#[trigger] files@[j]).name@) {
                    Some(id) => top is Some && id <= top->0,
                    None => true,
                },
    {
        match parse_log_id(files[i].name.as_str(), ".wal") {
            Some(id) => {
                let higher: bool = match top {
                    Some(t) => id > t,
                    None => true,
                };
                if higher {
                    top = Some(id);
                    proof {
                        top_at = i as int;
                    }
                }
            },
            None => {},
        }
    }
    match top {
        None => {
            assert forall|i: int, j: int|
                0 <= i < files@.len() && 0 <= j < files@.len() implies !#[trigger] shrunk_below(
                files@[i],
                files@[j],
                preallocate,
            ) by {
                assert(wal_id(files@[i].name@) is None);
            }
            false
        },
        Some(active) => {
            for i in 0..files.len()
                invariant
                    0 <= top_at < files@.len(),
                    wal_id(files@[top_at].name@) == Some(active),
                    forall|j: int|
                        0 <= j < files@.len() ==> match wal_id((#[trigger] files@[j]).name@) {
                            Some(id) => id <= active,
                            None => true,
                        },
                    forall|j: int|
                        0 <= j < i ==> match wal_id((#[trigger] files@[j]).name@) {
                            Some(id) => id == active || files@[j].size >= preallocate,
                            None => true,
                        },
            {
                match parse_log_id(files[i].name.as_str(), ".wal") {
                    Some(id) => {
                        if id != active && files[i].size < preallocate {
                            assert(shrunk_below(files@[i as int], files@[top_at], preallocate));
                            return true;
                        }
                    },
                    None => {},
                }
            }
            assert forall|i: int, j: int|
                0 <= i < files@.len() && 0 <= j < files@.len() implies !#[trigger] shrunk_below(
                files@[i],
                files@[j],
                preallocate,
            ) by {
                assert(match wal_id(files@[i].name@) {
                    Some(id) => id == active || files@[i].size >= preallocate,
                    None => true,
                });
                assert(match wal_id(files@[j].name@) {
                    Some(id) => id <= active,
                    None => true,
                });
            }
            false
        },
    }
}

/// Whether some shard has a sealed segment that compaction made smaller than `preallocate`. The
/// segment with the highest number is the one that is written to and does not count.
pub fn any_sealed_shrank(shards: &Vec<Vec<FileEntry>>, preallocate: u64) -> (r: bool)
    ensures
        r == some_shard_shrank(shards@, preallocate),
{
    for k in 0..shards.len()
        invariant
            forall|m: int| 0 <= m < k ==> !shard_shrank(#[trigger] shards@[m]@, preallocate),
    {
        if has_shrunk(&shards[k], preallocate) {
            assert(shard_shrank(shards@[k as int]@, preallocate));
            return true;
        }
    }
    false
}

/// A shard with a single segment has none that is sealed.
pub proof fn a_lone_segment_never_shrank(file: FileEntry, preallocate: u64)
    ensures
        !shard_shrank(seq![file], preallocate),
{
}

/// Whether an entry is the directory of a shard.
pub open spec fn is_shard_dir(e: FileEntry) -> bool {
    e.is_dir && has_prefix(e.name@, "shard_"@)
}

/// Whether an entry is the directory of a shard.
pub fn check_shard_dir(e: &FileEntry) -> (r: bool)
    ensures
        r == is_shard_dir(*e),
{
    e.is_dir && strip_prefix(e.name.as_str(), "shard_").is_some()
}

/// The directory of the first shard by name.
pub fn shard_dir(entries: &Vec<FileEntry>) -> (r: Option<usize>)
    ensures
        match r {
            Some(k) => {
                &&& k < entries@.len()
                &&& is_shard_dir(entries@[k as int])
                &&& forall|i: int|
                    0 <= i < entries@.len() && is_shard_dir(#[trigger] entries@[i]) ==> text_le(
                        entries@[k as int].name@,
                        entries@[i].name@,
                    )
            },
            None => forall|i: int| 0 <= i < entries@.len() ==> !is_shard_dir(#[trigger] entries@[i]),
        },
{
    let mut best: Option<usize> = None;
    for i in 0..entries.len()
        invariant
            match best {
                Some(k) => {
                    &&& k < i
                    &&& is_shard_dir(entries@[k as int])
                    &&& forall|j: int|
                        0 <= j < i && is_shard_dir(#[trigger] entries@[j]) ==> text_le(
                            entries@[k as int].name@,
                            entries@[j].name@,
                        )
                },
                None => forall|j: int| 0 <= j < i ==> !is_shard_dir(#[trigger] entries@[j]),
            },
    {
        let e: &FileEntry = &entries[i];
        if check_shard_dir(e) {
            match best {
                Some(k) => {
                    let stays: bool = not_after(entries[k].name.as_str(), e.name.as_str());
                    proof {
                        text_order_is_total(entries@[k as int].name@, e.name@);
                        text_order_is_total(e.name@, e.name@);
                    }
                    if !stays {
                        proof {
                            assert forall|j: int|
                                0 <= j <= i && is_shard_dir(#[trigger] entries@[j]) implies text_le(
                                e.name@,
                                entries@[j].name@,
                            ) by {
                                if j < i {
                                    crate::sorting::text_le_transitive(
                                        e.name@,
                                        entries@[k as int].name@,
                                        entries@[j].name@,
                                    );
                                }
                            }
                        }
                        best = Some(i);
                    }
                },
                None => {
                    proof {
                        text_order_is_total(e.name@, e.name@);
                    }
                    best = Some(i);
                },
            }
        }
    }
    best
}

/// Whether a name has the extension of a segment: something, a dot, and `wal`.
pub open spec fn is_wal_file(name: Seq<char>) -> bool {
    has_suffix(name, ".wal"@) && name.len() > 4
}

/// Those of `names` that have the extension of a segment.
pub open spec fn wal_names(names: Seq<Seq<char>>) -> Seq<Seq<char>>
    decreases names.len(),
{
    if names.len() == 0 {
        Seq::empty()
    } else if is_wal_file(names.last()) {
        wal_names(names.drop_last()).push(names.last())
    } else {
        wal_names(names.drop_last())
    }
}

/// The names that have the extension of a segment, in order.
pub fn wal_files(names: &Vec<String>) -> (r: Vec<String>)
    ensures
        names_ascending(texts(r@)),
        texts(r@).to_multiset() =~= wal_names(texts(names@)).to_multiset(),
        r@.len() == wal_names(texts(names@)).len(),
{
    let mut out: Vec<String> = Vec::new();
    proof {
        reveal_strlit(".wal");
    }
    assert(texts(names@).take(0) =~= Seq::empty());
    assert(texts(out@) =~= Seq::empty());
    for i in 0..names.len()
        invariant
            ".wal"@.len() == 4,
            texts(out@) == wal_names(texts(names@).take(i as int)),
    {
        assert(texts(names@).take(i + 1).drop_last() =~= texts(names@).take(i as int));
        match strip_suffix(names[i].as_str(), ".wal") {
            Some(stem) => {
                if stem.unicode_len() > 0 {
                    let ghost before = texts(out@);
                    out.push(names[i].clone());
                    assert(texts(out@) =~= before.push(names@[i as int]@));
                }
            },
            None => {},
        }
    }
    assert(texts(names@).take(names@.len() as int) =~= texts(names@));
    sort_names(out)
}

/// The numbers of the sealed segments of a shard with `files` segments, which are numbered from 1
/// without a gap.
pub fn sealed_ids(files: u64) -> (r: Vec<u64>)
    ensures
        r@ == Seq::new(if files > 1 { (files - 1) as nat } else { 0 }, |i: int| (i + 1) as u64),
{
    let mut out: Vec<u64> = Vec::new();
    let mut id: u64 = 1;
    while id < files
        invariant
            1 <= id,
            files > 1 ==> id <= files,
            files <= 1 ==> id == 1,
            out@ == Seq::new((id - 1) as nat, |i: int| (i + 1) as u64),
        decreases files - id,
    {
        out.push(id);
        id = id + 1;
        assert(out@ =~= Seq::new((id - 1) as nat, |i: int| (i + 1) as u64));
    }
    out
}

/// The first of `lines` that begins with `prefix`, without it.
pub open spec fn first_with_prefix(lines: Seq<Seq<char>>, prefix: Seq<char>) -> Option<Seq<char>>
    decreases lines.len(),
{
    if lines.len() == 0 {
        None
    } else if has_prefix(lines[0], prefix) {
        Some(lines[0].skip(prefix.len() as int))
    } else {
        first_with_prefix(lines.skip(1), prefix)
    }
}

/// The bytes that a process has read from storage, as its `io` file tells them.
pub open spec fn read_bytes_in(io: Seq<char>) -> Option<u64> {
    match first_with_prefix(split_on(io, '\n'), "read_bytes: "@) {
        Some(v) => u64_value(trimmed(v)),
        None => None,
    }
}

/// The bytes that a process has read from storage, as its `io` file tells them.
pub fn proc_read_bytes(io: &str) -> (r: Option<u64>)
    ensures
        r == read_bytes_in(io@),
{
    let lines: Vec<&str> = split(io, '\n');
    let ghost all = split_on(io@, '\n');
    assert(all.skip(0) =~= all);
    for i in 0..lines.len()
        invariant
            all == split_on(io@, '\n'),
            views(lines@) == all,
            first_with_prefix(all, "read_bytes: "@) == first_with_prefix(
                all.skip(i as int),
                "read_bytes: "@,
            ),
    {
        assert(all[i as int] == lines@[i as int]@);
        assert(all.skip(i as int).skip(1) =~= all.skip(i + 1));
        match strip_prefix(lines[i], "read_bytes: ") {
            Some(v) => {
                return parse_u64(trim(v));
            },
            None => {},
        }
    }
    None
}

/// A name that is made of a number tells that number, whatever it ends in, and a name with another
/// ending or another beginning tells none.
pub proof fn a_name_tells_its_number(n: u64, suffix: Seq<char>, other: Seq<char>, width: nat)
    ensures
        log_id("log_"@ + decimal(n as nat) + suffix, suffix) == Some(n),
        log_id("log_"@ + padded(n as nat, width) + suffix, suffix) == Some(n),
        !has_suffix(other, suffix) ==> log_id("log_"@ + other, suffix) is None,
        !has_prefix(other, "log_"@) ==> log_id(other, suffix) is None,
{
    reveal_strlit("log_");
    lemma_stem(decimal(n as nat), suffix);
    lemma_stem(padded(n as nat, width), suffix);
    a_spelled_number_is_parsed(n as nat);
    a_number_is_read_back(n as nat, width);
    let filled = padded(n as nat, width);
    assert(all_digits(filled)) by {
        assert forall|i: int| 0 <= i < filled.len() implies is_digit(#[trigger] filled[i]) by {
            let zeros = filled.len() - decimal(n as nat).len();
            if i >= zeros {
                assert(filled[i] == decimal(n as nat)[i - zeros]);
            }
        }
    }
    assert(is_digit(filled[0]));
    assert(("log_"@ + other).skip(4) =~= other);
}

proof fn lemma_stem(stem: Seq<char>, suffix: Seq<char>)
    ensures
        log_id("log_"@ + stem + suffix, suffix) == u64_value(stem),
{
    reveal_strlit("log_");
    let name = "log_"@ + stem + suffix;
    a_text_holds_its_parts("log_"@, stem + suffix, Seq::empty());
    a_text_holds_its_parts(stem, suffix, Seq::empty());
    assert(name =~= "log_"@ + (stem + suffix));
    assert(name.skip(4) =~= stem + suffix);
    assert(name.skip(4).take(name.len() - 4 - suffix.len()) =~= stem);
}

} // verus!

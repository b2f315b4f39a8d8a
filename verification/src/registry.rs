//! The categories that tests are filed under, and the filter that picks the tests of a run.

use crate::text::{
    join, joined, lemma_split_joined, lemma_trim_takes_pad, split, split_on, str_eq, trim, trimmed,
    views, white_space,
};
pub use crate::catalog::all_tests;
use vstd::prelude::*;

verus! {

#[derive(Debug, Clone, Copy, PartialEq, Eq, Structural, Hash)]
pub enum Category {
    Core,
    Replication,
    Election,
    Fencing,
    Invariant,
    Metamorphic,
    Edge,
    Correctness,
    Durability,
    Performance,
    Operations,
    Security,
    Schema,
    Compaction,
    Debug,
    /// Requires kernel TLS (CONFIG_TLS). Excluded on Docker Desktop /
    /// LinuxKit kernels where kTLS isn't compiled in.
    RequiresKtls,
    /// Requires a remote RPi hardware cluster + provisioned PKI on disk.
    /// Opt-in only via `--include-or rpi`: see [`TestFilter::selects`].
    Rpi,
}

impl Category {
    /// The name that the command line and the reports use.
    pub open spec fn name(self) -> Seq<char> {
        match self {
            Category::Core => "core"@,
            Category::Replication => "replication"@,
            Category::Election => "election"@,
            Category::Fencing => "fencing"@,
            Category::Invariant => "invariant"@,
            Category::Metamorphic => "metamorphic"@,
            Category::Edge => "edge"@,
            Category::Correctness => "correctness"@,
            Category::Durability => "durability"@,
            Category::Performance => "performance"@,
            Category::Operations => "operations"@,
            Category::Security => "security"@,
            Category::Schema => "schema"@,
            Category::Compaction => "compaction"@,
            Category::Debug => "debug"@,
            Category::RequiresKtls => "requires_ktls"@,
            Category::Rpi => "rpi"@,
        }
    }

    /// Every category, in the order in which they are listed.
    pub open spec fn every() -> Seq<Category> {
        seq![
            Category::Core,
            Category::Replication,
            Category::Election,
            Category::Fencing,
            Category::Invariant,
            Category::Metamorphic,
            Category::Edge,
            Category::Correctness,
            Category::Durability,
            Category::Performance,
            Category::Operations,
            Category::Security,
            Category::Schema,
            Category::Compaction,
            Category::Debug,
            Category::RequiresKtls,
            Category::Rpi,
        ]
    }

    /// Every category, in the order in which they are listed.
    pub fn all() -> (r: &'static [Category])
        ensures
            r@ == Category::every(),
    {
        let all: &'static [Category] = &[
            Category::Core,
            Category::Replication,
            Category::Election,
            Category::Fencing,
            Category::Invariant,
            Category::Metamorphic,
            Category::Edge,
            Category::Correctness,
            Category::Durability,
            Category::Performance,
            Category::Operations,
            Category::Security,
            Category::Schema,
            Category::Compaction,
            Category::Debug,
            Category::RequiresKtls,
            Category::Rpi,
        ];
        assert(all@ =~= Category::every());
        all
    }

    /// The name that the command line and the reports use.
    pub fn as_str(&self) -> (r: &'static str)
        ensures
            r@ == self.name(),
    {
        match self {
            Category::Core => "core",
            Category::Replication => "replication",
            Category::Election => "election",
            Category::Fencing => "fencing",
            Category::Invariant => "invariant",
            Category::Metamorphic => "metamorphic",
            Category::Edge => "edge",
            Category::Correctness => "correctness",
            Category::Durability => "durability",
            Category::Performance => "performance",
            Category::Operations => "operations",
            Category::Security => "security",
            Category::Schema => "schema",
            Category::Compaction => "compaction",
            Category::Debug => "debug",
            Category::RequiresKtls => "requires_ktls",
            Category::Rpi => "rpi",
        }
    }

    /// The category whose name is `s`.
    pub fn from_str(s: &str) -> (r: Option<Category>)
        ensures
            match r {
                Some(c) => c.name() == s@,
                None => forall|c: Category| #[trigger] c.name() != s@,
            },
    {
        let all: &'static [Category] = Category::all();
        for i in 0..all.len()
            invariant
                all@ == Category::every(),
                forall|j: int| 0 <= j < i ==> (#[trigger] all@[j]).name() != s@,
        {
            if str_eq(s, all[i].as_str()) {
                return Some(all[i]);
            }
        }
        proof {
            assert forall|c: Category| #[trigger] c.name() != s@ by {
                every_category_is_listed(c);
            }
        }
        None
    }
}

/// Every category is in the list of all of them.
pub proof fn every_category_is_listed(c: Category)
    ensures
        Category::every().contains(c),
{
    let every = Category::every();
    match c {
        Category::Core => assert(every[0] == c),
        Category::Replication => assert(every[1] == c),
        Category::Election => assert(every[2] == c),
        Category::Fencing => assert(every[3] == c),
        Category::Invariant => assert(every[4] == c),
        Category::Metamorphic => assert(every[5] == c),
        Category::Edge => assert(every[6] == c),
        Category::Correctness => assert(every[7] == c),
        Category::Durability => assert(every[8] == c),
        Category::Performance => assert(every[9] == c),
        Category::Operations => assert(every[10] == c),
        Category::Security => assert(every[11] == c),
        Category::Schema => assert(every[12] == c),
        Category::Compaction => assert(every[13] == c),
        Category::Debug => assert(every[14] == c),
        Category::RequiresKtls => assert(every[15] == c),
        Category::Rpi => assert(every[16] == c),
    }
}

/// No two categories share a name, so a name read back gives the category it came from.
pub proof fn category_names_differ(a: Category, b: Category)
    requires
        a.name() == b.name(),
    ensures
        a == b,
{
    reveal_strlit("core");
    reveal_strlit("replication");
    reveal_strlit("election");
    reveal_strlit("fencing");
    reveal_strlit("invariant");
    reveal_strlit("metamorphic");
    reveal_strlit("edge");
    reveal_strlit("correctness");
    reveal_strlit("durability");
    reveal_strlit("performance");
    reveal_strlit("operations");
    reveal_strlit("security");
    reveal_strlit("schema");
    reveal_strlit("compaction");
    reveal_strlit("debug");
    reveal_strlit("requires_ktls");
    reveal_strlit("rpi");
    // A name's length and first three letters tell it from the others.
    assert("core"@.len() == 4 && "core"@[0] == 'c' && "core"@[1] == 'o' && "core"@[2] == 'r');
    assert("replication"@.len() == 11 && "replication"@[0] == 'r' && "replication"@[1] == 'e' && "replication"@[2] == 'p');
    assert("election"@.len() == 8 && "election"@[0] == 'e' && "election"@[1] == 'l' && "election"@[2] == 'e');
    assert("fencing"@.len() == 7 && "fencing"@[0] == 'f' && "fencing"@[1] == 'e' && "fencing"@[2] == 'n');
    assert("invariant"@.len() == 9 && "invariant"@[0] == 'i' && "invariant"@[1] == 'n' && "invariant"@[2] == 'v');
    assert("metamorphic"@.len() == 11 && "metamorphic"@[0] == 'm' && "metamorphic"@[1] == 'e' && "metamorphic"@[2] == 't');
    assert("edge"@.len() == 4 && "edge"@[0] == 'e' && "edge"@[1] == 'd' && "edge"@[2] == 'g');
    assert("correctness"@.len() == 11 && "correctness"@[0] == 'c' && "correctness"@[1] == 'o' && "correctness"@[2] == 'r');
    assert("durability"@.len() == 10 && "durability"@[0] == 'd' && "durability"@[1] == 'u' && "durability"@[2] == 'r');
    assert("performance"@.len() == 11 && "performance"@[0] == 'p' && "performance"@[1] == 'e' && "performance"@[2] == 'r');
    assert("operations"@.len() == 10 && "operations"@[0] == 'o' && "operations"@[1] == 'p' && "operations"@[2] == 'e');
    assert("security"@.len() == 8 && "security"@[0] == 's' && "security"@[1] == 'e' && "security"@[2] == 'c');
    assert("schema"@.len() == 6 && "schema"@[0] == 's' && "schema"@[1] == 'c' && "schema"@[2] == 'h');
    assert("compaction"@.len() == 10 && "compaction"@[0] == 'c' && "compaction"@[1] == 'o' && "compaction"@[2] == 'm');
    assert("debug"@.len() == 5 && "debug"@[0] == 'd' && "debug"@[1] == 'e' && "debug"@[2] == 'b');
    assert("requires_ktls"@.len() == 13 && "requires_ktls"@[0] == 'r' && "requires_ktls"@[1] == 'e' && "requires_ktls"@[2] == 'q');
    assert("rpi"@.len() == 3 && "rpi"@[0] == 'r' && "rpi"@[1] == 'p' && "rpi"@[2] == 'i');
}

/// One test of the suite, as the registry knows it.
pub struct TestEntry {
    pub name: &'static str,
    pub description: &'static str,
    pub estimated_secs: u32,
    pub categories: &'static [Category],
    pub distributed: bool,
}

/// What a [`TestEntry`] says, as plain sequences.
#[verifier::ext_equal]
pub struct Entry {
    pub name: Seq<char>,
    pub description: Seq<char>,
    pub estimated_secs: u32,
    pub categories: Seq<Category>,
    pub distributed: bool,
}

impl View for TestEntry {
    type V = Entry;

    open spec fn view(&self) -> Entry {
        Entry {
            name: self.name@,
            description: self.description@,
            estimated_secs: self.estimated_secs,
            categories: self.categories@,
            distributed: self.distributed,
        }
    }
}

impl Entry {
    /// Whether the test is filed under every category of `cats`.
    pub open spec fn has_all(self, cats: Seq<Category>) -> bool {
        forall|i: int| 0 <= i < cats.len() ==> self.categories.contains(#[trigger] cats[i])
    }

    /// Whether the test is filed under some category of `cats`.
    pub open spec fn has_any(self, cats: Seq<Category>) -> bool {
        exists|i: int| 0 <= i < cats.len() && self.categories.contains(#[trigger] cats[i])
    }

    /// Seconds after which a run of the test is given up: twice the estimate, a minute at least.
    pub open spec fn timeout(self) -> int {
        if self.estimated_secs * 2 < 60 {
            60
        } else {
            self.estimated_secs * 2
        }
    }
}

impl TestEntry {
    /// Seconds after which a run of the test is given up: twice the estimate, a minute at least.
    pub fn timeout_secs(&self) -> (r: u32)
        requires
            self.estimated_secs * 2 <= u32::MAX,
        ensures
            r == self@.timeout(),
    {
        let doubled: u32 = self.estimated_secs * 2;
        if doubled < 60 {
            60
        } else {
            doubled
        }
    }

    /// Whether the test is filed under `cat`.
    pub fn has_category(&self, cat: Category) -> (r: bool)
        ensures
            r == self@.categories.contains(cat),
    {
        let categories: &'static [Category] = self.categories;
        for i in 0..categories.len()
            invariant
                categories@ == self@.categories,
                forall|j: int| 0 <= j < i ==> categories@[j] != cat,
        {
            if categories[i] == cat {
                return true;
            }
        }
        false
    }

    /// Whether the test is filed under every category of `cats`.
    pub fn has_all_categories(&self, cats: &[Category]) -> (r: bool)
        ensures
            r == self@.has_all(cats@),
    {
        for i in 0..cats.len()
            invariant
                forall|j: int| 0 <= j < i ==> self@.categories.contains(#[trigger] cats@[j]),
        {
            if !self.has_category(cats[i]) {
                assert(!self@.categories.contains(cats@[i as int]));
                return false;
            }
        }
        true
    }

    /// Whether the test is filed under some category of `cats`.
    pub fn has_any_category(&self, cats: &[Category]) -> (r: bool)
        ensures
            r == self@.has_any(cats@),
    {
        for i in 0..cats.len()
            invariant
                forall|j: int| 0 <= j < i ==> !self@.categories.contains(#[trigger] cats@[j]),
        {
            if self.has_category(cats[i]) {
                assert(self@.categories.contains(cats@[i as int]));
                return true;
            }
        }
        false
    }
}

/// Which tests to run.
pub struct TestFilter {
    /// Test must have ALL of these categories (AND)
    pub include_all: Vec<Category>,
    /// Test must have at least ONE of these categories (OR)
    pub include_or: Vec<Category>,
    /// Exclude tests that have ALL of these categories (AND)
    pub exclude: Vec<Category>,
    /// Exclude tests that have at least ONE of these categories (OR)
    pub exclude_or: Vec<Category>,
    /// Only distributed tests
    pub distributed: bool,
    /// Only standalone tests
    pub standalone: bool,
    /// Run a specific test by name
    pub test: Option<String>,
}

impl TestFilter {
    /// Whether the filter picks a test. A name decides alone; without one every condition must
    /// hold, and an empty list of categories is no condition. A test of [`Category::Rpi`] needs
    /// hardware that a run does not have by itself, so it also has to be asked for in
    /// `include_or`.
    pub open spec fn selects(&self, t: Entry) -> bool {
        match self.test {
            Some(name) => t.name == name@,
            None => {
                &&& self.include_all@.len() > 0 ==> t.has_all(self.include_all@)
                &&& self.include_or@.len() > 0 ==> t.has_any(self.include_or@)
                &&& self.exclude@.len() > 0 ==> !t.has_all(self.exclude@)
                &&& self.exclude_or@.len() > 0 ==> !t.has_any(self.exclude_or@)
                &&& self.distributed ==> t.distributed
                &&& self.standalone ==> !t.distributed
                &&& t.categories.contains(Category::Rpi) ==> self.include_or@.contains(
                    Category::Rpi,
                )
            },
        }
    }

    /// [`TestFilter::selects`] as a predicate.
    pub open spec fn picks(&self) -> spec_fn(Entry) -> bool {
        |t: Entry| self.selects(t)
    }

    /// The tests of `tests` that the filter picks, in their order.
    pub open spec fn picked(&self, tests: Seq<Entry>) -> Seq<Entry> {
        tests.filter(self.picks())
    }

    /// Whether the filter picks `t`.
    pub fn matches(&self, t: &TestEntry) -> (r: bool)
        ensures
            r == self.selects(t@),
    {
        if let Some(name) = &self.test {
            return str_eq(t.name, name.as_str());
        }
        if self.include_all.len() > 0 && !t.has_all_categories(self.include_all.as_slice()) {
            return false;
        }
        if self.include_or.len() > 0 && !t.has_any_category(self.include_or.as_slice()) {
            return false;
        }
        if self.exclude.len() > 0 && t.has_all_categories(self.exclude.as_slice()) {
            return false;
        }
        if self.exclude_or.len() > 0 && t.has_any_category(self.exclude_or.as_slice()) {
            return false;
        }
        if self.distributed && !t.distributed {
            return false;
        }
        if self.standalone && t.distributed {
            return false;
        }
        !t.has_category(Category::Rpi) || self.asks_for_hardware()
    }

    /// Whether `include_or` names [`Category::Rpi`].
    pub fn asks_for_hardware(&self) -> (r: bool)
        ensures
            r == self.include_or@.contains(Category::Rpi),
    {
        for i in 0..self.include_or.len()
            invariant
                forall|j: int| 0 <= j < i ==> self.include_or@[j] != Category::Rpi,
        {
            if self.include_or[i] == Category::Rpi {
                return true;
            }
        }
        false
    }

    /// The tests that the filter picks, in the order in which `tests` has them.
    pub fn apply<'a>(&self, tests: &'a [TestEntry]) -> (r: Vec<&'a TestEntry>)
        ensures
            entries(r@) == self.picked(catalogued(tests@)),
    {
        let mut out: Vec<&'a TestEntry> = Vec::new();
        let ghost all = catalogued(tests@);
        proof {
            reveal(Seq::filter);
        }
        assert(all.take(0) =~= Seq::empty());
        assert(entries(out@) =~= Seq::empty());
        for i in 0..tests.len()
            invariant
                all == catalogued(tests@),
                entries(out@) == self.picked(all.take(i as int)),
        {
            assert(all.take(i + 1).drop_last() =~= all.take(i as int));
            let ghost before = entries(out@);
            assert(all.take(i + 1).last() == tests@[i as int]@);
            proof {
                lemma_picked_step(self, all.take(i + 1));
            }
            if self.matches(&tests[i]) {
                out.push(&tests[i]);
                assert(entries(out@) =~= before.push(all[i as int]));
            }
        }
        assert(all.take(all.len() as int) =~= all);
        out
    }
}

proof fn lemma_picked_step(filter: &TestFilter, tests: Seq<Entry>)
    requires
        tests.len() > 0,
    ensures
        filter.picked(tests) == if filter.selects(tests.last()) {
            filter.picked(tests.drop_last()).push(tests.last())
        } else {
            filter.picked(tests.drop_last())
        },
{
    reveal(Seq::filter);
}

/// What the entries of a table say.
pub open spec fn catalogued(tests: Seq<TestEntry>) -> Seq<Entry> {
    Seq::new(tests.len(), |i: int| tests[i]@)
}

/// What the entries behind a vector of references say.
pub open spec fn entries(v: Seq<&TestEntry>) -> Seq<Entry> {
    Seq::new(v.len(), |i: int| v[i]@)
}

impl Default for TestFilter {
    /// The filter that picks every test that needs no hardware of its own.
    fn default() -> (r: TestFilter)
        ensures
            r.include_all@.len() == 0,
            r.include_or@.len() == 0,
            r.exclude@.len() == 0,
            r.exclude_or@.len() == 0,
            !r.distributed,
            !r.standalone,
            r.test is None,
    {
        TestFilter {
            include_all: Vec::new(),
            include_or: Vec::new(),
            exclude: Vec::new(),
            exclude_or: Vec::new(),
            distributed: false,
            standalone: false,
            test: None,
        }
    }
}

/// The names of `cats`.
pub open spec fn names(cats: Seq<Category>) -> Seq<Seq<char>> {
    cats.map_values(|c: Category| c.name())
}

/// The names of all categories, as a message lists them.
pub open spec fn listed() -> Seq<char> {
    joined(names(Category::every()), ", "@)
}

/// The names of all categories, with a comma between neighbours.
pub fn category_list() -> (r: String)
    ensures
        r@ == listed(),
{
    let all: &'static [Category] = Category::all();
    let mut out: Vec<&str> = Vec::new();
    for i in 0..all.len()
        invariant
            all@ == Category::every(),
            views(out@) == names(all@).take(i as int),
    {
        let ghost before = views(out@);
        out.push(all[i].as_str());
        assert(views(out@) =~= before.push(all@[i as int].name()));
        assert(names(all@).take(i + 1) =~= names(all@).take(i as int).push(all@[i as int].name()));
    }
    assert(names(all@).take(all@.len() as int) =~= names(all@));
    join(&out, ", ")
}

/// The pieces of a comma-separated list, each without the white space around it.
pub open spec fn pieces(s: Seq<char>) -> Seq<Seq<char>> {
    split_on(s, ',').map_values(|p: Seq<char>| trimmed(p))
}

/// Whether some category has the name `s`.
pub open spec fn is_category(s: Seq<char>) -> bool {
    exists|c: Category| #[trigger] c.name() == s
}

/// What is said of a piece that names no category.
pub open spec fn unknown_category(piece: Seq<char>) -> Seq<char> {
    "unknown category '"@ + piece + "'. valid: "@ + listed()
}

/// The position of the first piece that names no category.
pub open spec fn first_unknown(parts: Seq<Seq<char>>, at: int) -> bool {
    &&& 0 <= at < parts.len()
    &&& !is_category(parts[at])
    &&& forall|j: int| 0 <= j < at ==> is_category(#[trigger] parts[j])
}

/// Reads a comma-separated list of category names; a piece that names no category is an error,
/// and the first such piece is the one that the message shows.
pub fn parse_categories(s: &str) -> (r: Result<Vec<Category>, String>)
    ensures
        match r {
            Ok(cats) => names(cats@) == pieces(s@),
            Err(message) => exists|at: int| #[trigger]
                first_unknown(pieces(s@), at) && message@ == unknown_category(pieces(s@)[at]),
        },
{
    let parts: Vec<&str> = split(s, ',');
    let mut out: Vec<Category> = Vec::new();
    for i in 0..parts.len()
        invariant
            views(parts@) == split_on(s@, ','),
            names(out@) == pieces(s@).take(i as int),
            forall|j: int| 0 <= j < i ==> is_category(#[trigger] pieces(s@)[j]),
    {
        let piece: &str = trim(parts[i]);
        assert(split_on(s@, ',')[i as int] == parts@[i as int]@);
        assert(piece@ == pieces(s@)[i as int]);
        match Category::from_str(piece) {
            Some(c) => {
                let ghost before = names(out@);
                out.push(c);
                assert(names(out@) =~= before.push(c.name()));
                assert(pieces(s@).take(i + 1) =~= pieces(s@).take(i as int).push(piece@));
                assert(is_category(piece@));
            },
            None => {
                let mut message: String = "unknown category '".to_owned();
                message.append(piece);
                message.append("'. valid: ");
                let valid: String = category_list();
                message.append(valid.as_str());
                assert(first_unknown(pieces(s@), i as int));
                return Err(message);
            },
        }
    }
    assert(pieces(s@).take(pieces(s@).len() as int) =~= pieces(s@));
    Ok(out)
}

/// Filtering twice is filtering once: everything a filter picked, it picks again.
pub proof fn apply_is_idempotent(filter: TestFilter, tests: Seq<Entry>)
    ensures
        filter.picked(filter.picked(tests)) == filter.picked(tests),
    decreases tests.len(),
{
    reveal(Seq::filter);
    if tests.len() > 0 {
        apply_is_idempotent(filter, tests.drop_last());
        lemma_picked_step(&filter, tests);
        let once = filter.picked(tests.drop_last());
        if filter.selects(tests.last()) {
            assert(once.push(tests.last()).drop_last() =~= once);
            lemma_picked_step(&filter, once.push(tests.last()));
        }
    }
}

/// Whether a test runs without the remote hardware.
pub open spec fn runs_anywhere() -> spec_fn(Entry) -> bool {
    |t: Entry| !t.categories.contains(Category::Rpi)
}

/// Whether a test needs the remote hardware.
pub open spec fn needs_hardware() -> spec_fn(Entry) -> bool {
    |t: Entry| t.categories.contains(Category::Rpi)
}

/// The default filter picks every test that runs without the remote hardware, and no other.
pub proof fn default_filter_leaves_hardware_out(filter: TestFilter, tests: Seq<Entry>)
    requires
        filter.include_all@.len() == 0,
        filter.include_or@.len() == 0,
        filter.exclude@.len() == 0,
        filter.exclude_or@.len() == 0,
        !filter.distributed,
        !filter.standalone,
        filter.test is None,
    ensures
        filter.picked(tests) == tests.filter(runs_anywhere()),
    decreases tests.len(),
{
    reveal(Seq::filter);
    if tests.len() > 0 {
        default_filter_leaves_hardware_out(filter, tests.drop_last());
        lemma_picked_step(&filter, tests);
    }
}

/// A filter that asks for the remote hardware and for nothing else picks every test that needs it,
/// and no other.
pub proof fn hardware_can_be_asked_for(filter: TestFilter, tests: Seq<Entry>)
    requires
        filter.include_all@.len() == 0,
        filter.include_or@ == seq![Category::Rpi],
        filter.exclude@.len() == 0,
        filter.exclude_or@.len() == 0,
        !filter.distributed,
        !filter.standalone,
        filter.test is None,
    ensures
        filter.picked(tests) == tests.filter(needs_hardware()),
    decreases tests.len(),
{
    reveal(Seq::filter);
    if tests.len() > 0 {
        hardware_can_be_asked_for(filter, tests.drop_last());
        lemma_picked_step(&filter, tests);
        assert(filter.include_or@[0] == Category::Rpi);
    }
}

/// No test is both distributed and standalone, so asking for both picks nothing.
pub proof fn distributed_and_standalone_exclude(filter: TestFilter, t: Entry)
    requires
        filter.test is None,
        filter.distributed,
        filter.standalone,
    ensures
        !filter.selects(t),
{
}

/// Adding a category to the excluded ones, or to those a test must all have, only ever takes
/// tests away.
pub proof fn more_conditions_pick_fewer(narrow: TestFilter, wide: TestFilter, cat: Category, t: Entry)
    requires
        narrow.test is None && wide.test is None,
        narrow.include_all@ == wide.include_all@.push(cat) && narrow.exclude_or@ == wide.exclude_or@
            || narrow.include_all@ == wide.include_all@ && narrow.exclude_or@
            == wide.exclude_or@.push(cat),
        narrow.include_or@ == wide.include_or@,
        narrow.exclude@ == wide.exclude@,
        narrow.distributed == wide.distributed,
        narrow.standalone == wide.standalone,
        narrow.selects(t),
    ensures
        wide.selects(t),
{
    assert forall|i: int| 0 <= i < wide.include_all@.len() implies t.categories.contains(
        #[trigger] wide.include_all@[i],
    ) by {
        assert(narrow.include_all@[i] == wide.include_all@[i]);
    }
    if wide.exclude_or@.len() > 0 && t.has_any(wide.exclude_or@) {
        let i = choose|i: int|
            0 <= i < wide.exclude_or@.len() && t.categories.contains(#[trigger] wide.exclude_or@[i]);
        assert(narrow.exclude_or@[i] == wide.exclude_or@[i]);
    }
}

/// A test that needs the remote hardware is picked only where `include_or` asks for its
/// category, or by its own name.
pub proof fn hardware_tests_are_opt_in(filter: TestFilter, t: Entry)
    requires
        t.categories.contains(Category::Rpi),
        filter.selects(t),
    ensures
        filter.include_or@.contains(Category::Rpi) || (filter.test matches Some(name) && t.name
            == name@),
{
}

/// Whether two filters without a name differ at most in `exclude`.
pub open spec fn same_but_exclude(a: TestFilter, b: TestFilter) -> bool {
    &&& a.test is None && b.test is None
    &&& a.include_all@ == b.include_all@
    &&& a.include_or@ == b.include_or@
    &&& a.exclude_or@ == b.exclude_or@
    &&& a.distributed == b.distributed
    &&& a.standalone == b.standalone
}

/// `exclude` takes away exactly the tests that are filed under every one of its categories: a test
/// that lacks one of them stays as it was, and one that has them all is never picked.
pub proof fn exclude_takes_only_what_has_all(with: TestFilter, without: TestFilter, t: Entry)
    requires
        same_but_exclude(with, without),
        without.exclude@ == Seq::<Category>::empty(),
        with.exclude@.len() > 0,
    ensures
        (exists|c: Category| #[trigger]
            with.exclude@.contains(c) && !t.categories.contains(c)) ==> with.selects(t)
            == without.selects(t),
        (forall|c: Category| #[trigger]
            with.exclude@.contains(c) ==> t.categories.contains(c)) ==> !with.selects(t),
{
    if exists|c: Category| #[trigger] with.exclude@.contains(c) && !t.categories.contains(c) {
        let c = choose|c: Category| #[trigger]
            with.exclude@.contains(c) && !t.categories.contains(c);
        let i = choose|i: int| 0 <= i < with.exclude@.len() && with.exclude@[i] == c;
        assert(!t.categories.contains(with.exclude@[i]));
    }
    if forall|c: Category| #[trigger] with.exclude@.contains(c) ==> t.categories.contains(c) {
        assert forall|i: int| 0 <= i < with.exclude@.len() implies t.categories.contains(
            #[trigger] with.exclude@[i],
        ) by {
            assert(with.exclude@.contains(with.exclude@[i]));
        }
    }
}

/// `exclude_or` takes away exactly the tests that are filed under one of its categories.
pub proof fn exclude_or_takes_what_has_one(with: TestFilter, without: TestFilter, t: Entry)
    requires
        with.test is None && without.test is None,
        with.include_all@ == without.include_all@,
        with.include_or@ == without.include_or@,
        with.exclude@ == without.exclude@,
        with.distributed == without.distributed,
        with.standalone == without.standalone,
        without.exclude_or@ == Seq::<Category>::empty(),
    ensures
        with.selects(t) <==> without.selects(t) && (forall|c: Category| #[trigger]
            with.exclude_or@.contains(c) ==> !t.categories.contains(c)),
{
    if forall|c: Category| #[trigger] with.exclude_or@.contains(c) ==> !t.categories.contains(c) {
        assert forall|i: int| 0 <= i < with.exclude_or@.len() implies !t.categories.contains(
            #[trigger] with.exclude_or@[i],
        ) by {
            assert(with.exclude_or@.contains(with.exclude_or@[i]));
        }
    } else {
        let c = choose|c: Category| #[trigger]
            with.exclude_or@.contains(c) && t.categories.contains(c);
        let i = choose|i: int| 0 <= i < with.exclude_or@.len() && with.exclude_or@[i] == c;
        assert(t.categories.contains(with.exclude_or@[i]));
    }
}

/// The categories that a test must all have leave exactly the tests that have each of them.
pub proof fn include_all_leaves_what_has_all(with: TestFilter, without: TestFilter, t: Entry)
    requires
        with.test is None && without.test is None,
        with.include_or@ == without.include_or@,
        with.exclude@ == without.exclude@,
        with.exclude_or@ == without.exclude_or@,
        with.distributed == without.distributed,
        with.standalone == without.standalone,
        without.include_all@ == Seq::<Category>::empty(),
    ensures
        with.selects(t) <==> without.selects(t) && (forall|c: Category| #[trigger]
            with.include_all@.contains(c) ==> t.categories.contains(c)),
{
    if forall|c: Category| #[trigger] with.include_all@.contains(c) ==> t.categories.contains(c) {
        assert forall|i: int| 0 <= i < with.include_all@.len() implies t.categories.contains(
            #[trigger] with.include_all@[i],
        ) by {
            assert(with.include_all@.contains(with.include_all@[i]));
        }
    } else {
        let c = choose|c: Category| #[trigger]
            with.include_all@.contains(c) && !t.categories.contains(c);
        let i = choose|i: int| 0 <= i < with.include_all@.len() && with.include_all@[i] == c;
        assert(!t.categories.contains(with.include_all@[i]));
    }
}

/// The categories of which a test must have one leave exactly the tests that share one with them.
/// Only they let in a test that needs the remote hardware.
pub proof fn include_or_leaves_what_has_one(with: TestFilter, without: TestFilter, t: Entry)
    requires
        with.test is None && without.test is None,
        with.include_all@ == without.include_all@,
        with.exclude@ == without.exclude@,
        with.exclude_or@ == without.exclude_or@,
        with.distributed == without.distributed,
        with.standalone == without.standalone,
        without.include_or@ == Seq::<Category>::empty(),
        with.include_or@.len() > 0,
    ensures
        !t.categories.contains(Category::Rpi) ==> (with.selects(t) <==> without.selects(t) && (
        exists|c: Category| #[trigger] with.include_or@.contains(c) && t.categories.contains(c))),
        t.categories.contains(Category::Rpi) ==> !without.selects(t),
        t.categories.contains(Category::Rpi) && !with.include_or@.contains(Category::Rpi)
            ==> !with.selects(t),
{
    if exists|c: Category| #[trigger] with.include_or@.contains(c) && t.categories.contains(c) {
        let c = choose|c: Category| #[trigger]
            with.include_or@.contains(c) && t.categories.contains(c);
        let i = choose|i: int| 0 <= i < with.include_or@.len() && with.include_or@[i] == c;
        assert(t.categories.contains(with.include_or@[i]));
    } else if t.has_any(with.include_or@) {
        let i = choose|i: int|
            0 <= i < with.include_or@.len() && t.categories.contains(#[trigger] with.include_or@[i]);
        assert(with.include_or@.contains(with.include_or@[i]));
    }
}

/// Once the remote hardware is asked for, what else a test may have instead is nothing to the tests
/// that need it.
pub proof fn hardware_is_asked_for_once(a: TestFilter, b: TestFilter, t: Entry)
    requires
        a.test is None && b.test is None,
        a.include_all@ == b.include_all@,
        a.exclude@ == b.exclude@,
        a.exclude_or@ == b.exclude_or@,
        a.distributed == b.distributed,
        a.standalone == b.standalone,
        a.include_or@.contains(Category::Rpi),
        b.include_or@.contains(Category::Rpi),
        t.categories.contains(Category::Rpi),
    ensures
        a.selects(t) == b.selects(t),
{
    let i = choose|i: int| 0 <= i < a.include_or@.len() && a.include_or@[i] == Category::Rpi;
    let j = choose|j: int| 0 <= j < b.include_or@.len() && b.include_or@[j] == Category::Rpi;
    assert(t.categories.contains(a.include_or@[i]));
    assert(t.categories.contains(b.include_or@[j]));
}

/// Asking for distributed tests leaves exactly those, and asking for standalone tests exactly the
/// others.
pub proof fn the_kind_leaves_its_own(with: TestFilter, without: TestFilter, t: Entry)
    requires
        with.test is None && without.test is None,
        with.include_all@ == without.include_all@,
        with.include_or@ == without.include_or@,
        with.exclude@ == without.exclude@,
        with.exclude_or@ == without.exclude_or@,
        !without.distributed && !without.standalone,
    ensures
        with.distributed && !with.standalone ==> (with.selects(t) <==> without.selects(t)
            && t.distributed),
        with.standalone && !with.distributed ==> (with.selects(t) <==> without.selects(t)
            && !t.distributed),
        !with.distributed && !with.standalone ==> with.selects(t) == without.selects(t),
{
}

/// A name picks the test that has it and no other, whatever else is asked for.
pub proof fn a_name_decides_alone(filter: TestFilter, name: String, t: Entry)
    requires
        filter.test == Some(name),
    ensures
        filter.selects(t) <==> t.name == name@,
{
}

/// A filter goes through tests one by one: each stays, in its place, exactly where it is picked,
/// whatever stands around it.
pub proof fn tests_are_picked_one_by_one(
    filter: TestFilter,
    before: Seq<Entry>,
    t: Entry,
    after: Seq<Entry>,
)
    ensures
        filter.picked(Seq::empty()) == Seq::<Entry>::empty(),
        filter.selects(t) ==> filter.picked(before + seq![t] + after) == filter.picked(before)
            + seq![t] + filter.picked(after),
        !filter.selects(t) ==> filter.picked(before + seq![t] + after) == filter.picked(before)
            + filter.picked(after),
{
    reveal(Seq::filter);
    let one = seq![t];
    Seq::filter_distributes_over_add(before, one, filter.picks());
    Seq::filter_distributes_over_add(before + one, after, filter.picks());
    assert(one.drop_last() =~= Seq::<Entry>::empty());
    lemma_picked_step(&filter, one);
    assert(filter.picked(one.drop_last()) =~= Seq::<Entry>::empty());
    assert(one.last() == t);
    assert(filter.selects(t) ==> filter.picked(one) =~= one);
    assert(filter.picked(before) + Seq::<Entry>::empty() =~= filter.picked(before));
}

/// A run of a test is given up neither before a minute nor before twice its estimate, and at one of
/// the two.
pub proof fn patience_is_a_minute_or_twice_the_estimate(t: Entry)
    ensures
        t.timeout() >= 60,
        t.timeout() >= t.estimated_secs + t.estimated_secs,
        t.timeout() == 60 || t.timeout() == t.estimated_secs + t.estimated_secs,
{
}

/// A list of category names reads back as the categories it was made of.
pub proof fn parsed_names_are_unique(a: Seq<Category>, b: Seq<Category>)
    requires
        names(a) == names(b),
    ensures
        a == b,
{
    assert(a.len() == names(a).len() && b.len() == names(b).len());
    assert forall|i: int| 0 <= i < a.len() implies a[i] == b[i] by {
        assert(names(a)[i] == names(b)[i]);
        category_names_differ(a[i], b[i]);
    }
    assert(a =~= b);
}

/// A category's name is a word: it has no comma in it and no white space at its ends.
proof fn lemma_name_is_a_word(c: Category)
    ensures
        c.name().len() > 0,
        !c.name().contains(','),
        !white_space(c.name()[0]),
        !white_space(c.name().last()),
{
    reveal_strlit("core");
    reveal_strlit("replication");
    reveal_strlit("election");
    reveal_strlit("fencing");
    reveal_strlit("invariant");
    reveal_strlit("metamorphic");
    reveal_strlit("edge");
    reveal_strlit("correctness");
    reveal_strlit("durability");
    reveal_strlit("performance");
    reveal_strlit("operations");
    reveal_strlit("security");
    reveal_strlit("schema");
    reveal_strlit("compaction");
    reveal_strlit("debug");
    reveal_strlit("requires_ktls");
    reveal_strlit("rpi");
}

/// Reading a list of category names that were laid end to end, with a comma or with a comma and a
/// space between neighbours, gives the categories back: every piece names one, and no other list of
/// categories has these names.
pub proof fn parsing_undoes_joining(cats: Seq<Category>, sep: Seq<char>)
    requires
        cats.len() > 0,
        sep == ","@ || sep == ", "@,
    ensures
        pieces(joined(names(cats), sep)) == names(cats),
        forall|at: int| !#[trigger] first_unknown(pieces(joined(names(cats), sep)), at),
        forall|others: Seq<Category>|
            #[trigger] names(others) == pieces(joined(names(cats), sep)) ==> others == cats,
{
    reveal_strlit(",");
    reveal_strlit(", ");
    let pad = sep.skip(1);
    let parts = names(cats);
    assert(seq![','] + pad =~= sep);
    assert forall|i: int| 0 <= i < parts.len() implies !(#[trigger] parts[i]).contains(',') by {
        lemma_name_is_a_word(cats[i]);
    }
    assert(!pad.contains(','));
    lemma_split_joined(parts, ',', pad);
    let text = joined(parts, sep);
    assert forall|i: int| 0 <= i < parts.len() implies #[trigger] pieces(text)[i] == parts[i] by {
        lemma_name_is_a_word(cats[i]);
        if i == 0 {
            lemma_trim_takes_pad(Seq::<char>::empty(), parts[i]);
            assert(Seq::<char>::empty() + parts[i] =~= parts[i]);
        } else {
            lemma_trim_takes_pad(pad, parts[i]);
        }
    }
    assert(pieces(text) =~= parts);
    assert forall|at: int| !#[trigger] first_unknown(pieces(text), at) by {
        if 0 <= at < parts.len() {
            assert(cats[at].name() == parts[at]);
            assert(is_category(parts[at]));
        }
    }
    assert forall|others: Seq<Category>| #[trigger] names(others) == pieces(text) implies others
        == cats by {
        parsed_names_are_unique(others, cats);
    }
}

} // verus!

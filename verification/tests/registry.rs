use celeriant_integration_tests::registry::{
    all_tests, category_list, parse_categories, Category, TestEntry, TestFilter,
};

fn names(picked: &[&TestEntry]) -> Vec<&'static str> {
    picked.iter().map(|t| t.name).collect()
}

#[test]
fn the_catalog_is_complete_and_its_names_differ() {
    let tests = all_tests();
    assert_eq!(tests.len(), 199);
    for (i, a) in tests.iter().enumerate() {
        for b in &tests[i + 1..] {
            assert_ne!(a.name, b.name);
        }
    }
}

#[test]
fn every_test_is_filed_and_timed() {
    for t in all_tests() {
        assert!(!t.categories.is_empty(), "{}", t.name);
        assert!(t.timeout_secs() >= 60, "{}", t.name);
        assert!(t.timeout_secs() >= 2 * t.estimated_secs, "{}", t.name);
    }
}

#[test]
fn a_timeout_is_twice_the_estimate_and_a_minute_at_least() {
    let entry = |estimated_secs| TestEntry {
        name: "t",
        description: "",
        estimated_secs,
        categories: &[Category::Core],
        distributed: false,
    };
    assert_eq!(entry(1).timeout_secs(), 60);
    assert_eq!(entry(29).timeout_secs(), 60);
    assert_eq!(entry(30).timeout_secs(), 60);
    assert_eq!(entry(31).timeout_secs(), 62);
    assert_eq!(entry(180).timeout_secs(), 360);
}

#[test]
fn category_names_go_both_ways() {
    assert_eq!(Category::all().len(), 17);
    for c in Category::all() {
        assert_eq!(Category::from_str(c.as_str()), Some(*c));
    }
    assert_eq!(Category::RequiresKtls.as_str(), "requires_ktls");
    assert_eq!(Category::from_str("Core"), None);
    assert_eq!(Category::from_str(""), None);
    assert_eq!(
        category_list(),
        "core, replication, election, fencing, invariant, metamorphic, edge, correctness, \
         durability, performance, operations, security, schema, compaction, debug, \
         requires_ktls, rpi"
    );
}

#[test]
fn lists_of_categories_are_read() {
    assert_eq!(
        parse_categories("core, schema ,rpi").unwrap(),
        vec![Category::Core, Category::Schema, Category::Rpi]
    );
    let all = parse_categories(&category_list()).unwrap();
    let joined: Vec<_> = all.iter().map(|c| c.as_str()).collect();
    assert_eq!(joined.join(", "), category_list());
    assert_eq!(parse_categories(&joined.join(",")).unwrap(), all);
    assert_eq!(
        parse_categories("core,bogus,worse").unwrap_err(),
        format!("unknown category 'bogus'. valid: {}", category_list())
    );
    assert_eq!(
        parse_categories("").unwrap_err(),
        format!("unknown category ''. valid: {}", category_list())
    );
}

#[test]
fn a_test_knows_its_categories() {
    let t = TestEntry {
        name: "t",
        description: "",
        estimated_secs: 1,
        categories: &[Category::Core, Category::Edge],
        distributed: false,
    };
    assert!(t.has_category(Category::Edge));
    assert!(!t.has_category(Category::Rpi));
    assert!(t.has_all_categories(&[Category::Edge, Category::Core]));
    assert!(!t.has_all_categories(&[Category::Edge, Category::Rpi]));
    assert!(t.has_all_categories(&[]));
    assert!(t.has_any_category(&[Category::Rpi, Category::Core]));
    assert!(!t.has_any_category(&[Category::Rpi]));
    assert!(!t.has_any_category(&[]));
}

#[test]
fn a_filter_without_conditions_leaves_only_hardware_out() {
    assert_eq!(all_tests().len(), 199);
    let picked = TestFilter::default().apply(all_tests());
    assert_eq!(picked.len(), 197);
    assert!(!picked.iter().any(|t| t.has_category(Category::Rpi)));
}

#[test]
fn conditions_narrow_the_choice() {
    let core = TestFilter { include_all: vec![Category::Core], ..TestFilter::default() };
    let picked = core.apply(all_tests());
    assert!(!picked.is_empty());
    assert!(picked.iter().all(|t| t.has_category(Category::Core)));

    let both = TestFilter {
        include_all: vec![Category::Performance, Category::Rpi],
        ..TestFilter::default()
    };
    assert!(both.apply(all_tests()).is_empty());
    let both = TestFilter { include_or: vec![Category::Rpi], ..both };
    assert_eq!(both.apply(all_tests()).len(), 2);

    let either = TestFilter {
        include_or: vec![Category::Schema, Category::Rpi],
        ..TestFilter::default()
    };
    let schema = TestFilter { include_or: vec![Category::Schema], ..TestFilter::default() };
    assert_eq!(
        either.apply(all_tests()).len(),
        schema.apply(all_tests()).len() + 2
    );

    let without = TestFilter {
        include_or: vec![Category::Performance],
        exclude: vec![Category::Performance, Category::Metamorphic],
        ..TestFilter::default()
    };
    assert!(without.apply(all_tests()).iter().all(|t| !t.has_category(Category::Metamorphic)));

    let none_of = TestFilter {
        include_all: vec![Category::Core],
        exclude_or: vec![Category::Core],
        ..TestFilter::default()
    };
    assert!(none_of.apply(all_tests()).is_empty());
}

#[test]
fn distributed_and_standalone_split_the_catalog() {
    let d = TestFilter { distributed: true, ..TestFilter::default() };
    let s = TestFilter { standalone: true, ..TestFilter::default() };
    let both = TestFilter { distributed: true, standalone: true, ..TestFilter::default() };
    assert_eq!(d.apply(all_tests()).len() + s.apply(all_tests()).len(), 197);
    assert!(d.apply(all_tests()).iter().all(|t| t.distributed));
    assert!(both.apply(all_tests()).is_empty());
}

#[test]
fn a_name_decides_alone() {
    let f = TestFilter {
        test: Some("s3_failover_and_recovery".to_string()),
        standalone: true,
        exclude_or: vec![Category::Replication, Category::Election],
        ..TestFilter::default()
    };
    assert_eq!(names(&f.apply(all_tests())), vec!["s3_failover_and_recovery"]);
    let f = TestFilter { test: Some("s3_failover".to_string()), ..TestFilter::default() };
    assert!(f.apply(all_tests()).is_empty());
}

#[test]
fn hardware_tests_stay_out_unless_asked_for() {
    let picked = |f: TestFilter| {
        f.apply(all_tests())
            .iter()
            .filter(|t| t.has_category(Category::Rpi))
            .count()
    };
    assert_eq!(picked(TestFilter::default()), 0);
    assert_eq!(
        picked(TestFilter { include_all: vec![Category::Performance], ..TestFilter::default() }),
        0
    );
    assert_eq!(
        picked(TestFilter { include_or: vec![Category::Rpi], ..TestFilter::default() }),
        2
    );
    let asked = TestFilter { include_or: vec![Category::Rpi], ..TestFilter::default() };
    assert_eq!(
        names(&asked.apply(all_tests())),
        vec!["rpi_cluster_bench", "rpi_cluster_pool_bench"]
    );
}

#[test]
fn filtering_again_changes_nothing() {
    let f = TestFilter { include_or: vec![Category::Election], ..TestFilter::default() };
    let once = f.apply(all_tests());
    assert!(once.iter().all(|t| f.matches(t)));
    assert_eq!(once.len(), once.iter().filter(|t| f.matches(t)).count());
}

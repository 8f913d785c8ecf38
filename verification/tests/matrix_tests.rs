use matrix_runner::config::{Config, Feature, RustVersion};
use matrix_runner::matrix::{filter_eligible, gen_test_matrix, powerset};
use matrix_runner::version::Version;

fn feat(name: &str, min_rust: Option<&str>) -> Feature {
    Feature {
        name: name.to_string(),
        min_rust: min_rust.map(|s| s.to_string()),
    }
}

fn rust(name: &str) -> RustVersion {
    RustVersion {
        name: name.to_string(),
        requires_pinning: Vec::new(),
    }
}

fn names(combo: &[Feature]) -> Vec<String> {
    combo.iter().map(|f| f.name.clone()).collect()
}

#[test]
fn powerset_of_nothing_is_the_empty_combination() {
    let sets = powerset(&Vec::new());
    assert_eq!(sets.len(), 1);
    assert!(sets[0].is_empty());
}

#[test]
fn powerset_is_binary_counting() {
    let fs = vec![feat("a", None), feat("b", None), feat("c", None)];
    let sets = powerset(&fs);
    assert_eq!(sets.len(), 8);
    let got: Vec<Vec<String>> = sets.iter().map(|c| names(c)).collect();
    let want: Vec<Vec<&str>> = vec![
        vec![],
        vec!["a"],
        vec!["b"],
        vec!["a", "b"],
        vec!["c"],
        vec!["a", "c"],
        vec!["b", "c"],
        vec!["a", "b", "c"],
    ];
    for (g, w) in got.iter().zip(want.iter()) {
        assert_eq!(g, &w.iter().map(|s| s.to_string()).collect::<Vec<_>>());
    }
}

#[test]
fn powerset_size_is_two_to_the_k() {
    for k in 0..6 {
        let fs: Vec<Feature> = (0..k).map(|i| feat(&format!("f{}", i), None)).collect();
        assert_eq!(powerset(&fs).len(), 1usize << k);
    }
}

#[test]
fn eligibility_respects_minimum_versions() {
    let stable = Version { major: 1, minor: 60, patch: 0 };
    let fs = vec![feat("a", None), feat("b", Some("1.50.0"))];
    let old = filter_eligible(&fs, "1.40.0", &stable).unwrap();
    assert_eq!(names(&old), vec!["a".to_string()]);
    let new = filter_eligible(&fs, "stable", &stable).unwrap();
    assert_eq!(names(&new), vec!["a".to_string(), "b".to_string()]);
    let night = filter_eligible(&fs, "nightly", &stable).unwrap();
    assert_eq!(names(&night), vec!["a".to_string(), "b".to_string()]);
}

#[test]
fn matrix_for_two_toolchains() {
    // features {A: no min, B: min "1.50.0"}, toolchains {"1.40.0", "stable"},
    // stable resolved to "1.60.0"
    let cfg = Config {
        repo: "proj".to_string(),
        features: vec![feat("A", None), feat("B", Some("1.50.0"))],
        rust: vec![rust("1.40.0"), rust("stable")],
        par: 2,
        fuzzing: None,
    };
    let stable = Version { major: 1, minor: 60, patch: 0 };
    let matrix = gen_test_matrix(&cfg, &stable).unwrap();
    assert_eq!(matrix.len(), 2);

    assert_eq!(matrix[0].rust.name, "1.40.0");
    let combos0: Vec<Vec<String>> = matrix[0].feature_sets.iter().map(|c| names(c)).collect();
    assert_eq!(combos0, vec![Vec::<String>::new(), vec!["A".to_string()]]);

    assert_eq!(matrix[1].rust.name, "stable");
    let combos1: Vec<Vec<String>> = matrix[1].feature_sets.iter().map(|c| names(c)).collect();
    assert_eq!(
        combos1,
        vec![
            Vec::<String>::new(),
            vec!["A".to_string()],
            vec!["B".to_string()],
            vec!["A".to_string(), "B".to_string()],
        ]
    );
}

#[test]
fn undecidable_minimum_is_fatal() {
    let cfg = Config {
        repo: "proj".to_string(),
        features: vec![feat("A", Some("not-a-version"))],
        rust: vec![rust("1.40.0")],
        par: 1,
        fuzzing: None,
    };
    let stable = Version { major: 1, minor: 60, patch: 0 };
    assert!(gen_test_matrix(&cfg, &stable).is_err());
}

#[test]
fn nightly_never_parses_minimums() {
    // the symbolic name decides the comparison before the minimum is parsed
    let cfg = Config {
        repo: "proj".to_string(),
        features: vec![feat("A", Some("not-a-version"))],
        rust: vec![rust("nightly")],
        par: 1,
        fuzzing: None,
    };
    let stable = Version { major: 1, minor: 60, patch: 0 };
    let matrix = gen_test_matrix(&cfg, &stable).unwrap();
    assert_eq!(matrix[0].feature_sets.len(), 2);
}

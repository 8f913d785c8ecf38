use matrix_runner::command::{
    delete_command, feature_join, fuzz_command, fuzz_target_name, generate_lockfile_command,
    install_command, parse_stable_output, pin_command, report_run, stable_query_command,
    test_command, u64_to_string,
};
use matrix_runner::config::{Feature, VersionPin};
use matrix_runner::version::Version;

fn feat(name: &str) -> Feature {
    Feature { name: name.to_string(), min_rust: None }
}

#[test]
fn renders_decimals() {
    assert_eq!(u64_to_string(0), "0");
    assert_eq!(u64_to_string(7), "7");
    assert_eq!(u64_to_string(42), "42");
    assert_eq!(u64_to_string(3600), "3600");
    assert_eq!(u64_to_string(u64::MAX), "18446744073709551615");
}

#[test]
fn joins_feature_names_with_commas() {
    assert_eq!(feature_join(&vec![]), "");
    assert_eq!(feature_join(&vec![feat("a")]), "a");
    assert_eq!(feature_join(&vec![feat("a"), feat("b")]), "a,b");
    assert_eq!(
        feature_join(&vec![feat("x"), feat("y"), feat("z")]),
        "x,y,z"
    );
}

#[test]
fn test_command_isolates_the_combination() {
    let c = test_command("/work/proj", "1.40.0", &vec![feat("a"), feat("b")]);
    assert_eq!(c.program, "cargo");
    assert_eq!(
        c.args,
        vec!["+1.40.0", "test", "--no-default-features", "--features", "a,b"]
    );
    assert!(c.env.is_empty());
    assert_eq!(c.dir.as_deref(), Some("/work/proj"));
}

#[test]
fn install_and_query_commands() {
    let i = install_command("1.40.0");
    assert_eq!(i.program, "rustup");
    assert_eq!(i.args, vec!["toolchain", "install", "1.40.0"]);
    assert_eq!(i.dir, None);

    let q = stable_query_command();
    assert_eq!(q.program, "cargo");
    assert_eq!(q.args, vec!["+stable", "--version"]);
}

#[test]
fn pinning_commands() {
    let g = generate_lockfile_command("/work/proj", "1.40.0");
    assert_eq!(g.program, "cargo");
    assert_eq!(g.args, vec!["+1.40.0", "generate-lockfile"]);
    assert_eq!(g.dir.as_deref(), Some("/work/proj"));

    let pin = VersionPin { dependency: "serde".to_string(), version: "1.0.100".to_string() };
    let p = pin_command("/work/proj", "1.40.0", &pin);
    assert_eq!(
        p.args,
        vec!["+1.40.0", "update", "-p", "serde", "--precise", "1.0.100"]
    );
    assert_eq!(p.dir.as_deref(), Some("/work/proj"));
}

#[test]
fn fuzz_command_sets_duration_and_env() {
    let c = fuzz_command("/proj/fuzz", "nightly", "decode", 3600);
    assert_eq!(c.program, "cargo");
    assert_eq!(c.args, vec!["+nightly", "hfuzz", "run", "decode"]);
    assert_eq!(c.dir.as_deref(), Some("/proj/fuzz"));
    assert_eq!(
        c.env,
        vec![
            (
                "HFUZZ_BUILD_ARGS".to_string(),
                "--features honggfuzz_fuzz".to_string()
            ),
            (
                "HFUZZ_RUN_ARGS".to_string(),
                "--run_time 3600 --exit_upon_crash -v".to_string()
            ),
        ]
    );
}

#[test]
fn delete_command_is_forced_and_recursive() {
    let c = delete_command("/tmp/ws-1");
    assert_eq!(c.program, "rm");
    assert_eq!(c.args, vec!["-rf", "/tmp/ws-1"]);
}

#[test]
fn reads_the_stable_version_from_query_output() {
    let out = "cargo 1.60.0 (a748cf5a3 2022-06-08)";
    assert_eq!(
        parse_stable_output(out),
        Ok(Version { major: 1, minor: 60, patch: 0 })
    );
    let padded = "  cargo   1.72.1   (extra)";
    assert_eq!(
        parse_stable_output(padded),
        Ok(Version { major: 1, minor: 72, patch: 1 })
    );
    assert!(parse_stable_output("cargo").is_err());
    assert!(parse_stable_output("").is_err());
    assert!(parse_stable_output("cargo nightly-build").is_err());
}

#[test]
fn target_names_drop_the_extension() {
    assert_eq!(fuzz_target_name("decode.rs"), "decode");
    assert_eq!(fuzz_target_name("roundtrip.tar.gz"), "roundtrip");
    assert_eq!(fuzz_target_name("noext"), "noext");
    assert_eq!(fuzz_target_name(".hidden"), "");
}

#[test]
fn run_reports_surface_output_only_on_failure() {
    let ok = report_run(true, "out".to_string(), "err".to_string());
    assert!(ok.success);
    assert_eq!(ok.stdout_dump, None);
    assert_eq!(ok.stderr_dump, None);

    let bad = report_run(false, "out".to_string(), "err".to_string());
    assert!(!bad.success);
    assert_eq!(bad.stdout_dump.as_deref(), Some("out"));
    assert_eq!(bad.stderr_dump.as_deref(), Some("err"));
}

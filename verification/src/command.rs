//! Construction of the external commands the runner asks its driver to
//! execute, and interpretation of what comes back.
//!
//! The runner itself never spawns a process: it only decides the program,
//! arguments, environment and working directory of each invocation, and
//! classifies the captured exit status and output. The driver owns the
//! actual spawning.

use vstd::prelude::*;
use vstd::string::StrSliceExecFns;
use vstd::string::StringExecFns;

use crate::version::{version_shape, spec_version_of, parse_version, ParseError, Version};
use crate::config::{Feature, FeatureView, VersionPin};

verus! {

/// One external invocation: program, arguments, extra environment,
/// optional working directory.
pub struct Command {
    pub program: String,
    pub args: Vec<String>,
    pub env: Vec<(String, String)>,
    pub dir: Option<String>,
}

pub ghost struct CommandView {
    pub program: Seq<char>,
    pub args: Seq<Seq<char>>,
    pub env: Seq<(Seq<char>, Seq<char>)>,
    pub dir: Option<Seq<char>>,
}

impl View for Command {
    type V = CommandView;

    open spec fn view(&self) -> CommandView {
        CommandView {
            program: self.program@,
            args: self.args@.map_values(|a: String| a@),
            env: self.env@.map_values(|e: (String, String)| (e.0@, e.1@)),
            dir: match self.dir {
                Some(ref d) => Some(d@),
                None => None,
            },
        }
    }
}

pub open spec fn dec_digit(n: nat) -> char {
    if n == 0 {
        '0'
    } else if n == 1 {
        '1'
    } else if n == 2 {
        '2'
    } else if n == 3 {
        '3'
    } else if n == 4 {
        '4'
    } else if n == 5 {
        '5'
    } else if n == 6 {
        '6'
    } else if n == 7 {
        '7'
    } else if n == 8 {
        '8'
    } else {
        '9'
    }
}

/// The decimal rendering of `n`, most significant digit first, no
/// leading zeros.
pub open spec fn spec_dec_str(n: nat) -> Seq<char>
    decreases n,
{
    if n < 10 {
        seq![dec_digit(n)]
    } else {
        spec_dec_str(n / 10).push(dec_digit(n % 10))
    }
}

/// The one-character string for a digit value.
fn digit_str(d: u64) -> (r: &'static str)
    requires
        d < 10,
    ensures
        r@ == seq![dec_digit(d as nat)],
{
    proof {
        reveal_strlit("0");
        reveal_strlit("1");
        reveal_strlit("2");
        reveal_strlit("3");
        reveal_strlit("4");
        reveal_strlit("5");
        reveal_strlit("6");
        reveal_strlit("7");
        reveal_strlit("8");
        reveal_strlit("9");
    }
    let r = match d {
        0 => "0",
        1 => "1",
        2 => "2",
        3 => "3",
        4 => "4",
        5 => "5",
        6 => "6",
        7 => "7",
        8 => "8",
        _ => "9",
    };
    proof {
        assert(r@ =~= seq![dec_digit(d as nat)]);
    }
    r
}

/// Render `n` in decimal.
pub fn u64_to_string(n: u64) -> (r: String)
    ensures
        r@ == spec_dec_str(n as nat),
    decreases n,
{
    if n < 10 {
        digit_str(n).to_owned()
    } else {
        proof {
            assert(n / 10 < n) by (nonlinear_arith)
                requires
                    n >= 10,
            ;
        }
        let mut s = u64_to_string(n / 10);
        s.append(digit_str(n % 10));
        proof {
            assert(spec_dec_str((n / 10) as nat) + seq![dec_digit((n % 10) as nat)]
                =~= spec_dec_str((n / 10) as nat).push(dec_digit((n % 10) as nat)));
        }
        s
    }
}

/// The names of the features in a combination.
pub open spec fn combo_names(c: Seq<FeatureView>) -> Seq<Seq<char>> {
    c.map_values(|f: FeatureView| f.name)
}

/// Names joined with a comma between each pair of neighbours.
pub open spec fn spec_join(names: Seq<Seq<char>>) -> Seq<char>
    decreases names.len(),
{
    if names.len() == 0 {
        Seq::empty()
    } else if names.len() == 1 {
        names[0]
    } else {
        spec_join(names.drop_last()) + seq![','] + names.last()
    }
}

/// The comma-joined feature list of a combination, as handed to the test
/// command.
pub fn feature_join(features: &Vec<Feature>) -> (r: String)
    ensures
        r@ == spec_join(combo_names(crate::config::feature_views(features@))),
{
    proof {
        reveal_strlit(",");
    }
    let mut s = String::new();
    let mut i: usize = 0;
    while i < features.len()
        invariant
            i <= features.len(),
            s@ == spec_join(combo_names(crate::config::feature_views(features@.subrange(0, i as int)))),
        decreases features.len() - i,
    {
        let ghost pre = combo_names(crate::config::feature_views(features@.subrange(0, i as int)));
        if i > 0 {
            s.append(",");
        }
        s.append(features[i].name.as_str());
        proof {
            reveal_strlit(",");
            let cur = combo_names(crate::config::feature_views(features@.subrange(0, i + 1)));
            assert(cur.drop_last() =~= pre);
            assert(cur.last() == features@[i as int]@.name);
            assert(","@ =~= seq![',']);
            if i == 0 {
                assert(s@ =~= cur[0]);
            } else {
                assert(s@ =~= spec_join(pre) + seq![','] + cur.last());
            }
        }
        i += 1;
    }
    proof {
        assert(features@.subrange(0, features@.len() as int) =~= features@);
    }
    s
}

/// The toolchain selector handed to the build tool: `+` before the name.
pub fn plus_selector(name: &str) -> (r: String)
    ensures
        r@ == "+"@ + name@,
{
    let mut s = String::new();
    s.append("+");
    s.append(name);
    s
}

/// The command that installs a toolchain: `rustup toolchain install
/// <name>`. Its failure is fatal for the whole process.
pub fn install_command(name: &str) -> (r: Command)
    ensures
        r@.program == "rustup"@,
        r@.args == seq!["toolchain"@, "install"@, name@],
        r@.env == Seq::<(Seq<char>, Seq<char>)>::empty(),
        r@.dir is None,
{
    let mut args: Vec<String> = Vec::new();
    args.push("toolchain".to_owned());
    args.push("install".to_owned());
    args.push(name.to_owned());
    let r = Command { program: "rustup".to_owned(), args, env: Vec::new(), dir: None };
    proof {
        assert(r@.args =~= seq!["toolchain"@, "install"@, name@]);
        assert(r@.env =~= Seq::<(Seq<char>, Seq<char>)>::empty());
    }
    r
}

/// The command whose output names the version aliased `stable`:
/// `cargo +stable --version`.
pub fn stable_query_command() -> (r: Command)
    ensures
        r@.program == "cargo"@,
        r@.args == seq!["+stable"@, "--version"@],
        r@.env == Seq::<(Seq<char>, Seq<char>)>::empty(),
        r@.dir is None,
{
    let mut args: Vec<String> = Vec::new();
    args.push("+stable".to_owned());
    args.push("--version".to_owned());
    let r = Command { program: "cargo".to_owned(), args, env: Vec::new(), dir: None };
    proof {
        assert(r@.args =~= seq!["+stable"@, "--version"@]);
        assert(r@.env =~= Seq::<(Seq<char>, Seq<char>)>::empty());
    }
    r
}

/// The test invocation for one feature combination: run in the
/// workspace, under the toolchain selector, with default features off
/// and exactly the combination's features on.
pub fn test_command(workdir: &str, rust_name: &str, features: &Vec<Feature>) -> (r: Command)
    ensures
        r@.program == "cargo"@,
        r@.args == seq![
            "+"@ + rust_name@,
            "test"@,
            "--no-default-features"@,
            "--features"@,
            spec_join(combo_names(crate::config::feature_views(features@))),
        ],
        r@.env == Seq::<(Seq<char>, Seq<char>)>::empty(),
        r@.dir == Some(workdir@),
{
    let mut args: Vec<String> = Vec::new();
    args.push(plus_selector(rust_name));
    args.push("test".to_owned());
    args.push("--no-default-features".to_owned());
    args.push("--features".to_owned());
    args.push(feature_join(features));
    let r = Command {
        program: "cargo".to_owned(),
        args,
        env: Vec::new(),
        dir: Some(workdir.to_owned()),
    };
    proof {
        assert(r@.args =~= seq![
            "+"@ + rust_name@,
            "test"@,
            "--no-default-features"@,
            "--features"@,
            spec_join(combo_names(crate::config::feature_views(features@))),
        ]);
        assert(r@.env =~= Seq::<(Seq<char>, Seq<char>)>::empty());
    }
    r
}

/// The command that regenerates the dependency lock file under a
/// toolchain, run before any pin is applied.
pub fn generate_lockfile_command(workdir: &str, rust_name: &str) -> (r: Command)
    ensures
        r@.program == "cargo"@,
        r@.args == seq!["+"@ + rust_name@, "generate-lockfile"@],
        r@.env == Seq::<(Seq<char>, Seq<char>)>::empty(),
        r@.dir == Some(workdir@),
{
    let mut args: Vec<String> = Vec::new();
    args.push(plus_selector(rust_name));
    args.push("generate-lockfile".to_owned());
    let r = Command {
        program: "cargo".to_owned(),
        args,
        env: Vec::new(),
        dir: Some(workdir.to_owned()),
    };
    proof {
        assert(r@.args =~= seq!["+"@ + rust_name@, "generate-lockfile"@]);
        assert(r@.env =~= Seq::<(Seq<char>, Seq<char>)>::empty());
    }
    r
}

/// The command that forces one dependency to its exact pinned version.
pub fn pin_command(workdir: &str, rust_name: &str, pin: &VersionPin) -> (r: Command)
    ensures
        r@.program == "cargo"@,
        r@.args == seq![
            "+"@ + rust_name@,
            "update"@,
            "-p"@,
            pin.dependency@,
            "--precise"@,
            pin.version@,
        ],
        r@.env == Seq::<(Seq<char>, Seq<char>)>::empty(),
        r@.dir == Some(workdir@),
{
    let mut args: Vec<String> = Vec::new();
    args.push(plus_selector(rust_name));
    args.push("update".to_owned());
    args.push("-p".to_owned());
    args.push(pin.dependency.clone());
    args.push("--precise".to_owned());
    args.push(pin.version.clone());
    let r = Command {
        program: "cargo".to_owned(),
        args,
        env: Vec::new(),
        dir: Some(workdir.to_owned()),
    };
    proof {
        assert(r@.args =~= seq![
            "+"@ + rust_name@,
            "update"@,
            "-p"@,
            pin.dependency@,
            "--precise"@,
            pin.version@,
        ]);
        assert(r@.env =~= Seq::<(Seq<char>, Seq<char>)>::empty());
    }
    r
}

/// The fuzzing invocation for one target: run in the fuzzing crate's
/// directory, under the configured toolchain, for a fixed duration,
/// stopping on the first detected fault.
pub fn fuzz_command(fuzz_dir: &str, rust_name: &str, target: &str, duration_s: u64) -> (r: Command)
    ensures
        r@.program == "cargo"@,
        r@.args == seq!["+"@ + rust_name@, "hfuzz"@, "run"@, target@],
        r@.env == seq![
            ("HFUZZ_BUILD_ARGS"@, "--features honggfuzz_fuzz"@),
            (
                "HFUZZ_RUN_ARGS"@,
                "--run_time "@ + spec_dec_str(duration_s as nat) + " --exit_upon_crash -v"@,
            ),
        ],
        r@.dir == Some(fuzz_dir@),
{
    let mut run_args = String::new();
    run_args.append("--run_time ");
    let dur = u64_to_string(duration_s);
    run_args.append(dur.as_str());
    run_args.append(" --exit_upon_crash -v");
    let mut env: Vec<(String, String)> = Vec::new();
    env.push(("HFUZZ_BUILD_ARGS".to_owned(), "--features honggfuzz_fuzz".to_owned()));
    env.push(("HFUZZ_RUN_ARGS".to_owned(), run_args));
    let mut args: Vec<String> = Vec::new();
    args.push(plus_selector(rust_name));
    args.push("hfuzz".to_owned());
    args.push("run".to_owned());
    args.push(target.to_owned());
    let r = Command {
        program: "cargo".to_owned(),
        args,
        env,
        dir: Some(fuzz_dir.to_owned()),
    };
    proof {
        assert(r@.args =~= seq!["+"@ + rust_name@, "hfuzz"@, "run"@, target@]);
        assert(r@.env =~= seq![
            ("HFUZZ_BUILD_ARGS"@, "--features honggfuzz_fuzz"@),
            (
                "HFUZZ_RUN_ARGS"@,
                "--run_time "@ + spec_dec_str(duration_s as nat) + " --exit_upon_crash -v"@,
            ),
        ]);
    }
    r
}

/// The forced removal of one workspace during shutdown.
pub fn delete_command(path: &str) -> (r: Command)
    ensures
        r@.program == "rm"@,
        r@.args == seq!["-rf"@, path@],
        r@.env == Seq::<(Seq<char>, Seq<char>)>::empty(),
        r@.dir is None,
{
    let mut args: Vec<String> = Vec::new();
    args.push("-rf".to_owned());
    args.push(path.to_owned());
    let r = Command { program: "rm".to_owned(), args, env: Vec::new(), dir: None };
    proof {
        assert(r@.args =~= seq!["-rf"@, path@]);
        assert(r@.env =~= Seq::<(Seq<char>, Seq<char>)>::empty());
    }
    r
}

/// What one test run came to: success on a zero exit status; on failure,
/// both captured streams are surfaced, and on success neither is dumped.
pub struct RunReport {
    pub success: bool,
    pub stdout_dump: Option<String>,
    pub stderr_dump: Option<String>,
}

/// Classify a finished run from its exit status and captured output.
pub fn report_run(exit_ok: bool, stdout: String, stderr: String) -> (r: RunReport)
    ensures
        r.success == exit_ok,
        exit_ok ==> r.stdout_dump is None && r.stderr_dump is None,
        !exit_ok ==> r.stdout_dump == Some(stdout) && r.stderr_dump == Some(stderr),
{
    if exit_ok {
        RunReport { success: true, stdout_dump: None, stderr_dump: None }
    } else {
        RunReport { success: false, stdout_dump: Some(stdout), stderr_dump: Some(stderr) }
    }
}

pub open spec fn is_space(c: char) -> bool {
    c == ' ' || c == '\n' || c == '\t' || c == '\r'
}

/// The first index at or after `i` that does not hold whitespace.
pub open spec fn ws_end(s: Seq<char>, i: int) -> int
    decreases s.len() - i,
{
    if i < 0 || i >= s.len() || !is_space(s[i]) {
        i
    } else {
        ws_end(s, i + 1)
    }
}

/// The first index at or after `i` that holds whitespace (or the end).
pub open spec fn tok_end(s: Seq<char>, i: int) -> int
    decreases s.len() - i,
{
    if i < 0 || i >= s.len() || is_space(s[i]) {
        i
    } else {
        tok_end(s, i + 1)
    }
}

/// The second whitespace-separated token of `s`, if there is one.
pub open spec fn spec_second_token(s: Seq<char>) -> Option<Seq<char>> {
    let a = ws_end(s, 0);
    let b = tok_end(s, a);
    let c = ws_end(s, b);
    let d = tok_end(s, c);
    if a < s.len() && c < s.len() {
        Some(s.subrange(c, d))
    } else {
        None
    }
}

/// What the stable-version query's output denotes: its second token, as
/// a concrete version. Anything else is a parse error, fatal for the run.
pub open spec fn spec_parse_stable(s: Seq<char>) -> Option<Version> {
    match spec_second_token(s) {
        Some(t) => if version_shape(t) {
            Some(spec_version_of(t))
        } else {
            None
        },
        None => None,
    }
}

/// Whether a character is whitespace.
fn is_space_char(c: char) -> (r: bool)
    ensures
        r == is_space(c),
{
    c == ' ' || c == '\n' || c == '\t' || c == '\r'
}

/// Whether a character is not whitespace.
fn is_nonspace_char(c: char) -> (r: bool)
    ensures
        r == !is_space(c),
{
    !is_space_char(c)
}

/// The first index at or after `from` that is not whitespace.
fn scan_spaces(s: &str, from: usize) -> (r: usize)
    requires
        from <= s@.len(),
    ensures
        r == ws_end(s@, from as int),
        from <= r <= s@.len(),
{
    let len = s.unicode_len();
    let mut j = from;
    while j < len && is_space_char(s.get_char(j))
        invariant
            from <= j <= len,
            len == s@.len(),
            ws_end(s@, from as int) == ws_end(s@, j as int),
        decreases len - j,
    {
        assert(ws_end(s@, j as int) == ws_end(s@, j + 1));
        j += 1;
    }
    j
}

/// The first index at or after `from` that is whitespace (or the end).
fn scan_token(s: &str, from: usize) -> (r: usize)
    requires
        from <= s@.len(),
    ensures
        r == tok_end(s@, from as int),
        from <= r <= s@.len(),
{
    let len = s.unicode_len();
    let mut j = from;
    while j < len && is_nonspace_char(s.get_char(j))
        invariant
            from <= j <= len,
            len == s@.len(),
            tok_end(s@, from as int) == tok_end(s@, j as int),
        decreases len - j,
    {
        assert(tok_end(s@, j as int) == tok_end(s@, j + 1));
        j += 1;
    }
    j
}

/// Read the resolved stable version out of the stable-version query's
/// captured output: its second whitespace-separated token. A missing or
/// malformed token is a parse error, fatal for the run.
pub fn parse_stable_output(s: &str) -> (r: Result<Version, ParseError>)
    ensures
        match spec_parse_stable(s@) {
            Some(v) => r == Ok::<Version, ParseError>(v),
            None => r is Err,
        },
{
    let len = s.unicode_len();
    let a = scan_spaces(s, 0);
    if a >= len {
        return Err(ParseError);
    }
    let b = scan_token(s, a);
    let c = scan_spaces(s, b);
    if c >= len {
        return Err(ParseError);
    }
    let d = scan_token(s, c);
    let tok = s.substring_char(c, d);
    parse_version(tok)
}

/// The first index at or after `i` that holds a dot (or the end).
pub open spec fn dot_end(s: Seq<char>, i: int) -> int
    decreases s.len() - i,
{
    if i < 0 || i >= s.len() || s[i] == '.' {
        i
    } else {
        dot_end(s, i + 1)
    }
}

/// The fuzz target a file stands for: its name up to the first dot —
/// the file name with its extension cut off.
pub open spec fn spec_target_name(file_name: Seq<char>) -> Seq<char> {
    file_name.subrange(0, dot_end(file_name, 0))
}

/// Whether a character is not a dot.
fn is_nondot_char(c: char) -> (r: bool)
    ensures
        r == (c != '.'),
{
    c != '.'
}

/// The fuzz target name a directory entry stands for.
pub fn fuzz_target_name(file_name: &str) -> (r: String)
    ensures
        r@ == spec_target_name(file_name@),
{
    let len = file_name.unicode_len();
    let mut j: usize = 0;
    while j < len && is_nondot_char(file_name.get_char(j))
        invariant
            j <= len,
            len == file_name@.len(),
            dot_end(file_name@, 0) == dot_end(file_name@, j as int),
        decreases len - j,
    {
        assert(dot_end(file_name@, j as int) == dot_end(file_name@, j + 1));
        j += 1;
    }
    file_name.substring_char(0, j).to_owned()
}

} // verus!

//! Toolchain version identifiers and their ordering.
//!
//! A toolchain is named either by a concrete version `major.minor.patch`,
//! or by one of the symbolic names `"stable"` and `"nightly"`. `"nightly"`
//! compares greater than everything but itself; `"stable"` is substituted
//! with a concrete version resolved once per run. A name that is neither
//! symbolic nor a well-formed concrete version is a parse error, which is
//! fatal for the run: feature eligibility cannot be decided without it.

use vstd::prelude::*;

verus! {

/// A concrete toolchain version: three numeric components.
#[derive(Clone, Copy, PartialEq, Eq, Structural, Debug)]
pub struct Version {
    pub major: u64,
    pub minor: u64,
    pub patch: u64,
}

/// A parsed toolchain identifier: concrete, or one of the symbolic names.
#[derive(Clone, Copy, PartialEq, Eq, Structural, Debug)]
pub enum VersionId {
    Concrete(Version),
    Stable,
    Nightly,
}

/// A version string that is neither symbolic nor `major.minor.patch`.
#[derive(Clone, Copy, PartialEq, Eq, Structural, Debug)]
pub struct ParseError;

/// Lexicographic order on (major, minor, patch): `a >= b`.
pub open spec fn spec_version_geq(a: Version, b: Version) -> bool {
    if a.major != b.major {
        a.major > b.major
    } else if a.minor != b.minor {
        a.minor > b.minor
    } else {
        a.patch >= b.patch
    }
}

impl Version {
    /// Whether `self` is greater or equal to `other` in the usual
    /// semantic-version order on the three numeric components.
    pub fn geq(&self, other: &Version) -> (r: bool)
        ensures
            r == spec_version_geq(*self, *other),
    {
        if self.major != other.major {
            self.major > other.major
        } else if self.minor != other.minor {
            self.minor > other.minor
        } else {
            self.patch >= other.patch
        }
    }
}

pub open spec fn is_digit(c: char) -> bool {
    '0' <= c && c <= '9'
}

pub open spec fn digit_val(c: char) -> nat {
    (c as nat - '0' as nat) as nat
}

/// The first index at or after `i` that does not hold a decimal digit
/// (or the end of the string).
pub open spec fn num_end(s: Seq<char>, i: int) -> int
    decreases s.len() - i,
{
    if i < 0 || i >= s.len() || !is_digit(s[i]) {
        i
    } else {
        num_end(s, i + 1)
    }
}

pub proof fn lemma_num_end(s: Seq<char>, i: int)
    requires
        0 <= i <= s.len(),
    ensures
        i <= num_end(s, i) <= s.len(),
        forall|j: int| i <= j < num_end(s, i) ==> is_digit(s[j]),
        num_end(s, i) < s.len() ==> !is_digit(s[num_end(s, i)]),
    decreases s.len() - i,
{
    if i < s.len() && is_digit(s[i]) {
        lemma_num_end(s, i + 1);
    }
}

/// The value of the digit run `s[i..j]`, most significant digit first.
pub open spec fn digits_val(s: Seq<char>, i: int, j: int) -> nat
    decreases j - i,
{
    if i >= j {
        0
    } else {
        digits_val(s, i, j - 1) * 10 + digit_val(s[j - 1])
    }
}

/// A longer digit run never has a smaller value.
proof fn lemma_digits_val_mono(s: Seq<char>, i: int, j: int, e: int)
    requires
        i <= j <= e,
    ensures
        digits_val(s, i, j) <= digits_val(s, i, e),
    decreases e - j,
{
    if j < e {
        lemma_digits_val_mono(s, i, j, e - 1);
        assert(digits_val(s, i, e) == digits_val(s, i, e - 1) * 10 + digit_val(s[e - 1]));
        assert(digits_val(s, i, e - 1) * 10 >= digits_val(s, i, e - 1)) by (nonlinear_arith);
    }
}

/// A well-formed numeric component: nonempty run of digits, no redundant
/// leading zero, value representable in 64 bits.
pub open spec fn is_num_component(s: Seq<char>, i: int, j: int) -> bool {
    &&& i < j
    &&& (j - i > 1 ==> s[i] != '0')
    &&& digits_val(s, i, j) <= u64::MAX
}

/// Whether `s` has the shape `major.minor.patch` with well-formed components.
pub open spec fn version_shape(s: Seq<char>) -> bool {
    let e1 = num_end(s, 0);
    let e2 = num_end(s, e1 + 1);
    let e3 = num_end(s, e2 + 1);
    &&& e1 < s.len() && s[e1] == '.'
    &&& e2 < s.len() && s[e2] == '.'
    &&& e3 == s.len()
    &&& is_num_component(s, 0, e1)
    &&& is_num_component(s, e1 + 1, e2)
    &&& is_num_component(s, e2 + 1, e3)
}

/// The version a well-shaped string denotes.
pub open spec fn spec_version_of(s: Seq<char>) -> Version {
    let e1 = num_end(s, 0);
    let e2 = num_end(s, e1 + 1);
    let e3 = num_end(s, e2 + 1);
    Version {
        major: digits_val(s, 0, e1) as u64,
        minor: digits_val(s, e1 + 1, e2) as u64,
        patch: digits_val(s, e2 + 1, e3) as u64,
    }
}

/// Whether a character is a decimal digit.
fn is_digit_char(c: char) -> (r: bool)
    ensures
        r == is_digit(c),
{
    '0' <= c && c <= '9'
}

/// The first index at or after `from` that does not hold a digit.
fn scan_digits(s: &str, from: usize) -> (r: usize)
    requires
        from <= s@.len(),
    ensures
        r == num_end(s@, from as int),
        from <= r <= s@.len(),
{
    let len = s.unicode_len();
    let mut j = from;
    while j < len && is_digit_char(s.get_char(j))
        invariant
            from <= j <= len,
            len == s@.len(),
            num_end(s@, from as int) == num_end(s@, j as int),
        decreases len - j,
    {
        assert(num_end(s@, j as int) == num_end(s@, j + 1));
        j += 1;
    }
    proof {
        lemma_num_end(s@, from as int);
    }
    j
}

/// Parse the digit run `s[i..j]` as one numeric component.
fn parse_component(s: &str, i: usize, j: usize) -> (r: Result<u64, ParseError>)
    requires
        i <= j <= s@.len(),
        forall|k: int| i <= k < j ==> is_digit(s@[k]),
    ensures
        is_num_component(s@, i as int, j as int) ==> r == Ok::<u64, ParseError>(
            digits_val(s@, i as int, j as int) as u64,
        ),
        !is_num_component(s@, i as int, j as int) ==> r is Err,
{
    if i == j {
        return Err(ParseError);
    }
    if j - i > 1 && s.get_char(i) == '0' {
        return Err(ParseError);
    }
    let mut acc: u64 = 0;
    let mut k = i;
    while k < j
        invariant
            i <= k <= j <= s@.len(),
            forall|m: int| i <= m < j ==> is_digit(s@[m]),
            acc == digits_val(s@, i as int, k as int),
        decreases j - k,
    {
        let c = s.get_char(k);
        let d: u64 = (c as u32 as u64) - ('0' as u32 as u64);
        let next = match acc.checked_mul(10) {
            Some(t) => t.checked_add(d),
            None => None,
        };
        proof {
            lemma_digits_val_mono(s@, i as int, k + 1, j as int);
        }
        match next {
            Some(v) => {
                acc = v;
            },
            None => {
                assert(digits_val(s@, i as int, k + 1) > u64::MAX);
                return Err(ParseError);
            },
        }
        k += 1;
    }
    Ok(acc)
}

/// Parse a concrete version string of the shape `major.minor.patch`.
pub fn parse_version(s: &str) -> (r: Result<Version, ParseError>)
    ensures
        version_shape(s@) ==> r == Ok::<Version, ParseError>(spec_version_of(s@)),
        !version_shape(s@) ==> r is Err,
{
    let len = s.unicode_len();
    let e1 = scan_digits(s, 0);
    if e1 >= len || s.get_char(e1) != '.' {
        return Err(ParseError);
    }
    let e2 = scan_digits(s, e1 + 1);
    if e2 >= len || s.get_char(e2) != '.' {
        return Err(ParseError);
    }
    let e3 = scan_digits(s, e2 + 1);
    if e3 != len {
        return Err(ParseError);
    }
    proof {
        lemma_num_end(s@, 0);
        lemma_num_end(s@, e1 + 1);
        lemma_num_end(s@, e2 + 1);
    }
    let major = match parse_component(s, 0, e1) {
        Ok(v) => v,
        Err(e) => {
            return Err(e);
        },
    };
    let minor = match parse_component(s, e1 + 1, e2) {
        Ok(v) => v,
        Err(e) => {
            return Err(e);
        },
    };
    let patch = match parse_component(s, e2 + 1, e3) {
        Ok(v) => v,
        Err(e) => {
            return Err(e);
        },
    };
    Ok(Version { major, minor, patch })
}

/// Whether two string slices hold the same characters.
pub fn str_eq(a: &str, b: &str) -> (r: bool)
    ensures
        r == (a@ == b@),
{
    let alen = a.unicode_len();
    let blen = b.unicode_len();
    if alen != blen {
        return false;
    }
    let mut i: usize = 0;
    while i < alen
        invariant
            0 <= i <= alen,
            alen == a@.len(),
            alen == b@.len(),
            forall|j: int| 0 <= j < i ==> a@[j] == b@[j],
        decreases alen - i,
    {
        if a.get_char(i) != b.get_char(i) {
            return false;
        }
        i += 1;
    }
    proof {
        assert(a@ =~= b@);
    }
    true
}

/// The identifier a string denotes: symbolic names first, then the
/// concrete grammar.
pub open spec fn spec_parse_id(s: Seq<char>) -> Option<VersionId> {
    if s == "nightly"@ {
        Some(VersionId::Nightly)
    } else if s == "stable"@ {
        Some(VersionId::Stable)
    } else if version_shape(s) {
        Some(VersionId::Concrete(spec_version_of(s)))
    } else {
        None
    }
}

/// Parse a toolchain identifier.
pub fn parse_version_id(s: &str) -> (r: Result<VersionId, ParseError>)
    ensures
        match spec_parse_id(s@) {
            Some(id) => r == Ok::<VersionId, ParseError>(id),
            None => r is Err,
        },
{
    if str_eq(s, "nightly") {
        Ok(VersionId::Nightly)
    } else if str_eq(s, "stable") {
        Ok(VersionId::Stable)
    } else {
        match parse_version(s) {
            Ok(v) => Ok(VersionId::Concrete(v)),
            Err(e) => Err(e),
        }
    }
}

/// The concrete version an identifier stands for, given the resolved
/// stable version. `Nightly` never reaches a comparison by value, so any
/// value serves for it.
pub open spec fn resolve_id(id: VersionId, stable: Version) -> Version {
    match id {
        VersionId::Concrete(v) => v,
        VersionId::Stable => stable,
        VersionId::Nightly => stable,
    }
}

/// Order on identifiers: nightly above everything, stable substituted,
/// concrete versions by their components.
pub open spec fn spec_id_geq(a: VersionId, b: VersionId, stable: Version) -> bool {
    if a is Nightly {
        true
    } else if b is Nightly {
        false
    } else {
        spec_version_geq(resolve_id(a, stable), resolve_id(b, stable))
    }
}

/// What comparing two version strings yields: `None` is a parse error.
/// The symbolic name `"nightly"` decides the comparison before either
/// side is parsed.
pub open spec fn spec_versions_geq(v1: Seq<char>, v2: Seq<char>, stable: Version) -> Option<
    bool,
> {
    if v1 == "nightly"@ {
        Some(true)
    } else if v2 == "nightly"@ {
        Some(false)
    } else {
        match (spec_parse_id(v1), spec_parse_id(v2)) {
            (Some(a), Some(b)) => Some(spec_id_geq(a, b, stable)),
            _ => None,
        }
    }
}

/// Whether toolchain name `v1` is greater or equal to `v2`, with
/// `"nightly"` seen as the highest possible version and `"stable"`
/// standing for the resolved stable version.
pub fn versions_geq(v1: &str, v2: &str, stable: &Version) -> (r: Result<bool, ParseError>)
    ensures
        match spec_versions_geq(v1@, v2@, *stable) {
            Some(b) => r == Ok::<bool, ParseError>(b),
            None => r is Err,
        },
{
    if str_eq(v1, "nightly") {
        return Ok(true);
    }
    if str_eq(v2, "nightly") {
        return Ok(false);
    }
    let a = match parse_version_id(v1) {
        Ok(id) => id,
        Err(e) => {
            return Err(e);
        },
    };
    let b = match parse_version_id(v2) {
        Ok(id) => id,
        Err(e) => {
            return Err(e);
        },
    };
    let va = match a {
        VersionId::Concrete(v) => v,
        VersionId::Stable => *stable,
        VersionId::Nightly => *stable,
    };
    let vb = match b {
        VersionId::Concrete(v) => v,
        VersionId::Stable => *stable,
        VersionId::Nightly => *stable,
    };
    Ok(va.geq(&vb))
}

/// A well-shaped concrete version string is not a symbolic name.
pub proof fn lemma_shape_not_symbolic(s: Seq<char>)
    requires
        version_shape(s),
    ensures
        s != "nightly"@,
        s != "stable"@,
{
    reveal_strlit("nightly");
    reveal_strlit("stable");
    let e1 = num_end(s, 0);
    lemma_num_end(s, 0);
    if s == "nightly"@ {
        assert(!is_digit(s[0]));
        assert(e1 == 0);
        assert(s[0] == '.');
        assert(false);
    }
    if s == "stable"@ {
        assert(!is_digit(s[0]));
        assert(e1 == 0);
        assert(s[0] == '.');
        assert(false);
    }
}

/// For concrete (non-symbolic) version strings, the comparison agrees
/// with the semantic-version order on their parsed components.
pub proof fn lemma_geq_agrees_with_semver(a: Seq<char>, b: Seq<char>, stable: Version)
    requires
        version_shape(a),
        version_shape(b),
    ensures
        spec_versions_geq(a, b, stable) == Some(
            spec_version_geq(spec_version_of(a), spec_version_of(b)),
        ),
{
    lemma_shape_not_symbolic(a);
    lemma_shape_not_symbolic(b);
}

/// `"nightly"` is greater or equal to every identifier, even one that
/// does not parse.
pub proof fn lemma_nightly_top(x: Seq<char>, stable: Version)
    ensures
        spec_versions_geq("nightly"@, x, stable) == Some(true),
{
}

/// No identifier other than `"nightly"` itself is greater or equal to
/// `"nightly"`: the comparison yields `false` whenever it yields at all,
/// and it yields `false` for every `x` that is not `"nightly"`.
pub proof fn lemma_nothing_above_nightly(x: Seq<char>, stable: Version)
    requires
        x != "nightly"@,
    ensures
        spec_versions_geq(x, "nightly"@, stable) == Some(false),
{
}

} // verus!

//! The test matrix: for each declared toolchain version, the ordered list
//! of feature combinations to run under it.
//!
//! A feature is eligible for a toolchain when it declares no minimum
//! version, or when the toolchain's name compares greater-or-equal to the
//! declared minimum. The combinations for a toolchain are exactly the
//! power set of its eligible features, enumerated in binary-counting
//! order: the combination at index `i` holds the `j`-th eligible feature
//! exactly when bit `j` of `i` is set.

use vstd::prelude::*;

use crate::config::{feature_views, Config, Feature, FeatureView, RustVersion, RustVersionView};
use crate::version::{spec_versions_geq, versions_geq, ParseError, Version};

verus! {

/// Whether a feature may be enabled under the named toolchain.
pub open spec fn feature_eligible(f: FeatureView, rust_name: Seq<char>, stable: Version) -> bool {
    match f.min_rust {
        None => true,
        Some(m) => spec_versions_geq(rust_name, m, stable) == Some(true),
    }
}

/// Whether eligibility can be decided at all: a feature whose minimum
/// version cannot be compared against the toolchain is a parse error.
pub open spec fn feature_decidable(f: FeatureView, rust_name: Seq<char>, stable: Version) -> bool {
    match f.min_rust {
        None => true,
        Some(m) => spec_versions_geq(rust_name, m, stable) is Some,
    }
}

/// The declared features eligible for a toolchain, in declaration order.
pub open spec fn eligible_of(fs: Seq<FeatureView>, rust_name: Seq<char>, stable: Version) -> Seq<
    FeatureView,
>
    decreases fs.len(),
{
    if fs.len() == 0 {
        Seq::empty()
    } else {
        let rest = eligible_of(fs.drop_last(), rust_name, stable);
        if feature_eligible(fs.last(), rust_name, stable) {
            rest.push(fs.last())
        } else {
            rest
        }
    }
}

/// The power set of `s`, in binary-counting order: the subset without
/// `s.last()` at index `i` is followed, `pow2(len - 1)` places later, by
/// the same subset with `s.last()` appended.
pub open spec fn spec_powerset(s: Seq<FeatureView>) -> Seq<Seq<FeatureView>>
    decreases s.len(),
{
    if s.len() == 0 {
        seq![Seq::<FeatureView>::empty()]
    } else {
        let p = spec_powerset(s.drop_last());
        p + p.map_values(|t: Seq<FeatureView>| t.push(s.last()))
    }
}

pub open spec fn pow2(n: nat) -> nat
    decreases n,
{
    if n == 0 {
        1
    } else {
        2 * pow2((n - 1) as nat)
    }
}

/// The power set of `k` features has `2^k` elements.
pub proof fn lemma_powerset_len(s: Seq<FeatureView>)
    ensures
        spec_powerset(s).len() == pow2(s.len()),
    decreases s.len(),
{
    if s.len() > 0 {
        lemma_powerset_len(s.drop_last());
    }
}

/// The subset of `s` selected by the boolean mask `m`.
pub open spec fn mask_subset(s: Seq<FeatureView>, m: Seq<bool>) -> Seq<FeatureView>
    recommends
        m.len() == s.len(),
    decreases s.len(),
{
    if s.len() == 0 {
        Seq::empty()
    } else {
        let rest = mask_subset(s.drop_last(), m.drop_last());
        if m.len() == s.len() && m.last() {
            rest.push(s.last())
        } else {
            rest
        }
    }
}

/// The position at which the subset selected by `m` stands in the
/// binary-counting enumeration: the integer whose `j`-th bit is `m[j]`.
pub open spec fn mask_index(m: Seq<bool>) -> nat
    decreases m.len(),
{
    if m.len() == 0 {
        0
    } else {
        mask_index(m.drop_last()) + if m.last() {
            pow2((m.len() - 1) as nat)
        } else {
            0
        }
    }
}

pub proof fn lemma_mask_index_bound(m: Seq<bool>)
    ensures
        mask_index(m) < pow2(m.len()),
    decreases m.len(),
{
    if m.len() > 0 {
        lemma_mask_index_bound(m.drop_last());
    }
}

/// Completeness of the enumeration: every subset of `s` (selected by any
/// mask `m`) appears in the power set, at index `mask_index(m)`.
pub proof fn lemma_powerset_complete(s: Seq<FeatureView>, m: Seq<bool>)
    requires
        m.len() == s.len(),
    ensures
        mask_index(m) < spec_powerset(s).len(),
        spec_powerset(s)[mask_index(m) as int] == mask_subset(s, m),
    decreases s.len(),
{
    lemma_powerset_len(s);
    lemma_mask_index_bound(m);
    if s.len() > 0 {
        let p = spec_powerset(s.drop_last());
        lemma_powerset_len(s.drop_last());
        lemma_mask_index_bound(m.drop_last());
        lemma_powerset_complete(s.drop_last(), m.drop_last());
        if m.last() {
            assert(spec_powerset(s)[mask_index(m) as int] == p.map_values(
                |t: Seq<FeatureView>| t.push(s.last()),
            )[mask_index(m.drop_last()) as int]);
        }
    }
}

/// Soundness of the enumeration: every entry of the power set is the
/// subset selected by some mask, namely the one whose index it stands at.
pub proof fn lemma_powerset_sound(s: Seq<FeatureView>, i: int)
    requires
        0 <= i < spec_powerset(s).len(),
    ensures
        exists|m: Seq<bool>|
            m.len() == s.len() && mask_index(m) == i && spec_powerset(s)[i] == mask_subset(s, m),
    decreases s.len(),
{
    lemma_powerset_len(s);
    if s.len() == 0 {
        let m = Seq::<bool>::empty();
        assert(m.len() == s.len() && mask_index(m) == i && spec_powerset(s)[i] == mask_subset(
            s,
            m,
        ));
    } else {
        let p = spec_powerset(s.drop_last());
        lemma_powerset_len(s.drop_last());
        let half = pow2((s.len() - 1) as nat) as int;
        if i < half {
            lemma_powerset_sound(s.drop_last(), i);
            let m0 = choose|m0: Seq<bool>|
                m0.len() == s.drop_last().len() && mask_index(m0) == i && spec_powerset(
                    s.drop_last(),
                )[i] == mask_subset(s.drop_last(), m0);
            let m = m0.push(false);
            assert(m.drop_last() =~= m0);
            assert(m.len() == s.len() && mask_index(m) == i && spec_powerset(s)[i] == mask_subset(
                s,
                m,
            ));
        } else {
            lemma_powerset_sound(s.drop_last(), i - half);
            let m0 = choose|m0: Seq<bool>|
                m0.len() == s.drop_last().len() && mask_index(m0) == i - half && spec_powerset(
                    s.drop_last(),
                )[i - half] == mask_subset(s.drop_last(), m0);
            let m = m0.push(true);
            assert(m.drop_last() =~= m0);
            assert(spec_powerset(s)[i] == p.map_values(|t: Seq<FeatureView>| t.push(s.last()))[i
                - half]);
            assert(m.len() == s.len() && mask_index(m) == i && spec_powerset(s)[i] == mask_subset(
                s,
                m,
            ));
        }
    }
}

/// The sequence of views of a list of feature combinations.
pub open spec fn combo_views(s: Seq<Vec<Feature>>) -> Seq<Seq<FeatureView>> {
    s.map_values(|c: Vec<Feature>| feature_views(c@))
}

/// Copy one feature combination.
fn clone_features(v: &Vec<Feature>) -> (r: Vec<Feature>)
    ensures
        feature_views(r@) == feature_views(v@),
{
    let mut out: Vec<Feature> = Vec::new();
    let mut i: usize = 0;
    while i < v.len()
        invariant
            i <= v.len(),
            out@.len() == i,
            forall|j: int| 0 <= j < i ==> out@[j]@ == v@[j]@,
        decreases v.len() - i,
    {
        out.push(v[i].clone());
        i += 1;
    }
    proof {
        assert(feature_views(out@) =~= feature_views(v@));
    }
    out
}

/// Enumerate every subset of `fs`, in binary-counting order.
pub fn powerset(fs: &Vec<Feature>) -> (r: Vec<Vec<Feature>>)
    ensures
        combo_views(r@) == spec_powerset(feature_views(fs@)),
{
    let mut r: Vec<Vec<Feature>> = Vec::new();
    r.push(Vec::new());
    proof {
        assert(combo_views(r@) =~~= spec_powerset(feature_views(fs@.subrange(0, 0))));
    }
    let mut idx: usize = 0;
    while idx < fs.len()
        invariant
            idx <= fs.len(),
            combo_views(r@) == spec_powerset(feature_views(fs@.subrange(0, idx as int))),
        decreases fs.len() - idx,
    {
        let ghost p = spec_powerset(feature_views(fs@.subrange(0, idx as int)));
        let ghost fv = fs@[idx as int]@;
        let n = r.len();
        let mut i: usize = 0;
        while i < n
            invariant
                i <= n,
                r@.len() == n + i,
                combo_views(r@).subrange(0, n as int) =~= p,
                n == p.len(),
                fv == fs@[idx as int]@,
                idx < fs@.len(),
                forall|j: int| 0 <= j < i ==> combo_views(r@)[n + j] == p[j].push(fv),
            decreases n - i,
        {
            let mut t = clone_features(&r[i]);
            t.push(fs[idx].clone());
            proof {
                assert(feature_views(t@) =~= p[i as int].push(fv));
            }
            r.push(t);
            i += 1;
        }
        proof {
            let s1 = feature_views(fs@.subrange(0, idx + 1));
            assert(s1.drop_last() =~= feature_views(fs@.subrange(0, idx as int)));
            assert(s1.last() == fv);
            assert(combo_views(r@) =~= p + p.map_values(|t: Seq<FeatureView>| t.push(fv)));
            assert(spec_powerset(s1) == p + p.map_values(
                |t: Seq<FeatureView>| t.push(s1.last()),
            ));
        }
        idx += 1;
    }
    proof {
        assert(fs@.subrange(0, fs@.len() as int) =~= fs@);
    }
    r
}

/// Keep the features eligible for the named toolchain; a minimum version
/// that cannot be compared is a parse error.
pub fn filter_eligible(features: &Vec<Feature>, rust_name: &str, stable: &Version) -> (r: Result<
    Vec<Feature>,
    ParseError,
>)
    ensures
        (forall|j: int|
            0 <= j < features@.len() ==> feature_decidable(
                features@[j]@,
                rust_name@,
                *stable,
            )) <==> r is Ok,
        r is Ok ==> feature_views(r->Ok_0@) == eligible_of(
            feature_views(features@),
            rust_name@,
            *stable,
        ),
{
    let mut out: Vec<Feature> = Vec::new();
    let mut i: usize = 0;
    while i < features.len()
        invariant
            i <= features.len(),
            forall|j: int| 0 <= j < i ==> feature_decidable(features@[j]@, rust_name@, *stable),
            feature_views(out@) == eligible_of(
                feature_views(features@.subrange(0, i as int)),
                rust_name@,
                *stable,
            ),
        decreases features.len() - i,
    {
        let f = &features[i];
        let keep = match &f.min_rust {
            None => true,
            Some(m) => {
                match versions_geq(rust_name, m.as_str(), stable) {
                    Ok(b) => b,
                    Err(e) => {
                        return Err(e);
                    },
                }
            },
        };
        if keep {
            out.push(f.clone());
        }
        proof {
            let pre = feature_views(features@.subrange(0, i as int));
            let cur = feature_views(features@.subrange(0, i + 1));
            assert(cur.drop_last() =~= pre);
            assert(cur.last() == features@[i as int]@);
            if keep {
                assert(feature_views(out@) =~= eligible_of(pre, rust_name@, *stable).push(
                    features@[i as int]@,
                ));
            }
        }
        i += 1;
    }
    proof {
        assert(features@.subrange(0, features@.len() as int) =~= features@);
    }
    Ok(out)
}

/// One toolchain's slot in the matrix: the toolchain and its ordered
/// feature combinations.
pub struct MatrixEntry {
    pub rust: RustVersion,
    pub feature_sets: Vec<Vec<Feature>>,
}

pub ghost struct MatrixEntryView {
    pub rust: RustVersionView,
    pub feature_sets: Seq<Seq<FeatureView>>,
}

impl View for MatrixEntry {
    type V = MatrixEntryView;

    open spec fn view(&self) -> MatrixEntryView {
        MatrixEntryView { rust: self.rust@, feature_sets: combo_views(self.feature_sets@) }
    }
}

pub open spec fn entry_views(s: Seq<MatrixEntry>) -> Seq<MatrixEntryView> {
    s.map_values(|e: MatrixEntry| e@)
}

/// What the generated matrix must be: one entry per declared toolchain,
/// in declaration order, holding exactly the power set of that
/// toolchain's eligible features.
pub open spec fn matrix_ok(
    entries: Seq<MatrixEntryView>,
    features: Seq<FeatureView>,
    rusts: Seq<RustVersionView>,
    stable: Version,
) -> bool {
    &&& entries.len() == rusts.len()
    &&& forall|i: int|
        0 <= i < rusts.len() ==> entries[i].rust == rusts[i] && entries[i].feature_sets
            == spec_powerset(eligible_of(features, rusts[i].name, stable))
}

/// Whether every (toolchain, feature minimum) pair in the configuration
/// can be compared.
pub open spec fn config_decidable(
    features: Seq<FeatureView>,
    rusts: Seq<RustVersionView>,
    stable: Version,
) -> bool {
    forall|i: int, j: int|
        0 <= i < rusts.len() && 0 <= j < features.len() ==> feature_decidable(
            features[j],
            rusts[i].name,
            stable,
        )
}

/// Generate the test matrix for a configuration, given the resolved
/// stable version. Fails exactly when some feature's minimum version
/// cannot be compared against some toolchain's name.
pub fn gen_test_matrix(cfg: &Config, stable: &Version) -> (r: Result<Vec<MatrixEntry>, ParseError>)
    ensures
        config_decidable(cfg@.features, cfg@.rust, *stable) <==> r is Ok,
        r is Ok ==> matrix_ok(entry_views(r->Ok_0@), cfg@.features, cfg@.rust, *stable),
{
    let mut entries: Vec<MatrixEntry> = Vec::new();
    let mut i: usize = 0;
    while i < cfg.rust.len()
        invariant
            i <= cfg.rust.len(),
            entries@.len() == i,
            forall|k: int, j: int|
                0 <= k < i && 0 <= j < cfg@.features.len() ==> feature_decidable(
                    cfg@.features[j],
                    cfg@.rust[k].name,
                    *stable,
                ),
            forall|k: int|
                0 <= k < i ==> entries@[k]@.rust == cfg@.rust[k] && entries@[k]@.feature_sets
                    == spec_powerset(eligible_of(cfg@.features, cfg@.rust[k].name, *stable)),
        decreases cfg.rust.len() - i,
    {
        let rust = &cfg.rust[i];
        let eligible = match filter_eligible(&cfg.features, rust.name.as_str(), stable) {
            Ok(v) => v,
            Err(e) => {
                proof {
                    let j = choose|j: int|
                        0 <= j < cfg.features@.len() && !feature_decidable(
                            cfg.features@[j]@,
                            rust.name@,
                            *stable,
                        );
                    assert(!feature_decidable(cfg@.features[j], cfg@.rust[i as int].name, *stable));
                }
                return Err(e);
            },
        };
        let sets = powerset(&eligible);
        entries.push(MatrixEntry { rust: rust.clone(), feature_sets: sets });
        i += 1;
    }
    Ok(entries)
}

} // verus!

//! The run configuration: the project location, the declared features and
//! toolchain versions, the concurrency bound, and the optional fuzzing
//! campaign. A configuration is produced by an external loader and is
//! immutable for the lifetime of a run.

use vstd::prelude::*;

verus! {

/// An optional capability of the project: a name, and the least toolchain
/// version (if any) under which it may be enabled.
pub struct Feature {
    pub name: String,
    pub min_rust: Option<String>,
}

pub ghost struct FeatureView {
    pub name: Seq<char>,
    pub min_rust: Option<Seq<char>>,
}

impl View for Feature {
    type V = FeatureView;

    open spec fn view(&self) -> FeatureView {
        FeatureView {
            name: self.name@,
            min_rust: match self.min_rust {
                Some(ref s) => Some(s@),
                None => None,
            },
        }
    }
}

impl Clone for Feature {
    fn clone(&self) -> (r: Self)
        ensures
            r@ == self@,
    {
        Feature {
            name: self.name.clone(),
            min_rust: match &self.min_rust {
                Some(s) => Some(s.clone()),
                None => None,
            },
        }
    }
}

/// A transitive dependency forced to an exact version before testing
/// under a toolchain.
pub struct VersionPin {
    pub dependency: String,
    pub version: String,
}

pub ghost struct VersionPinView {
    pub dependency: Seq<char>,
    pub version: Seq<char>,
}

impl View for VersionPin {
    type V = VersionPinView;

    open spec fn view(&self) -> VersionPinView {
        VersionPinView { dependency: self.dependency@, version: self.version@ }
    }
}

impl Clone for VersionPin {
    fn clone(&self) -> (r: Self)
        ensures
            r@ == self@,
    {
        VersionPin { dependency: self.dependency.clone(), version: self.version.clone() }
    }
}

pub open spec fn pin_views(s: Seq<VersionPin>) -> Seq<VersionPinView> {
    s.map_values(|p: VersionPin| p@)
}

/// A declared toolchain version: its name (concrete or symbolic) and the
/// dependency pins it requires.
pub struct RustVersion {
    pub name: String,
    pub requires_pinning: Vec<VersionPin>,
}

pub ghost struct RustVersionView {
    pub name: Seq<char>,
    pub requires_pinning: Seq<VersionPinView>,
}

impl View for RustVersion {
    type V = RustVersionView;

    open spec fn view(&self) -> RustVersionView {
        RustVersionView { name: self.name@, requires_pinning: pin_views(self.requires_pinning@) }
    }
}

impl Clone for RustVersion {
    fn clone(&self) -> (r: Self)
        ensures
            r@ == self@,
    {
        let mut pins: Vec<VersionPin> = Vec::new();
        let mut i: usize = 0;
        while i < self.requires_pinning.len()
            invariant
                i <= self.requires_pinning.len(),
                pins@.len() == i,
                forall|j: int| 0 <= j < i ==> pins@[j]@ == self.requires_pinning@[j]@,
            decreases self.requires_pinning.len() - i,
        {
            pins.push(self.requires_pinning[i].clone());
            i += 1;
        }
        proof {
            assert(pin_views(pins@) =~= pin_views(self.requires_pinning@));
        }
        RustVersion { name: self.name.clone(), requires_pinning: pins }
    }
}

/// The optional randomized-input campaign: where the fuzzing crate lives
/// relative to the project, which toolchain runs it, and for how long.
pub struct Fuzzing {
    pub rel_path: String,
    pub rust: String,
    pub duration_s: u64,
}

pub ghost struct FuzzingView {
    pub rel_path: Seq<char>,
    pub rust: Seq<char>,
    pub duration_s: u64,
}

impl View for Fuzzing {
    type V = FuzzingView;

    open spec fn view(&self) -> FuzzingView {
        FuzzingView { rel_path: self.rel_path@, rust: self.rust@, duration_s: self.duration_s }
    }
}

impl Clone for Fuzzing {
    fn clone(&self) -> (r: Self)
        ensures
            r@ == self@,
    {
        Fuzzing {
            rel_path: self.rel_path.clone(),
            rust: self.rust.clone(),
            duration_s: self.duration_s,
        }
    }
}

pub open spec fn feature_views(s: Seq<Feature>) -> Seq<FeatureView> {
    s.map_values(|f: Feature| f@)
}

pub open spec fn rust_views(s: Seq<RustVersion>) -> Seq<RustVersionView> {
    s.map_values(|r: RustVersion| r@)
}

/// The whole run configuration.
pub struct Config {
    pub repo: String,
    pub features: Vec<Feature>,
    pub rust: Vec<RustVersion>,
    pub par: usize,
    pub fuzzing: Option<Fuzzing>,
}

pub ghost struct ConfigView {
    pub repo: Seq<char>,
    pub features: Seq<FeatureView>,
    pub rust: Seq<RustVersionView>,
    pub par: usize,
    pub fuzzing: Option<FuzzingView>,
}

impl View for Config {
    type V = ConfigView;

    open spec fn view(&self) -> ConfigView {
        ConfigView {
            repo: self.repo@,
            features: feature_views(self.features@),
            rust: rust_views(self.rust@),
            par: self.par,
            fuzzing: match self.fuzzing {
                Some(ref f) => Some(f@),
                None => None,
            },
        }
    }
}

} // verus!

//! Core data model: installed-package records and per-package update outcomes,
//! together with the process-wide constants of the update flow.

use vstd::prelude::*;

use crate::text::contains_seq;
use crate::text::contains_sub;
use crate::text::str_eq;

verus! {

/// Keywords whose presence (case-sensitive substring) marks a version string
/// as a prerelease. Shared by the stability check and the prerelease check so
/// the two can never disagree.
pub open spec fn spec_prerelease_keywords() -> Seq<Seq<char>> {
    seq![
        seq!['a', 'l', 'p', 'h', 'a'],
        seq!['b', 'e', 't', 'a'],
        seq!['r', 'c'],
    ]
}

/// Upper bound on upgrade attempts for one package.
pub const MAX_RETRY_ATTEMPTS: u32 = 3;

/// Delay between two upgrade attempts, in milliseconds.
pub const RETRY_DELAY_MS: u64 = 2000;

/// Settle delay after a reported-successful install, before the installed
/// version is probed again, in milliseconds.
pub const VERSION_UPDATE_DELAY_MS: u64 = 1000;

/// Tick interval of the spinner shown while an upgrade runs, in milliseconds.
pub const PROGRESS_TICK_MS: u64 = 100;

/// Width of the overall progress bar, in columns.
pub const PROGRESS_BAR_WIDTH: usize = 40;

/// One globally installed package: its name, the version found installed, and
/// the latest version the registry reported (filled in after creation).
pub struct PackageInfo {
    pub name: String,
    pub current_version: Option<String>,
    pub latest_version: Option<String>,
}

/// Mathematical image of a `PackageInfo`: the same three fields as character
/// sequences.
pub struct PackageView {
    pub name: Seq<char>,
    pub current_version: Option<Seq<char>>,
    pub latest_version: Option<Seq<char>>,
}

pub open spec fn view_opt_string(o: Option<String>) -> Option<Seq<char>> {
    match o {
        Some(s) => Some(s@),
        None => None,
    }
}

impl View for PackageInfo {
    type V = PackageView;

    open spec fn view(&self) -> PackageView {
        PackageView {
            name: self.name@,
            current_version: view_opt_string(self.current_version),
            latest_version: view_opt_string(self.latest_version),
        }
    }
}

/// Terminal outcome of running the update executor for one package.
pub struct UpdateResult {
    pub package_name: String,
    pub old_version: Option<String>,
    pub new_version: Option<String>,
    pub success: bool,
}

/// Mathematical image of an `UpdateResult`.
pub struct UpdateResultView {
    pub package_name: Seq<char>,
    pub old_version: Option<Seq<char>>,
    pub new_version: Option<Seq<char>>,
    pub success: bool,
}

impl View for UpdateResult {
    type V = UpdateResultView;

    open spec fn view(&self) -> UpdateResultView {
        UpdateResultView {
            package_name: self.package_name@,
            old_version: view_opt_string(self.old_version),
            new_version: view_opt_string(self.new_version),
            success: self.success,
        }
    }
}

/// Clones an optional owned string, preserving the value exactly.
pub fn clone_opt_string(o: &Option<String>) -> (r: Option<String>)
    ensures
        r == *o,
{
    match o {
        Some(s) => Some(s.clone()),
        None => None,
    }
}

impl Clone for PackageInfo {
    fn clone(&self) -> (r: Self)
        ensures
            r == *self,
    {
        PackageInfo {
            name: self.name.clone(),
            current_version: clone_opt_string(&self.current_version),
            latest_version: clone_opt_string(&self.latest_version),
        }
    }
}

impl Clone for UpdateResult {
    fn clone(&self) -> (r: Self)
        ensures
            r == *self,
    {
        UpdateResult {
            package_name: self.package_name.clone(),
            old_version: clone_opt_string(&self.old_version),
            new_version: clone_opt_string(&self.new_version),
            success: self.success,
        }
    }
}

/// `v` holds one of the prerelease keywords as a substring.
pub open spec fn spec_contains_prerelease_keyword(v: Seq<char>) -> bool {
    exists|k: int|
        0 <= k < spec_prerelease_keywords().len() && contains_seq(v, spec_prerelease_keywords()[k])
}

/// Decides whether `v` holds one of the prerelease keywords. Both the
/// stability check and the prerelease check go through this one function, so
/// the keyword set cannot diverge between them.
pub fn version_has_prerelease_keyword(v: &str) -> (r: bool)
    ensures
        r == spec_contains_prerelease_keyword(v@),
{
    proof {
        reveal_strlit("alpha");
        reveal_strlit("beta");
        reveal_strlit("rc");
        assert("alpha"@ =~= spec_prerelease_keywords()[0]);
        assert("beta"@ =~= spec_prerelease_keywords()[1]);
        assert("rc"@ =~= spec_prerelease_keywords()[2]);
    }
    let r = contains_sub(v, "alpha") || contains_sub(v, "beta") || contains_sub(v, "rc");
    proof {
        if r {
            if contains_seq(v@, spec_prerelease_keywords()[0]) {
                assert(spec_contains_prerelease_keyword(v@));
            } else if contains_seq(v@, spec_prerelease_keywords()[1]) {
                assert(spec_contains_prerelease_keyword(v@));
            } else {
                assert(spec_contains_prerelease_keyword(v@));
            }
        } else {
            assert forall|k: int|
                0 <= k < spec_prerelease_keywords().len() implies !contains_seq(
                v@,
                spec_prerelease_keywords()[k],
            ) by {
                if k == 0 {
                } else if k == 1 {
                } else {
                    assert(k == 2);
                }
            }
        }
    }
    r
}

/// There is an update: both versions are known and they differ as strings.
pub open spec fn spec_has_update(p: PackageView) -> bool {
    match (p.current_version, p.latest_version) {
        (Some(c), Some(l)) => c != l,
        _ => false,
    }
}

/// The latest known version is a prerelease.
pub open spec fn spec_is_prerelease(p: PackageView) -> bool {
    match p.latest_version {
        Some(l) => spec_contains_prerelease_keyword(l),
        None => false,
    }
}

impl PackageInfo {
    /// A fresh record: the registry has not been consulted yet, so
    /// `latest_version` starts absent.
    pub fn new(name: String, current_version: Option<String>) -> (r: Self)
        ensures
            r.name == name,
            r.current_version == current_version,
            r.latest_version is None,
    {
        PackageInfo { name, current_version, latest_version: None }
    }

    /// Both versions are known and differ as plain strings; no semantic
    /// version ordering is involved.
    pub fn has_update(&self) -> (r: bool)
        ensures
            r == spec_has_update(self@),
    {
        match (&self.current_version, &self.latest_version) {
            (Some(c), Some(l)) => !str_eq(c.as_str(), l.as_str()),
            _ => false,
        }
    }

    /// The latest known version holds a prerelease keyword; an absent latest
    /// version is never a prerelease.
    pub fn is_prerelease(&self) -> (r: bool)
        ensures
            r == spec_is_prerelease(self@),
    {
        match &self.latest_version {
            Some(l) => version_has_prerelease_keyword(l.as_str()),
            None => false,
        }
    }
}

impl UpdateResult {
    pub fn new(
        package_name: String,
        old_version: Option<String>,
        new_version: Option<String>,
        success: bool,
    ) -> (r: Self)
        ensures
            r.package_name == package_name,
            r.old_version == old_version,
            r.new_version == new_version,
            r.success == success,
    {
        UpdateResult { package_name, old_version, new_version, success }
    }
}

} // verus!

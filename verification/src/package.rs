//! The inventory and registry scanners: parsing one line of "list installed"
//! output, extracting a quoted version from one line of registry search
//! output, building the deduplicated installed set, resolving the latest
//! version under the two stability policies, and filtering by name pattern.

use vstd::prelude::*;

use crate::models::spec_contains_prerelease_keyword;
use crate::models::version_has_prerelease_keyword;
use crate::models::view_opt_string;
use crate::models::PackageInfo;
use crate::models::PackageView;
use crate::text::contains_seq;
use crate::text::contains_sub;
use crate::text::find_seq;
use crate::text::lemma_find_seq_props;
use crate::text::match_at;
use crate::text::seq_views;
use crate::text::spec_split_lines;
use crate::text::spec_trim;
use crate::text::split_lines;
use crate::text::starts_with;
use crate::text::starts_with_sub;
use crate::text::str_eq;
use crate::text::trim_str;
use crate::text::find_sub;

verus! {

/// The separator between a package name and its version in a line of "list
/// installed" output: a space followed by a lowercase `v`.
pub open spec fn sep_seq() -> Seq<char> {
    seq![' ', 'v']
}

/// The token that opens a quoted version in a line of registry search
/// output.
pub open spec fn eq_quote_seq() -> Seq<char> {
    seq!['=', ' ', '"']
}

/// What parsing one line of "list installed" output yields: the line must
/// hold the name/version separator exactly once and a colon; the name is
/// everything before the separator, the version everything after it up to
/// the first colon, both trimmed and non-empty.
pub open spec fn spec_parse_line(line: Seq<char>) -> Option<(Seq<char>, Seq<char>)> {
    if !contains_seq(line, sep_seq()) || !contains_seq(line, seq![':']) {
        None
    } else {
        match find_seq(line, sep_seq()) {
            None => None,
            Some(i) => {
                let tail = line.subrange(i + 2, line.len() as int);
                if contains_seq(tail, sep_seq()) {
                    None
                } else {
                    let name = spec_trim(line.subrange(0, i));
                    let version = spec_trim(
                        match find_seq(tail, seq![':']) {
                            Some(j) => tail.subrange(0, j),
                            None => tail,
                        },
                    );
                    if name.len() == 0 || version.len() == 0 {
                        None
                    } else {
                        Some((name, version))
                    }
                }
            },
        }
    }
}

/// The view of an optional pair of owned strings.
pub open spec fn view_opt_pair(o: Option<(String, String)>) -> Option<(Seq<char>, Seq<char>)> {
    match o {
        Some(p) => Some((p.0@, p.1@)),
        None => None,
    }
}

/// Parses one line of "list installed" output into `(name, version)`.
pub fn parse_package_line(line: &str) -> (r: Option<(String, String)>)
    ensures
        view_opt_pair(r) == spec_parse_line(line@),
{
    proof {
        reveal_strlit(" v");
        reveal_strlit(":");
        assert(" v"@ =~= sep_seq());
        assert(":"@ =~= seq![':']);
    }
    if !contains_sub(line, " v") || !contains_sub(line, ":") {
        return None;
    }
    let len = line.unicode_len();
    let i = match find_sub(line, " v") {
        Some(i) => i,
        None => {
            proof {
                lemma_find_seq_props(line@, sep_seq());
            }
            return None;
        },
    };
    proof {
        lemma_find_seq_props(line@, sep_seq());
    }
    let tail = line.substring_char(i + 2, len);
    if contains_sub(tail, " v") {
        return None;
    }
    let name = trim_str(line.substring_char(0, i));
    let vpart = match find_sub(tail, ":") {
        Some(j) => {
            proof {
                lemma_find_seq_props(tail@, seq![':']);
            }
            tail.substring_char(0, j)
        },
        None => tail,
    };
    let version = trim_str(vpart);
    if name.as_str().unicode_len() == 0 || version.as_str().unicode_len() == 0 {
        return None;
    }
    Some((name, version))
}

/// What extracting a quoted version from one line yields: the text between
/// the first `= "` and the next `"` after it.
pub open spec fn spec_extract_version(line: Seq<char>) -> Option<Seq<char>> {
    match find_seq(line, eq_quote_seq()) {
        None => None,
        Some(s) => {
            let rest = line.subrange(s + 3, line.len() as int);
            match find_seq(rest, seq!['"']) {
                None => None,
                Some(e) => Some(rest.subrange(0, e)),
            }
        },
    }
}

/// Extracts the version between the first `= "` and the following `"`.
pub fn extract_version_from_line(line: &str) -> (r: Option<String>)
    ensures
        view_opt_string(r) == spec_extract_version(line@),
{
    proof {
        reveal_strlit("= \"");
        reveal_strlit("\"");
        assert("= \""@ =~= eq_quote_seq());
        assert("\""@ =~= seq!['"']);
    }
    let len = line.unicode_len();
    let s = match find_sub(line, "= \"") {
        Some(s) => s,
        None => {
            return None;
        },
    };
    proof {
        lemma_find_seq_props(line@, eq_quote_seq());
    }
    let rest = line.substring_char(s + 3, len);
    let e = match find_sub(rest, "\"") {
        Some(e) => e,
        None => {
            return None;
        },
    };
    proof {
        lemma_find_seq_props(rest@, seq!['"']);
    }
    Some(rest.substring_char(0, e).to_owned())
}

/// A stable version holds none of the prerelease keywords.
pub fn is_stable_version(version: &str) -> (r: bool)
    ensures
        r == !spec_contains_prerelease_keyword(version@),
{
    !version_has_prerelease_keyword(version)
}

/// The views of a sequence of package records.
pub open spec fn package_views(s: Seq<PackageInfo>) -> Seq<PackageView> {
    s.map_values(|p: PackageInfo| p@)
}

/// A record with this name is already present.
pub open spec fn spec_seen(acc: Seq<PackageView>, name: Seq<char>) -> bool {
    exists|k: int| 0 <= k < acc.len() && acc[k].name == name
}

/// The installed set built from the given lines, added to `acc`: each line
/// that parses contributes a record, the first line wins for each name, and
/// the latest version starts absent.
pub open spec fn spec_installed_from(lines: Seq<Seq<char>>, acc: Seq<PackageView>) -> Seq<
    PackageView,
>
    decreases lines.len(),
{
    if lines.len() == 0 {
        acc
    } else {
        let acc2 = match spec_parse_line(lines[0]) {
            Some(p) => if !spec_seen(acc, p.0) {
                acc.push(
                    PackageView { name: p.0, current_version: Some(p.1), latest_version: None },
                )
            } else {
                acc
            },
            None => acc,
        };
        spec_installed_from(lines.drop_first(), acc2)
    }
}

/// The installed set that "list installed" output describes.
pub open spec fn spec_installed_packages(text: Seq<char>) -> Seq<PackageView> {
    spec_installed_from(spec_split_lines(text), seq![])
}

/// Decides whether a record with this name is already present.
fn seen_name(packages: &Vec<PackageInfo>, name: &str) -> (r: bool)
    ensures
        r == spec_seen(package_views(packages@), name@),
{
    let mut k: usize = 0;
    while k < packages.len()
        invariant
            0 <= k <= packages@.len(),
            forall|j: int| 0 <= j < k ==> package_views(packages@)[j].name != name@,
        decreases packages@.len() - k,
    {
        if str_eq(packages[k].name.as_str(), name) {
            proof {
                assert(package_views(packages@)[k as int] == packages@[k as int]@);
                assert(spec_seen(package_views(packages@), name@));
            }
            return true;
        }
        k += 1;
    }
    false
}

/// Builds the deduplicated installed set from "list installed" output: every
/// line that parses yields a record, the first occurrence of a name wins, and
/// no latest version is known yet.
pub fn get_installed_packages(output: &str) -> (r: Vec<PackageInfo>)
    ensures
        package_views(r@) == spec_installed_packages(output@),
{
    let lines = split_lines(output);
    let mut packages: Vec<PackageInfo> = Vec::new();
    let mut idx: usize = 0;
    proof {
        assert(seq_views(lines@).subrange(0, lines@.len() as int) =~= seq_views(lines@));
        assert(package_views(packages@) =~= Seq::<PackageView>::empty());
    }
    while idx < lines.len()
        invariant
            0 <= idx <= lines@.len(),
            seq_views(lines@) == spec_split_lines(output@),
            spec_installed_from(
                seq_views(lines@).subrange(idx as int, lines@.len() as int),
                package_views(packages@),
            ) == spec_installed_packages(output@),
        decreases lines@.len() - idx,
    {
        let ghost suffix = seq_views(lines@).subrange(idx as int, lines@.len() as int);
        proof {
            assert(suffix[0] == lines@[idx as int]@);
            assert(suffix.drop_first() =~= seq_views(lines@).subrange(
                idx + 1,
                lines@.len() as int,
            ));
        }
        match parse_package_line(lines[idx].as_str()) {
            Some(nv) => {
                if !seen_name(&packages, nv.0.as_str()) {
                    let ghost acc0 = package_views(packages@);
                    let record = PackageInfo::new(nv.0, Some(nv.1));
                    packages.push(record);
                    proof {
                        assert(package_views(packages@) =~= acc0.push(record@));
                    }
                }
            },
            None => {},
        }
        idx += 1;
    }
    proof {
        assert(seq_views(lines@).subrange(lines@.len() as int, lines@.len() as int)
            =~= Seq::<Seq<char>>::empty());
    }
    packages
}

/// The version of the first line that mentions `name`, parses, and whose
/// parsed name is exactly `name`.
pub open spec fn spec_find_installed(lines: Seq<Seq<char>>, name: Seq<char>) -> Option<Seq<char>>
    decreases lines.len(),
{
    if lines.len() == 0 {
        None
    } else {
        let hit = if contains_seq(lines[0], name) {
            match spec_parse_line(lines[0]) {
                Some(p) => if p.0 == name {
                    Some(p.1)
                } else {
                    None
                },
                None => None,
            }
        } else {
            None
        };
        if hit is Some {
            hit
        } else {
            spec_find_installed(lines.drop_first(), name)
        }
    }
}

/// Scans "list installed" output for the version of `package_name`: a line
/// must mention the name and parse to exactly that name. Absence of a match
/// is not an error.
pub fn get_installed_version(output: &str, package_name: &str) -> (r: Option<String>)
    ensures
        view_opt_string(r) == spec_find_installed(spec_split_lines(output@), package_name@),
{
    let lines = split_lines(output);
    let mut idx: usize = 0;
    proof {
        assert(seq_views(lines@).subrange(0, lines@.len() as int) =~= seq_views(lines@));
    }
    while idx < lines.len()
        invariant
            0 <= idx <= lines@.len(),
            seq_views(lines@) == spec_split_lines(output@),
            spec_find_installed(spec_split_lines(output@), package_name@) == spec_find_installed(
                seq_views(lines@).subrange(idx as int, lines@.len() as int),
                package_name@,
            ),
        decreases lines@.len() - idx,
    {
        let ghost suffix = seq_views(lines@).subrange(idx as int, lines@.len() as int);
        proof {
            assert(suffix[0] == lines@[idx as int]@);
            assert(suffix.drop_first() =~= seq_views(lines@).subrange(
                idx + 1,
                lines@.len() as int,
            ));
        }
        let line = lines[idx].as_str();
        if contains_sub(line, package_name) {
            match parse_package_line(line) {
                Some(nv) => {
                    if str_eq(nv.0.as_str(), package_name) {
                        return Some(nv.1);
                    }
                },
                None => {},
            }
        }
        idx += 1;
    }
    proof {
        assert(seq_views(lines@).subrange(lines@.len() as int, lines@.len() as int)
            =~= Seq::<Seq<char>>::empty());
    }
    None
}

/// What one line of registry search output offers for a package with the
/// given prefix: its quoted version, if the line starts with the prefix and
/// holds a quote.
pub open spec fn spec_registry_line_version(l: Seq<char>, prefix: Seq<char>) -> Option<Seq<char>> {
    if starts_with(l, prefix) && contains_seq(l, seq!['"']) {
        spec_extract_version(l)
    } else {
        None
    }
}

/// First pass over the search output: the first offered version that is
/// acceptable — any version when prereleases are included, else a stable one.
/// Unacceptable versions are skipped, not returned.
pub open spec fn spec_first_pass(
    lines: Seq<Seq<char>>,
    prefix: Seq<char>,
    include_prerelease: bool,
) -> Option<Seq<char>>
    decreases lines.len(),
{
    if lines.len() == 0 {
        None
    } else {
        match spec_registry_line_version(lines[0], prefix) {
            Some(v) => if include_prerelease || !spec_contains_prerelease_keyword(v) {
                Some(v)
            } else {
                spec_first_pass(lines.drop_first(), prefix, include_prerelease)
            },
            None => spec_first_pass(lines.drop_first(), prefix, include_prerelease),
        }
    }
}

/// Second pass over the search output: the first offered version of any
/// kind.
pub open spec fn spec_any_pass(lines: Seq<Seq<char>>, prefix: Seq<char>) -> Option<Seq<char>>
    decreases lines.len(),
{
    if lines.len() == 0 {
        None
    } else {
        match spec_registry_line_version(lines[0], prefix) {
            Some(v) => Some(v),
            None => spec_any_pass(lines.drop_first(), prefix),
        }
    }
}

/// The two-pass resolution policy over registry search output: stable-only
/// callers get a genuinely stable version or nothing; prerelease-inclusive
/// callers prefer the first acceptable hit and fall back to the first hit of
/// any kind.
pub open spec fn spec_latest_version(
    text: Seq<char>,
    name: Seq<char>,
    include_prerelease: bool,
) -> Option<Seq<char>> {
    let lines = spec_split_lines(text);
    let prefix = name + seq![' ', '='];
    match spec_first_pass(lines, prefix, include_prerelease) {
        Some(v) => Some(v),
        None => if include_prerelease {
            spec_any_pass(lines, prefix)
        } else {
            None
        },
    }
}

/// The version one line of registry search output offers under this prefix.
fn registry_line_version(line: &str, prefix: &str) -> (r: Option<String>)
    ensures
        view_opt_string(r) == spec_registry_line_version(line@, prefix@),
{
    proof {
        reveal_strlit("\"");
        assert("\""@ =~= seq!['"']);
    }
    if starts_with_sub(line, prefix) && contains_sub(line, "\"") {
        extract_version_from_line(line)
    } else {
        None
    }
}

/// Resolves the latest version that registry search output reports for
/// exactly `package_name`, under the stable-only or prerelease-inclusive
/// policy.
pub fn get_latest_version(output: &str, package_name: &str, include_prerelease: bool) -> (r: Option<
    String,
>)
    ensures
        view_opt_string(r) == spec_latest_version(output@, package_name@, include_prerelease),
{
    let lines = split_lines(output);
    let mut prefix = package_name.to_owned();
    prefix.append(" =");
    proof {
        reveal_strlit(" =");
        assert(prefix@ =~= package_name@ + seq![' ', '=']);
    }
    let ghost all = seq_views(lines@);
    let mut idx: usize = 0;
    proof {
        assert(all.subrange(0, all.len() as int) =~= all);
    }
    while idx < lines.len()
        invariant
            0 <= idx <= lines@.len(),
            all == seq_views(lines@),
            all == spec_split_lines(output@),
            prefix@ == package_name@ + seq![' ', '='],
            spec_first_pass(all, prefix@, include_prerelease) == spec_first_pass(
                all.subrange(idx as int, all.len() as int),
                prefix@,
                include_prerelease,
            ),
        decreases lines@.len() - idx,
    {
        let ghost suffix = all.subrange(idx as int, all.len() as int);
        proof {
            assert(suffix[0] == lines@[idx as int]@);
            assert(suffix.drop_first() =~= all.subrange(idx + 1, all.len() as int));
        }
        match registry_line_version(lines[idx].as_str(), prefix.as_str()) {
            Some(v) => {
                if include_prerelease || is_stable_version(v.as_str()) {
                    return Some(v);
                }
            },
            None => {},
        }
        idx += 1;
    }
    proof {
        assert(all.subrange(all.len() as int, all.len() as int) =~= Seq::<Seq<char>>::empty());
    }
    if !include_prerelease {
        return None;
    }
    let mut idx2: usize = 0;
    proof {
        assert(all.subrange(0, all.len() as int) =~= all);
    }
    while idx2 < lines.len()
        invariant
            0 <= idx2 <= lines@.len(),
            all == seq_views(lines@),
            all == spec_split_lines(output@),
            prefix@ == package_name@ + seq![' ', '='],
            include_prerelease,
            spec_first_pass(all, prefix@, include_prerelease) is None,
            spec_any_pass(all, prefix@) == spec_any_pass(
                all.subrange(idx2 as int, all.len() as int),
                prefix@,
            ),
        decreases lines@.len() - idx2,
    {
        let ghost suffix = all.subrange(idx2 as int, all.len() as int);
        proof {
            assert(suffix[0] == lines@[idx2 as int]@);
            assert(suffix.drop_first() =~= all.subrange(idx2 + 1, all.len() as int));
        }
        match registry_line_version(lines[idx2].as_str(), prefix.as_str()) {
            Some(v) => {
                return Some(v);
            },
            None => {},
        }
        idx2 += 1;
    }
    proof {
        assert(all.subrange(all.len() as int, all.len() as int) =~= Seq::<Seq<char>>::empty());
    }
    None
}

/// Whether a package name matches the lowercased filter pattern: with a `*`
/// in the pattern, the name must contain the pattern with its stars removed;
/// without one, the name must contain the pattern itself.
pub open spec fn spec_name_matches(name_lower: Seq<char>, pattern_lower: Seq<char>) -> bool {
    if contains_seq(pattern_lower, seq!['*']) {
        contains_seq(name_lower, crate::text::remove_char_seq(pattern_lower, '*'))
    } else {
        contains_seq(name_lower, pattern_lower)
    }
}

/// Decides whether a lowercased name matches a lowercased pattern.
pub fn name_matches_pattern(name_lower: &str, pattern_lower: &str) -> (r: bool)
    ensures
        r == spec_name_matches(name_lower@, pattern_lower@),
{
    proof {
        reveal_strlit("*");
        assert("*"@ =~= seq!['*']);
    }
    if contains_sub(pattern_lower, "*") {
        let core = crate::text::remove_char(pattern_lower, '*');
        contains_sub(name_lower, core.as_str())
    } else {
        contains_sub(name_lower, pattern_lower)
    }
}

/// The filter predicate applied to one record: its lowercased name matches
/// the lowercased pattern.
pub open spec fn spec_keeps(p: PackageView, pattern: Seq<char>) -> bool {
    spec_name_matches(crate::text::lower_of(p.name), crate::text::lower_of(pattern))
}

/// Keeps the packages whose lowercased name matches the lowercased pattern;
/// an empty pattern keeps everything. Matching is case-insensitive and a `*`
/// in the pattern acts as a wildcard.
pub fn filter_packages(packages: &mut Vec<PackageInfo>, pattern: &str)
    ensures
        pattern@.len() == 0 ==> final(packages)@ == old(packages)@,
        pattern@.len() > 0 ==> package_views(final(packages)@) == package_views(
            old(packages)@,
        ).filter(|p: PackageView| spec_keeps(p, pattern@)),
{
    if pattern.is_empty() {
        return ;
    }
    let ghost orig = packages@;
    let ghost pred = |p: PackageView| spec_keeps(p, pattern@);
    let pattern_lower = crate::text::to_lower(pattern);
    let mut kept: Vec<PackageInfo> = Vec::new();
    let mut i: usize = 0;
    proof {
        reveal(Seq::filter);
        assert(package_views(orig.subrange(0, 0)) =~= Seq::<PackageView>::empty());
        assert(package_views(kept@) =~= package_views(orig.subrange(0, 0)).filter(pred));
    }
    while i < packages.len()
        invariant
            0 <= i <= orig.len(),
            packages@ == orig,
            pattern_lower@ == crate::text::lower_of(pattern@),
            pred == (|p: PackageView| spec_keeps(p, pattern@)),
            package_views(kept@) == package_views(orig.subrange(0, i as int)).filter(pred),
        decreases orig.len() - i,
    {
        let ghost kept0 = package_views(kept@);
        let name_lower = crate::text::to_lower(packages[i].name.as_str());
        if name_matches_pattern(name_lower.as_str(), pattern_lower.as_str()) {
            kept.push(packages[i].clone());
        }
        proof {
            reveal(Seq::filter);
            let prefix1 = package_views(orig.subrange(0, i + 1));
            assert(prefix1.drop_last() =~= package_views(orig.subrange(0, i as int)));
            assert(prefix1.last() == orig[i as int]@);
            assert(prefix1 == prefix1.drop_last().push(prefix1.last()));
            if pred(orig[i as int]@) {
                assert(package_views(kept@) =~= kept0.push(orig[i as int]@));
            } else {
                assert(package_views(kept@) =~= kept0);
            }
        }
        i += 1;
    }
    proof {
        assert(orig.subrange(0, orig.len() as int) =~= orig);
    }
    *packages = kept;
}

/// Writes each resolved latest version back into the record at the same
/// index; a lookup that produced nothing leaves its record unchanged. Names
/// and current versions are never touched.
pub fn apply_latest_versions(packages: &mut Vec<PackageInfo>, found: &Vec<Option<String>>)
    requires
        old(packages)@.len() == found@.len(),
    ensures
        final(packages)@.len() == old(packages)@.len(),
        forall|i: int|
            0 <= i < old(packages)@.len() ==> final(packages)@[i]@.name == old(
                packages,
            )@[i]@.name,
        forall|i: int|
            0 <= i < old(packages)@.len() ==> final(packages)@[i]@.current_version == old(
                packages,
            )@[i]@.current_version,
        forall|i: int|
            0 <= i < old(packages)@.len() ==> final(packages)@[i]@.latest_version == (
            match found@[i] {
                Some(v) => Some(v@),
                None => old(packages)@[i]@.latest_version,
            }),
{
    let ghost orig = packages@;
    let mut updated: Vec<PackageInfo> = Vec::new();
    let mut i: usize = 0;
    while i < packages.len()
        invariant
            0 <= i <= orig.len(),
            packages@ == orig,
            orig.len() == found@.len(),
            updated@.len() == i,
            forall|j: int| 0 <= j < i ==> updated@[j]@.name == orig[j]@.name,
            forall|j: int| 0 <= j < i ==> updated@[j]@.current_version == orig[j]@.current_version,
            forall|j: int|
                0 <= j < i ==> updated@[j]@.latest_version == (match found@[j] {
                    Some(v) => Some(v@),
                    None => orig[j]@.latest_version,
                }),
        decreases orig.len() - i,
    {
        let latest = match &found[i] {
            Some(v) => Some(v.clone()),
            None => crate::models::clone_opt_string(&packages[i].latest_version),
        };
        let record = PackageInfo {
            name: packages[i].name.clone(),
            current_version: crate::models::clone_opt_string(&packages[i].current_version),
            latest_version: latest,
        };
        updated.push(record);
        i += 1;
    }
    *packages = updated;
}

/// What the top-level prerelease probe does to one record: a candidate
/// version replaces the known latest version only when a current version is
/// known, differs from the candidate, and the candidate is itself a
/// prerelease.
pub open spec fn spec_prerelease_override(p: PackageView, cand: Option<Seq<char>>) -> Option<
    Seq<char>,
> {
    match (cand, p.current_version) {
        (Some(v), Some(c)) => if c != v && spec_contains_prerelease_keyword(v) {
            Some(v)
        } else {
            p.latest_version
        },
        _ => p.latest_version,
    }
}

/// Overrides each record's latest version with the prerelease candidate
/// found for it, where `spec_prerelease_override` says so; names and current
/// versions are never touched.
pub fn apply_prerelease_candidates(packages: &mut Vec<PackageInfo>, candidates: &Vec<Option<String>>)
    requires
        old(packages)@.len() == candidates@.len(),
    ensures
        final(packages)@.len() == old(packages)@.len(),
        forall|i: int|
            0 <= i < old(packages)@.len() ==> final(packages)@[i]@.name == old(
                packages,
            )@[i]@.name,
        forall|i: int|
            0 <= i < old(packages)@.len() ==> final(packages)@[i]@.current_version == old(
                packages,
            )@[i]@.current_version,
        forall|i: int|
            0 <= i < old(packages)@.len() ==> final(packages)@[i]@.latest_version
                == spec_prerelease_override(old(packages)@[i]@, view_opt_string(candidates@[i])),
{
    let ghost orig = packages@;
    let mut updated: Vec<PackageInfo> = Vec::new();
    let mut i: usize = 0;
    while i < packages.len()
        invariant
            0 <= i <= orig.len(),
            packages@ == orig,
            orig.len() == candidates@.len(),
            updated@.len() == i,
            forall|j: int| 0 <= j < i ==> updated@[j]@.name == orig[j]@.name,
            forall|j: int| 0 <= j < i ==> updated@[j]@.current_version == orig[j]@.current_version,
            forall|j: int|
                0 <= j < i ==> updated@[j]@.latest_version == spec_prerelease_override(
                    orig[j]@,
                    view_opt_string(candidates@[j]),
                ),
        decreases orig.len() - i,
    {
        let latest = match (&candidates[i], &packages[i].current_version) {
            (Some(v), Some(c)) => {
                if !str_eq(c.as_str(), v.as_str()) && version_has_prerelease_keyword(v.as_str()) {
                    Some(v.clone())
                } else {
                    crate::models::clone_opt_string(&packages[i].latest_version)
                }
            },
            _ => crate::models::clone_opt_string(&packages[i].latest_version),
        };
        let record = PackageInfo {
            name: packages[i].name.clone(),
            current_version: crate::models::clone_opt_string(&packages[i].current_version),
            latest_version: latest,
        };
        updated.push(record);
        i += 1;
    }
    *packages = updated;
}

/// The record belongs to the stable-update group: it has an update and the
/// latest version is stable.
pub open spec fn spec_stable_update(p: PackageView) -> bool {
    crate::models::spec_has_update(p) && match p.latest_version {
        Some(l) => !spec_contains_prerelease_keyword(l),
        None => false,
    }
}

/// The record belongs to the prerelease-update group: it has an update and
/// the latest version is a prerelease.
pub open spec fn spec_prerelease_update(p: PackageView) -> bool {
    crate::models::spec_has_update(p) && crate::models::spec_is_prerelease(p)
}

/// Splits the records into the stable-update and prerelease-update groups,
/// keeping the original relative order inside each group.
pub fn partition_packages(packages: &Vec<PackageInfo>) -> (r: (Vec<PackageInfo>, Vec<PackageInfo>))
    ensures
        package_views(r.0@) == package_views(packages@).filter(
            |p: PackageView| spec_stable_update(p),
        ),
        package_views(r.1@) == package_views(packages@).filter(
            |p: PackageView| spec_prerelease_update(p),
        ),
{
    let ghost stable_pred = |p: PackageView| spec_stable_update(p);
    let ghost pre_pred = |p: PackageView| spec_prerelease_update(p);
    let mut stable: Vec<PackageInfo> = Vec::new();
    let mut pre: Vec<PackageInfo> = Vec::new();
    let mut i: usize = 0;
    proof {
        reveal(Seq::filter);
        assert(package_views(packages@.subrange(0, 0)) =~= Seq::<PackageView>::empty());
        assert(package_views(stable@) =~= package_views(packages@.subrange(0, 0)).filter(
            stable_pred,
        ));
        assert(package_views(pre@) =~= package_views(packages@.subrange(0, 0)).filter(pre_pred));
    }
    while i < packages.len()
        invariant
            0 <= i <= packages@.len(),
            stable_pred == (|p: PackageView| spec_stable_update(p)),
            pre_pred == (|p: PackageView| spec_prerelease_update(p)),
            package_views(stable@) == package_views(packages@.subrange(0, i as int)).filter(
                stable_pred,
            ),
            package_views(pre@) == package_views(packages@.subrange(0, i as int)).filter(pre_pred),
        decreases packages@.len() - i,
    {
        let ghost stable0 = package_views(stable@);
        let ghost pre0 = package_views(pre@);
        let p = &packages[i];
        let has = p.has_update();
        if has {
            let is_stable = match &p.latest_version {
                Some(l) => is_stable_version(l.as_str()),
                None => false,
            };
            if is_stable {
                stable.push(p.clone());
            } else if p.is_prerelease() {
                pre.push(p.clone());
            }
        }
        proof {
            reveal(Seq::filter);
            let prefix1 = package_views(packages@.subrange(0, i + 1));
            assert(prefix1.drop_last() =~= package_views(packages@.subrange(0, i as int)));
            assert(prefix1.last() == packages@[i as int]@);
            assert(prefix1 == prefix1.drop_last().push(prefix1.last()));
            if stable_pred(packages@[i as int]@) {
                assert(package_views(stable@) =~= stable0.push(packages@[i as int]@));
            } else {
                assert(package_views(stable@) =~= stable0);
            }
            if pre_pred(packages@[i as int]@) {
                assert(package_views(pre@) =~= pre0.push(packages@[i as int]@));
            } else {
                assert(package_views(pre@) =~= pre0);
            }
        }
        i += 1;
    }
    proof {
        assert(packages@.subrange(0, packages@.len() as int) =~= packages@);
    }
    (stable, pre)
}

/// The two update groups are disjoint, and together they are exactly the
/// records that have an update and a known latest version.
pub proof fn lemma_partition_properties(p: PackageView)
    ensures
        !(spec_stable_update(p) && spec_prerelease_update(p)),
        (spec_stable_update(p) || spec_prerelease_update(p)) <==> (crate::models::spec_has_update(
            p,
        ) && p.latest_version is Some),
{
}

/// Over any record sequence, a record value stands in at most one of the
/// two filtered groups, and it stands in one of them exactly when it occurs
/// in the sequence, has an update, and has a known latest version.
pub proof fn lemma_partition_groups_cover(records: Seq<PackageView>, p: PackageView)
    ensures
        !(records.filter(|q: PackageView| spec_stable_update(q)).contains(p) && records.filter(
            |q: PackageView| spec_prerelease_update(q),
        ).contains(p)),
        (records.filter(|q: PackageView| spec_stable_update(q)).contains(p) || records.filter(
            |q: PackageView| spec_prerelease_update(q),
        ).contains(p)) <==> (records.contains(p) && crate::models::spec_has_update(p)
            && p.latest_version is Some),
{
    let stable_pred = |q: PackageView| spec_stable_update(q);
    let pre_pred = |q: PackageView| spec_prerelease_update(q);
    let stable = records.filter(stable_pred);
    let pre = records.filter(pre_pred);
    if stable.contains(p) {
        let i = choose|i: int| 0 <= i < stable.len() && stable[i] == p;
        records.lemma_filter_pred(stable_pred, i);
        records.lemma_filter_contains_rev(stable_pred, p);
    }
    if pre.contains(p) {
        let i = choose|i: int| 0 <= i < pre.len() && pre[i] == p;
        records.lemma_filter_pred(pre_pred, i);
        records.lemma_filter_contains_rev(pre_pred, p);
    }
    if records.contains(p) && crate::models::spec_has_update(p) && p.latest_version is Some {
        let i = choose|i: int| 0 <= i < records.len() && records[i] == p;
        if stable_pred(p) {
            records.lemma_filter_contains(stable_pred, i);
        } else {
            records.lemma_filter_contains(pre_pred, i);
        }
    }
}

/// Every line of the form `<name> v<version>:` parses back to exactly that
/// name and version, provided neither part embeds the separator, the version
/// holds no colon, and both parts are non-empty and free of surrounding
/// spaces.
pub proof fn lemma_parse_line_round_trip(name: Seq<char>, version: Seq<char>)
    requires
        name.len() > 0,
        version.len() > 0,
        !contains_seq(name, sep_seq()),
        !contains_seq(version, sep_seq()),
        !contains_seq(version, seq![':']),
        spec_trim(name) == name,
        spec_trim(version) == version,
    ensures
        spec_parse_line(name + sep_seq() + version + seq![':']) == Some((name, version)),
{
    let line = name + sep_seq() + version + seq![':'];
    let nl = name.len() as int;
    let vl = version.len() as int;
    assert(line.len() == nl + 2 + vl + 1);

    // the separator occurs where it was put ...
    assert(line.subrange(nl, nl + 2) =~= sep_seq());
    assert(match_at(line, sep_seq(), nl));

    // ... and nowhere earlier
    assert forall|j: int| 0 <= j < nl implies !match_at(line, sep_seq(), j) by {
        if match_at(line, sep_seq(), j) {
            if j + 2 <= nl {
                assert(name.subrange(j, j + 2) =~= line.subrange(j, j + 2));
                assert(match_at(name, sep_seq(), j));
            } else {
                // the supposed occurrence straddles the boundary
                assert(line[j + 1] == sep_seq()[0]);
                assert(line.subrange(j, j + 2)[1] == line[j + 1]);
            }
        }
    }

    // so the separator is found exactly at the end of the name
    lemma_find_seq_props(line, sep_seq());
    assert(contains_seq(line, sep_seq()));
    let found = find_seq(line, sep_seq());
    assert(found is Some);
    let fi = found->Some_0;
    assert(!(fi < nl) && !(fi > nl));
    assert(found == Some(nl));

    // the line ends with the colon
    assert(line.subrange(line.len() - 1, line.len() as int) =~= seq![':']);
    assert(match_at(line, seq![':'], line.len() - 1));
    assert(contains_seq(line, seq![':']));

    // after the separator stand the version and the colon, with no second
    // separator among them
    let tail = line.subrange(nl + 2, line.len() as int);
    assert(tail =~= version + seq![':']);
    assert forall|j: int| !match_at(tail, sep_seq(), j) by {
        if match_at(tail, sep_seq(), j) {
            if j + 2 <= vl {
                assert(version.subrange(j, j + 2) =~= tail.subrange(j, j + 2));
                assert(match_at(version, sep_seq(), j));
            } else {
                assert(j == vl - 1);
                assert(tail[j + 1] == ':');
                assert(tail.subrange(j, j + 2)[1] == tail[j + 1]);
            }
        }
    }
    assert(!contains_seq(tail, sep_seq()));

    // the colon is found exactly at the end of the version
    assert(tail.subrange(vl, vl + 1) =~= seq![':']);
    assert(match_at(tail, seq![':'], vl));
    assert forall|j: int| 0 <= j < vl implies !match_at(tail, seq![':'], j) by {
        if match_at(tail, seq![':'], j) {
            assert(tail.subrange(j, j + 1)[0] == tail[j]);
            assert(version.subrange(j, j + 1) =~= tail.subrange(j, j + 1));
            assert(match_at(version, seq![':'], j));
        }
    }
    lemma_find_seq_props(tail, seq![':']);
    let foundc = find_seq(tail, seq![':']);
    assert(foundc is Some);
    let fc = foundc->Some_0;
    assert(!(fc < vl) && !(fc > vl));
    assert(foundc == Some(vl));

    // both segments come back exactly, already trimmed
    assert(line.subrange(0, nl) =~= name);
    assert(tail.subrange(0, vl) =~= version);
}

/// A line without the separator or without a colon never parses.
pub proof fn lemma_parse_line_rejects(line: Seq<char>)
    requires
        !contains_seq(line, sep_seq()) || !contains_seq(line, seq![':']),
    ensures
        spec_parse_line(line) is None,
{
}

} // verus!


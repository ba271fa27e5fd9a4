//! The summary aggregator: splitting per-package outcomes into success and
//! failure groups, classifying the four old/new version combinations for
//! reporting, and building the pool of packages offered for selection.

use vstd::prelude::*;

use crate::models::view_opt_string;
use crate::models::PackageInfo;
use crate::models::UpdateResult;
use crate::models::UpdateResultView;
use crate::package::package_views;
use crate::text::str_eq;

verus! {

/// The views of a sequence of update results.
pub open spec fn result_views(s: Seq<UpdateResult>) -> Seq<UpdateResultView> {
    s.map_values(|u: UpdateResult| u@)
}

/// The four ways an old and a new version can be present around an update,
/// plus the case where neither is known.
#[derive(Clone, Copy, PartialEq, Eq, Structural, Debug)]
pub enum VersionChangeKind {
    /// Both versions known and different.
    Changed,
    /// Both versions known and equal.
    Unchanged,
    /// Only the old version is known.
    OldOnly,
    /// Only the new version is known.
    NewOnly,
    /// Neither version is known.
    Neither,
}

/// Which of the five presence combinations the two versions form.
pub open spec fn spec_version_change_kind(
    old: Option<Seq<char>>,
    new: Option<Seq<char>>,
) -> VersionChangeKind {
    match (old, new) {
        (Some(o), Some(n)) => if o != n {
            VersionChangeKind::Changed
        } else {
            VersionChangeKind::Unchanged
        },
        (Some(o), None) => VersionChangeKind::OldOnly,
        (None, Some(n)) => VersionChangeKind::NewOnly,
        (None, None) => VersionChangeKind::Neither,
    }
}

/// Classifies the old/new version pair of one update outcome.
pub fn version_change_kind(old: &Option<String>, new: &Option<String>) -> (r: VersionChangeKind)
    ensures
        r == spec_version_change_kind(view_opt_string(*old), view_opt_string(*new)),
{
    match (old, new) {
        (Some(o), Some(n)) => {
            if !str_eq(o.as_str(), n.as_str()) {
                VersionChangeKind::Changed
            } else {
                VersionChangeKind::Unchanged
            }
        },
        (Some(_), None) => VersionChangeKind::OldOnly,
        (None, Some(_)) => VersionChangeKind::NewOnly,
        (None, None) => VersionChangeKind::Neither,
    }
}

/// Splits the outcomes into the succeeded and the failed ones, keeping the
/// original relative order inside each group.
pub fn partition_update_results(results: &Vec<UpdateResult>) -> (r: (
    Vec<UpdateResult>,
    Vec<UpdateResult>,
))
    ensures
        result_views(r.0@) == result_views(results@).filter(|u: UpdateResultView| u.success),
        result_views(r.1@) == result_views(results@).filter(|u: UpdateResultView| !u.success),
{
    let ghost ok_pred = |u: UpdateResultView| u.success;
    let ghost fail_pred = |u: UpdateResultView| !u.success;
    let mut succeeded: Vec<UpdateResult> = Vec::new();
    let mut failed: Vec<UpdateResult> = Vec::new();
    let mut i: usize = 0;
    proof {
        reveal(Seq::filter);
        assert(result_views(results@.subrange(0, 0)) =~= Seq::<UpdateResultView>::empty());
        assert(result_views(succeeded@) =~= result_views(results@.subrange(0, 0)).filter(ok_pred));
        assert(result_views(failed@) =~= result_views(results@.subrange(0, 0)).filter(fail_pred));
    }
    while i < results.len()
        invariant
            0 <= i <= results@.len(),
            ok_pred == (|u: UpdateResultView| u.success),
            fail_pred == (|u: UpdateResultView| !u.success),
            result_views(succeeded@) == result_views(results@.subrange(0, i as int)).filter(
                ok_pred,
            ),
            result_views(failed@) == result_views(results@.subrange(0, i as int)).filter(
                fail_pred,
            ),
        decreases results@.len() - i,
    {
        let ghost ok0 = result_views(succeeded@);
        let ghost fail0 = result_views(failed@);
        if results[i].success {
            succeeded.push(results[i].clone());
        } else {
            failed.push(results[i].clone());
        }
        proof {
            reveal(Seq::filter);
            let prefix1 = result_views(results@.subrange(0, i + 1));
            assert(prefix1.drop_last() =~= result_views(results@.subrange(0, i as int)));
            assert(prefix1.last() == results@[i as int]@);
            assert(prefix1 == prefix1.drop_last().push(prefix1.last()));
            if results@[i as int]@.success {
                assert(result_views(succeeded@) =~= ok0.push(results@[i as int]@));
                assert(result_views(failed@) =~= fail0);
            } else {
                assert(result_views(succeeded@) =~= ok0);
                assert(result_views(failed@) =~= fail0.push(results@[i as int]@));
            }
        }
        i += 1;
    }
    proof {
        assert(results@.subrange(0, results@.len() as int) =~= results@);
    }
    (succeeded, failed)
}

/// The packages put before the user for selection: the stable updates,
/// followed by the prerelease updates when those were asked for.
pub fn selection_pool(
    stable: &Vec<PackageInfo>,
    prerelease: &Vec<PackageInfo>,
    include_prerelease: bool,
) -> (r: Vec<PackageInfo>)
    ensures
        include_prerelease ==> package_views(r@) == package_views(stable@) + package_views(
            prerelease@,
        ),
        !include_prerelease ==> package_views(r@) == package_views(stable@),
{
    let mut pool: Vec<PackageInfo> = Vec::new();
    let mut i: usize = 0;
    proof {
        assert(package_views(pool@) =~= package_views(stable@.subrange(0, 0)));
    }
    while i < stable.len()
        invariant
            0 <= i <= stable@.len(),
            package_views(pool@) == package_views(stable@.subrange(0, i as int)),
        decreases stable@.len() - i,
    {
        let ghost pool0 = package_views(pool@);
        pool.push(stable[i].clone());
        proof {
            assert(package_views(pool@) =~= pool0.push(stable@[i as int]@));
            assert(package_views(stable@.subrange(0, i + 1)) =~= package_views(
                stable@.subrange(0, i as int),
            ).push(stable@[i as int]@));
        }
        i += 1;
    }
    proof {
        assert(stable@.subrange(0, stable@.len() as int) =~= stable@);
    }
    if include_prerelease {
        let mut j: usize = 0;
        proof {
            assert(package_views(pool@) =~= package_views(stable@) + package_views(
                prerelease@.subrange(0, 0),
            ));
        }
        while j < prerelease.len()
            invariant
                0 <= j <= prerelease@.len(),
                package_views(pool@) == package_views(stable@) + package_views(
                    prerelease@.subrange(0, j as int),
                ),
            decreases prerelease@.len() - j,
        {
            let ghost pool0 = package_views(pool@);
            pool.push(prerelease[j].clone());
            proof {
                assert(package_views(pool@) =~= pool0.push(prerelease@[j as int]@));
                assert(package_views(stable@) + package_views(prerelease@.subrange(0, j + 1))
                    =~= pool0.push(prerelease@[j as int]@));
            }
            j += 1;
        }
        proof {
            assert(prerelease@.subrange(0, prerelease@.len() as int) =~= prerelease@);
        }
    }
    pool
}

} // verus!

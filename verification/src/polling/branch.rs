//! Branches together with the latest commit fetched for them.

use vstd::prelude::*;

use crate::domain::CommitHash;
use crate::model::Branch;
use crate::polling::error::CommitHashError;
use crate::text::same_text;

verus! {

/// A stored branch and the latest commit its remote reports.
#[derive(Debug, Clone)]
pub struct BranchInfo {
    /// The stored branch.
    pub branch: Branch,
    /// The latest commit hash reported by the remote.
    pub latest_hash: CommitHash,
}

/// The branch moved: the stored hash is missing or differs from the
/// latest one.
pub open spec fn spec_has_updated(info: BranchInfo) -> bool {
    match info.branch.last_commit_hash {
        Some(h) => h@ != info.latest_hash@,
        None => true,
    }
}

impl BranchInfo {
    /// Whether the branch moved since it was last processed.
    pub fn has_updated(&self) -> (r: bool)
        ensures
            r == spec_has_updated(*self),
    {
        match &self.branch.last_commit_hash {
            Some(h) => !same_text(h.as_str(), self.latest_hash.as_str()),
            None => true,
        }
    }
}

/// The branches that moved, in the order of the fetch results; failed
/// fetches are left out.
pub open spec fn updated_branches(results: Seq<Result<BranchInfo, CommitHashError>>) -> Seq<
    BranchInfo,
>
    decreases results.len(),
{
    if results.len() == 0 {
        Seq::empty()
    } else {
        let rest = updated_branches(results.drop_last());
        match results.last() {
            Ok(info) => if spec_has_updated(info) {
                rest.push(info)
            } else {
                rest
            },
            Err(_) => rest,
        }
    }
}

/// Keeps the branches whose fetch succeeded and that moved.
pub fn select_updated_branches(results: Vec<Result<BranchInfo, CommitHashError>>) -> (out: Vec<
    BranchInfo,
>)
    ensures
        out@ == updated_branches(results@),
{
    let ghost all = results@;
    let mut rest = results;
    let mut out: Vec<BranchInfo> = Vec::new();
    while rest.len() > 0
        invariant
            all == results@,
            rest@.len() <= all.len(),
            rest@ == all.subrange(all.len() - rest@.len(), all.len() as int),
            out@ == updated_branches(all.subrange(0, all.len() - rest@.len())),
        decreases rest@.len(),
    {
        let ghost k = all.len() - rest@.len();
        assert(rest@[0] == all[k]);
        let item = rest.remove(0);
        assert(all.subrange(0, k + 1).drop_last() =~= all.subrange(0, k));
        assert(rest@ =~= all.subrange(k + 1, all.len() as int));
        match item {
            Ok(info) => {
                if info.has_updated() {
                    out.push(info);
                }
            },
            Err(_) => {},
        }
    }
    assert(all.subrange(0, all.len() as int) =~= all);
    out
}

/// A branch whose stored hash is the one its remote reports has not moved:
/// once a poll records the latest commit, the next poll that sees the same
/// commit queues nothing for it.
pub proof fn lemma_recorded_hash_is_not_an_update(info: BranchInfo)
    requires
        info.branch.last_commit_hash is Some,
        info.branch.last_commit_hash->0@ == info.latest_hash@,
    ensures
        !spec_has_updated(info),
{
}

/// Every selected branch moved, every one comes from a successful fetch,
/// and no more branches are selected than there were fetches.
pub proof fn lemma_selected_branches_moved(results: Seq<Result<BranchInfo, CommitHashError>>)
    ensures
        updated_branches(results).len() <= results.len(),
        forall|i: int|
            0 <= i < updated_branches(results).len() ==> spec_has_updated(
                #[trigger] updated_branches(results)[i],
            ) && results.contains(Ok(updated_branches(results)[i])),
    decreases results.len(),
{
    if results.len() > 0 {
        let rest = results.drop_last();
        lemma_selected_branches_moved(rest);
        assert forall|i: int|
            0 <= i < updated_branches(results).len() implies spec_has_updated(
                #[trigger] updated_branches(results)[i],
            ) && results.contains(Ok(updated_branches(results)[i])) by {
            if i < updated_branches(rest).len() {
                let k = choose|k: int| 0 <= k < rest.len() && rest[k] == Ok::<BranchInfo, CommitHashError>(updated_branches(rest)[i]);
                assert(results[k] == rest[k]);
            } else {
                assert(results[results.len() - 1] == results.last());
            }
        }
    }
}

/// Selection works result by result: what is selected from two batches of
/// fetch results, one after the other, is what is selected from the first
/// followed by what is selected from the second. Whether a result is
/// selected never depends on its neighbours.
pub proof fn lemma_selection_is_per_result(
    a: Seq<Result<BranchInfo, CommitHashError>>,
    b: Seq<Result<BranchInfo, CommitHashError>>,
)
    ensures
        updated_branches(a + b) == updated_branches(a) + updated_branches(b),
    decreases b.len(),
{
    if b.len() == 0 {
        assert(a + b =~= a);
        assert(updated_branches(a) + updated_branches(b) =~= updated_branches(a));
    } else {
        lemma_selection_is_per_result(a, b.drop_last());
        assert((a + b).drop_last() =~= a + b.drop_last());
        assert((a + b).last() == b.last());
        match b.last() {
            Ok(info) => {
                if spec_has_updated(info) {
                    assert(updated_branches(a) + updated_branches(b.drop_last()).push(info)
                        =~= (updated_branches(a) + updated_branches(b.drop_last())).push(info));
                }
            },
            Err(_) => {},
        }
    }
}

/// One fetch result selects its branch exactly when the fetch succeeded
/// and the branch moved; a failed fetch selects nothing.
pub proof fn lemma_single_result_selection(r: Result<BranchInfo, CommitHashError>)
    ensures
        updated_branches(seq![r]) == match r {
            Ok(info) => if spec_has_updated(info) {
                seq![info]
            } else {
                Seq::<BranchInfo>::empty()
            },
            Err(_) => Seq::<BranchInfo>::empty(),
        },
{
    let e = Seq::<Result<BranchInfo, CommitHashError>>::empty();
    assert(seq![r].drop_last() =~= e);
    assert(seq![r].last() == r);
    assert(updated_branches(e) == Seq::<BranchInfo>::empty());
    assert(Seq::<BranchInfo>::empty().push(r->Ok_0) =~= seq![r->Ok_0]);
}

/// Completeness: every branch whose fetch succeeded and that moved is
/// selected, whatever the other results are.
pub proof fn lemma_moved_branches_all_selected(
    results: Seq<Result<BranchInfo, CommitHashError>>,
    i: int,
)
    requires
        0 <= i < results.len(),
        results[i] is Ok,
        spec_has_updated(results[i]->Ok_0),
    ensures
        updated_branches(results).contains(results[i]->Ok_0),
{
    let before = results.subrange(0, i);
    let at = seq![results[i]];
    let after = results.subrange(i + 1, results.len() as int);
    assert(results =~= before + at + after);
    lemma_selection_is_per_result(before + at, after);
    lemma_selection_is_per_result(before, at);
    lemma_single_result_selection(results[i]);
    let sel = updated_branches(before) + seq![results[i]->Ok_0] + updated_branches(after);
    assert(sel[updated_branches(before).len() as int] == results[i]->Ok_0);
}

} // verus!

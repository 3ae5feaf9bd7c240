use crate::engine::{
    local_branches, oid_bytes, reference_is_branch, reference_name, reference_target,
    repository_head,
};
use crate::error::{from_git_error, SquishError};
use git2::Repository;
use vstd::prelude::*;

verus! {

// Naming the branch to squash when the caller gives none: the branch HEAD
// names, or, with HEAD detached, the first local branch at HEAD's commit.

/// Failure text when a detached HEAD points at no commit.
pub open spec fn no_head_commit_text() -> Seq<char> {
    "HEAD does not point to a valid commit"@
}

/// Failure text when no local branch points at a detached HEAD's commit.
pub open spec fn no_branch_text() -> Seq<char> {
    "Cannot determine current branch - HEAD is detached and no branch points to current commit"@
}

/// A local branch as the engine lists it: the raw id of the commit it points
/// at, when it points at one directly, and its full name, when that is readable.
pub struct BranchTip {
    pub target: Option<Vec<u8>>,
    pub name: Option<String>,
}

/// Outcome of searching the local branches for a commit.
pub enum BranchPick {
    /// The full name of the first branch at the commit.
    Named(String),
    /// The entry at this position could not be read.
    Unreadable(usize),
    /// No branch points at the commit.
    NoMatch,
}

/// The branch points at `commit` and has a readable name.
pub open spec fn tip_matches(tip: BranchTip, commit: Seq<u8>) -> bool {
    &&& tip.target matches Some(t)
    &&& t@ == commit
    &&& tip.name is Some
}

/// An entry that ends the search: an unreadable one, or a match.
pub open spec fn decides(entry: Option<BranchTip>, commit: Seq<u8>) -> bool {
    match entry {
        None => true,
        Some(tip) => tip_matches(tip, commit),
    }
}

/// Entry `k` is the first that ends the search.
pub open spec fn first_decider(entries: Seq<Option<BranchTip>>, commit: Seq<u8>, k: int) -> bool {
    &&& 0 <= k < entries.len()
    &&& decides(entries[k], commit)
    &&& forall|j: int| 0 <= j < k ==> !decides(#[trigger] entries[j], commit)
}

fn same_bytes(a: &Vec<u8>, b: &Vec<u8>) -> (r: bool)
    ensures
        r == (a@ == b@),
{
    if a.len() != b.len() {
        return false;
    }
    let mut i: usize = 0;
    while i < a.len()
        invariant
            i <= a@.len(),
            a@.len() == b@.len(),
            forall|k: int| 0 <= k < i ==> a@[k] == b@[k],
        decreases a@.len() - i,
    {
        if a[i] != b[i] {
            return false;
        }
        i = i + 1;
    }
    assert(a@ =~= b@);
    true
}

/// Whether a listed branch points at `commit` and has a readable name.
pub fn points_at(tip: &BranchTip, commit: &Vec<u8>) -> (r: bool)
    ensures
        r == tip_matches(*tip, commit@),
{
    match &tip.target {
        Some(t) => same_bytes(t, commit) && tip.name.is_some(),
        None => false,
    }
}

/// `r` is the outcome of searching `entries` for `commit`: nothing exactly
/// when no entry ends the search, and otherwise what the first entry to end
/// it says.
pub open spec fn picks(commit: Seq<u8>, entries: Seq<Option<BranchTip>>, r: BranchPick) -> bool {
    &&& (r is NoMatch) <==> (forall|j: int|
        0 <= j < entries.len() ==> !decides(#[trigger] entries[j], commit))
    &&& forall|k: int|
        first_decider(entries, commit, k) ==> match entries[k] {
            None => r == BranchPick::Unreadable(k as usize),
            Some(tip) => (r matches BranchPick::Named(n) && tip.name == Some(n)),
        }
    &&& r matches BranchPick::Unreadable(k) ==> k < entries.len() && entries[k as int] is None
}

/// Scans the local branches in the engine's order (`None` for an entry that
/// could not be read) and stops at the first unreadable entry or the first
/// branch at `commit`.
pub fn pick_branch(commit: &Vec<u8>, entries: &Vec<Option<BranchTip>>) -> (r: BranchPick)
    ensures
        picks(commit@, entries@, r),
{
    let mut i: usize = 0;
    while i < entries.len()
        invariant
            i <= entries@.len(),
            forall|j: int| 0 <= j < i ==> !decides(#[trigger] entries@[j], commit@),
        decreases entries@.len() - i,
    {
        match &entries[i] {
            None => {
                return BranchPick::Unreadable(i);
            },
            Some(tip) => {
                if points_at(tip, commit) {
                    match &tip.name {
                        Some(n) => {
                            return BranchPick::Named(n.clone());
                        },
                        None => {},
                    }
                }
            },
        }
        i = i + 1;
    }
    BranchPick::NoMatch
}

/// How HEAD settles the branch name.
pub enum HeadChoice {
    /// HEAD is a branch with a readable name.
    Named(String),
    /// HEAD is detached and points at no commit.
    NoCommit,
    /// HEAD is detached at the commit with these raw id bytes: search the
    /// local branches for it.
    Search(Vec<u8>),
}

/// What HEAD's kind, name and target decide: its own name when it is a branch
/// with a readable name; otherwise a search for its commit, when it has one.
pub fn head_choice(head_is_branch: bool, head_name: Option<String>, head_target: Option<Vec<u8>>) -> (r:
    HeadChoice)
    ensures
        head_is_branch && head_name is Some ==> r == HeadChoice::Named(head_name->Some_0),
        !(head_is_branch && head_name is Some) && head_target is None ==> r is NoCommit,
        !(head_is_branch && head_name is Some) && head_target is Some ==> (r matches HeadChoice::Search(
            t,
        ) && t@ == head_target->Some_0@),
{
    if head_is_branch {
        match head_name {
            Some(n) => {
                return HeadChoice::Named(n);
            },
            None => {},
        }
    }
    match head_target {
        Some(t) => HeadChoice::Search(t),
        None => HeadChoice::NoCommit,
    }
}

/// `r` is what a branch search outcome becomes: the branch name, the engine
/// failure `entry_error` of an unreadable entry, or the `Other` failure for a
/// detached HEAD at no branch.
pub open spec fn search_yields(
    pick: BranchPick,
    entry_error: Option<SquishError>,
    r: Result<String, SquishError>,
) -> bool {
    match pick {
        BranchPick::Named(n) => r == Ok::<String, SquishError>(n),
        BranchPick::NoMatch => r matches Err(SquishError::Other { message: m }) && m@
            == no_branch_text(),
        BranchPick::Unreadable(_) => match entry_error {
            Some(e) => r == Err::<String, SquishError>(e),
            None => r matches Err(SquishError::Other { message: m }) && m@ == no_branch_text(),
        },
    }
}

fn no_branch_failure() -> (r: SquishError)
    ensures
        r matches SquishError::Other { message: m } && m@ == no_branch_text(),
{
    SquishError::Other {
        message: String::from_str(
            "Cannot determine current branch - HEAD is detached and no branch points to current commit",
        ),
    }
}

/// The branch name a search outcome gives: `Ok` with the name found, the
/// failure of the unreadable entry, or the detached-HEAD failure.
pub fn search_outcome(pick: BranchPick, entry_error: Option<SquishError>) -> (r: Result<
    String,
    SquishError,
>)
    ensures
        search_yields(pick, entry_error, r),
{
    match pick {
        BranchPick::Named(n) => Ok(n),
        BranchPick::NoMatch => Err(no_branch_failure()),
        BranchPick::Unreadable(_) => match entry_error {
            Some(e) => Err(e),
            None => Err(no_branch_failure()),
        },
    }
}

/// A detached HEAD at `commit`, with every local branch readable and exactly
/// one of them (entry `k`) at `commit`: the search names that branch.
pub proof fn lemma_detached_head_single_branch(
    commit: Seq<u8>,
    entries: Seq<Option<BranchTip>>,
    k: int,
    pick: BranchPick,
    entry_error: Option<SquishError>,
    r: Result<String, SquishError>,
)
    requires
        0 <= k < entries.len(),
        forall|j: int| 0 <= j < entries.len() ==> (#[trigger] entries[j]) is Some,
        entries[k] matches Some(tip) && tip_matches(tip, commit),
        forall|j: int|
            0 <= j < entries.len() && j != k ==> !tip_matches(#[trigger] entries[j]->Some_0, commit),
        picks(commit, entries, pick),
        search_yields(pick, entry_error, r),
    ensures
        r matches Ok(n) && entries[k]->Some_0.name == Some(n),
{
    lemma_single_branch_decides(entries, commit, k);
}

/// A detached HEAD at `commit`, with every local branch readable and none at
/// `commit`: the search fails with the detached-HEAD `Other` failure.
pub proof fn lemma_detached_head_no_branch(
    commit: Seq<u8>,
    entries: Seq<Option<BranchTip>>,
    pick: BranchPick,
    entry_error: Option<SquishError>,
    r: Result<String, SquishError>,
)
    requires
        forall|j: int| 0 <= j < entries.len() ==> (#[trigger] entries[j]) is Some,
        forall|j: int| 0 <= j < entries.len() ==> !tip_matches(#[trigger] entries[j]->Some_0, commit),
        picks(commit, entries, pick),
        search_yields(pick, entry_error, r),
    ensures
        r matches Err(SquishError::Other { message: m }) && m@ == no_branch_text(),
{
    lemma_no_branch_no_match(entries, commit);
}

/// With every local branch readable and exactly one of them at `commit`
/// (pointing there with a readable name), that branch is the one the search
/// settles on; with none at `commit`, the search finds nothing.
pub proof fn lemma_single_branch_decides(entries: Seq<Option<BranchTip>>, commit: Seq<u8>, k: int)
    requires
        0 <= k < entries.len(),
        forall|j: int| 0 <= j < entries.len() ==> (#[trigger] entries[j]) is Some,
        entries[k] matches Some(tip) && tip_matches(tip, commit),
        forall|j: int|
            0 <= j < entries.len() && j != k ==> !tip_matches(#[trigger] entries[j]->Some_0, commit),
    ensures
        first_decider(entries, commit, k),
        forall|j: int| 0 <= j < entries.len() && j != k ==> !first_decider(entries, commit, j),
{
    assert forall|j: int| 0 <= j < k implies !decides(#[trigger] entries[j], commit) by {
        assert(entries[j] is Some);
    }
    assert forall|j: int| 0 <= j < entries.len() && j != k implies !first_decider(
        entries,
        commit,
        j,
    ) by {
        if j < k {
            assert(entries[j] is Some);
        } else {
            assert(!decides(entries[k], commit) || !(forall|i: int|
                0 <= i < j ==> !decides(#[trigger] entries[i], commit)));
        }
    }
}

/// With every local branch readable and none at `commit`, the search finds nothing.
pub proof fn lemma_no_branch_no_match(entries: Seq<Option<BranchTip>>, commit: Seq<u8>)
    requires
        forall|j: int| 0 <= j < entries.len() ==> (#[trigger] entries[j]) is Some,
        forall|j: int| 0 <= j < entries.len() ==> !tip_matches(#[trigger] entries[j]->Some_0, commit),
    ensures
        forall|j: int| 0 <= j < entries.len() ==> !decides(#[trigger] entries[j], commit),
{
    assert forall|j: int| 0 <= j < entries.len() implies !decides(#[trigger] entries[j], commit) by {
        assert(entries[j] is Some);
        assert(!tip_matches(entries[j]->Some_0, commit));
    }
}

/// The full name of the branch to squash when none is given: the branch HEAD
/// names, or, when HEAD is detached, the first local branch (in the engine's
/// order) pointing at HEAD's commit. HEAD's kind, name and target are turned
/// into a decision by `head_choice`; the search is `pick_branch`, and its
/// outcome becomes the result through `search_outcome`.
pub fn get_current_branch_name(repo: &Repository) -> (r: Result<String, SquishError>)
    ensures
        r matches Err(SquishError::Other { message: m }) ==> (m@ == no_head_commit_text() || m@
            == no_branch_text()),
{
    let head = match repository_head(repo) {
        Ok(h) => h,
        Err(e) => {
            return Err(from_git_error(&e));
        },
    };
    let head_target = match reference_target(&head) {
        Some(id) => Some(oid_bytes(&id)),
        None => None,
    };
    let commit = match head_choice(reference_is_branch(&head), reference_name(&head), head_target) {
        HeadChoice::Named(name) => {
            return Ok(name);
        },
        HeadChoice::NoCommit => {
            return Err(
                SquishError::Other {
                    message: String::from_str("HEAD does not point to a valid commit"),
                },
            );
        },
        HeadChoice::Search(t) => t,
    };
    let listed = match local_branches(repo) {
        Ok(l) => l,
        Err(e) => {
            return Err(from_git_error(&e));
        },
    };
    let mut entries: Vec<Option<BranchTip>> = Vec::new();
    let mut i: usize = 0;
    while i < listed.len()
        invariant
            i <= listed@.len(),
            entries@.len() == i,
            forall|j: int| 0 <= j < i ==> ((#[trigger] entries@[j]) is None <==> listed@[j] is Err),
        decreases listed@.len() - i,
    {
        let entry = match &listed[i] {
            Ok(branch) => Some(
                BranchTip {
                    target: match reference_target(branch) {
                        Some(id) => Some(oid_bytes(&id)),
                        None => None,
                    },
                    name: reference_name(branch),
                },
            ),
            Err(_) => None,
        };
        entries.push(entry);
        i = i + 1;
    }
    let pick = pick_branch(&commit, &entries);
    let entry_error = match pick {
        BranchPick::Unreadable(k) => match &listed[k] {
            Err(e) => Some(from_git_error(e)),
            Ok(_) => None,
        },
        _ => None,
    };
    search_outcome(pick, entry_error)
}

} // verus!

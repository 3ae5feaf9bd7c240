use crate::engine::{
    annotated_from_reference, commit_summary, commit_tree, create_commit, default_signature,
    find_annotated_commit, find_commit, find_reference, new_revwalk, oid_bytes, open_repository,
    rebase_commit, rebase_finish, rebase_len, rebase_next, reference_is_branch, reference_name,
    reference_set_target, repository_head, resolve_revision, sort_oldest_first, start_rebase,
    walk_ids, walk_range,
};
use crate::error::{engine_result, from_git_error, SquishError};
use crate::text::{hex_of, same_text, to_hex};
use crate::message::{
    compose_squash_message, empty_range_text, no_title_text, squash_message, summary_texts,
};
use git2::{AnnotatedCommit, Commit, Oid, Repository, Signature};
use vstd::prelude::*;

verus! {

// Rebase a branch onto its upstream in memory, then replace the rebased
// series with one commit whose parent is the upstream commit.

/// The confirmation returned after squashing `branch` into the commit whose
/// id is written `id`.
pub open spec fn success_text(branch: Seq<char>, id: Seq<char>) -> Seq<char> {
    "Successfully rebased and updated "@ + branch + " to "@ + id + "."@
}

/// The failures this library detects itself while squashing `branch` onto
/// `upstream`: a name that cannot be resolved, an empty range, or an oldest
/// commit without a summary.
pub open spec fn squash_other_text(m: Seq<char>, branch: Seq<char>, upstream: Seq<char>) -> bool {
    ||| m == "Branch"@ + " not found: "@ + branch
    ||| m == "Upstream"@ + " not found: "@ + upstream
    ||| m == empty_range_text()
    ||| m == no_title_text()
}

/// HEAD moves along with the squashed branch only when it is a branch
/// reference of exactly that name.
pub open spec fn head_follows_spec(head_is_branch: bool, head_name: Option<String>, branch: Seq<char>) -> bool {
    &&& head_is_branch
    &&& head_name matches Some(n)
    &&& n@ == branch
}

/// Whether HEAD, a branch reference or not and with the given name, must be
/// repointed together with `branch_refname`.
pub fn head_follows(head_is_branch: bool, head_name: &Option<String>, branch_refname: &str) -> (r: bool)
    ensures
        r == head_follows_spec(head_is_branch, *head_name, branch_refname@),
{
    if !head_is_branch {
        return false;
    }
    match head_name {
        Some(n) => same_text(n.as_str(), branch_refname),
        None => false,
    }
}

/// The failure to resolve a name: when the engine's `code` says the name does
/// not exist or cannot be parsed, an `Other` failure naming `what` and `name`;
/// otherwise the engine's own failure `engine`.
pub fn resolution_failure(code: git2::ErrorCode, what: &str, name: &str, engine: SquishError) -> (r:
    SquishError)
    ensures
        unresolvable(code) ==> (r matches SquishError::Other { message: m } && m@ == what@
            + " not found: "@ + name@),
        !unresolvable(code) ==> r == engine,
{
    match code {
        git2::ErrorCode::NotFound | git2::ErrorCode::InvalidSpec => {
            let mut m = String::from_str(what);
            m.append(" not found: ");
            m.append(name);
            SquishError::Other { message: m }
        },
        _ => engine,
    }
}

/// The engine reports a name that does not exist or cannot be parsed.
pub open spec fn unresolvable(code: git2::ErrorCode) -> bool {
    code == git2::ErrorCode::NotFound || code == git2::ErrorCode::InvalidSpec
}

/// The rebased tip after replaying a series whose new commits, in order, are
/// `committed`: the last of them, or the upstream commit when there are none.
pub open spec fn rebased_tip_of(upstream_id: Oid, committed: Seq<Oid>) -> Oid {
    if committed.len() == 0 {
        upstream_id
    } else {
        committed.last()
    }
}

/// The rebased tip: the last commit replayed, or `upstream_id` when nothing
/// was replayed.
pub fn rebased_tip(upstream_id: Oid, committed: &Vec<Oid>) -> (r: Oid)
    ensures
        r == rebased_tip_of(upstream_id, committed@),
{
    if committed.len() == 0 {
        upstream_id
    } else {
        committed[committed.len() - 1]
    }
}

/// Replays every operation of an in-memory rebase of `branch` onto `upstream`,
/// committing each as `sig`. Returns the rebased tip together with the ids of
/// the commits made, in order.
fn replay_onto(
    repo: &Repository,
    branch: &AnnotatedCommit,
    upstream: &AnnotatedCommit,
    upstream_id: Oid,
    sig: &Signature,
) -> (r: Result<(Oid, Vec<Oid>), SquishError>)
    ensures
        r matches Err(e) ==> e is Git,
        r matches Ok((tip, committed)) ==> tip == rebased_tip_of(upstream_id, committed@),
{
    let mut rebase = engine_result(start_rebase(repo, branch, upstream, true))?;
    let count = rebase_len(&rebase);
    let mut committed: Vec<Oid> = Vec::new();
    let mut i: usize = 0;
    while i < count
        invariant
            i <= count,
        decreases count - i,
    {
        match rebase_next(&mut rebase) {
            None => {
                break;
            },
            Some(step) => {
                engine_result(step)?;
            },
        }
        let id = engine_result(rebase_commit(&mut rebase, sig))?;
        committed.push(id);
        i = i + 1;
    }
    engine_result(rebase_finish(&mut rebase))?;
    let tip = rebased_tip(upstream_id, &committed);
    Ok((tip, committed))
}

/// An engine lookup of the name `name` (a `what`, such as a branch): the found
/// value, or the failure `resolution_failure` gives for the engine's error.
pub fn resolved<T>(r: Result<T, git2::Error>, what: &str, name: &str) -> (out: Result<
    T,
    SquishError,
>)
    ensures
        r is Ok <==> out is Ok,
        r matches Ok(v) ==> out == Ok::<T, SquishError>(v),
        out matches Err(f) ==> (f is Git || (f matches SquishError::Other { message: m } && m@
            == what@ + " not found: "@ + name@)),
{
    match r {
        Ok(v) => Ok(v),
        Err(e) => Err(resolution_failure(e.code(), what, name, from_git_error(&e))),
    }
}

/// The squash message for the commits reachable from `tip` but not from
/// `base`, oldest first.
fn range_message(repo: &Repository, base: Oid, tip: Oid) -> (r: Result<String, SquishError>)
    ensures
        r matches Err(SquishError::Other { message: m }) ==> (m@ == empty_range_text() || m@
            == no_title_text()),
        r matches Ok(m) ==> exists|s: Seq<Option<String>>|
            s.len() > 0 && s[0] is Some && m@ == squash_message(#[trigger] summary_texts(s)),
{
    let mut walk = engine_result(new_revwalk(repo))?;
    engine_result(walk_range(&mut walk, base, tip))?;
    engine_result(sort_oldest_first(&mut walk))?;
    let ids = walk_ids(walk);
    let mut summaries: Vec<Option<String>> = Vec::new();
    let mut i: usize = 0;
    while i < ids.len()
        invariant
            i <= ids@.len(),
        decreases ids@.len() - i,
    {
        let id = match &ids[i] {
            Ok(id) => *id,
            Err(e) => {
                return Err(from_git_error(e));
            },
        };
        let commit = engine_result(find_commit(repo, id))?;
        let summary = match commit_summary(&commit) {
            Ok(s) => s,
            Err(_) => None,
        };
        summaries.push(summary);
        i = i + 1;
    }
    compose_squash_message(&summaries)
}

/// Writes the squash commit (the tree of `rebased_tip`, the single parent
/// `upstream`, `message`), then points `branch_refname` at it, and HEAD too
/// when HEAD names that branch.
fn replace_branch(
    repo: &Repository,
    branch_refname: &str,
    sig: &Signature,
    message: &str,
    rebased_tip: &Commit,
    upstream: &Commit,
) -> (r: Result<Oid, SquishError>)
    ensures
        r matches Err(e) ==> e is Git,
{
    let tree = engine_result(commit_tree(rebased_tip))?;
    let new_id = engine_result(create_commit(repo, sig, message, &tree, upstream))?;
    let mut branch = engine_result(find_reference(repo, branch_refname))?;
    engine_result(reference_set_target(&mut branch, new_id, "squash commits into single commit"))?;
    match repository_head(repo) {
        Ok(mut head) => {
            let name = reference_name(&head);
            if head_follows(reference_is_branch(&head), &name, branch_refname) {
                engine_result(
                    reference_set_target(&mut head, new_id, "move HEAD to squashed commit"),
                )?;
            }
        },
        Err(_) => {},
    }
    Ok(new_id)
}

/// Rebases the branch `branch_refname` (a full reference name such as
/// `refs/heads/feature`) of the repository at `repo_path` onto the revision
/// `upstream_spec`, then replaces the rebased series with a single commit
/// whose only parent is the upstream commit and whose tree is the rebased
/// tip's. The branch is left untouched unless every step before the final
/// repointing succeeds.
pub fn squash_branch(repo_path: &str, branch_refname: String, upstream_spec: String) -> (r: Result<
    String,
    SquishError,
>)
    ensures
        r matches Ok(m) ==> exists|id: Seq<u8>| m@ == success_text(branch_refname@, #[trigger] hex_of(id)),
        r matches Err(SquishError::Other { message: m }) ==> squash_other_text(
            m@,
            branch_refname@,
            upstream_spec@,
        ),
{
    let repo = engine_result(open_repository(repo_path))?;
    let branch_ref = resolved(
        find_reference(&repo, branch_refname.as_str()),
        "Branch",
        branch_refname.as_str(),
    )?;
    let branch_annot = engine_result(annotated_from_reference(&repo, &branch_ref))?;
    let upstream_id = resolved(
        resolve_revision(&repo, upstream_spec.as_str()),
        "Upstream",
        upstream_spec.as_str(),
    )?;
    let upstream_annot = engine_result(find_annotated_commit(&repo, upstream_id))?;
    let sig = engine_result(default_signature(&repo))?;
    let (rebased_id, _) = replay_onto(&repo, &branch_annot, &upstream_annot, upstream_id, &sig)?;
    let rebased_tip = engine_result(find_commit(&repo, rebased_id))?;
    let upstream = engine_result(find_commit(&repo, upstream_id))?;
    let message = range_message(&repo, upstream_id, rebased_id)?;
    let new_id = replace_branch(
        &repo,
        branch_refname.as_str(),
        &sig,
        message.as_str(),
        &rebased_tip,
        &upstream,
    )?;
    let mut done = String::from_str("Successfully rebased and updated ");
    done.append(branch_refname.as_str());
    done.append(" to ");
    let id_bytes = oid_bytes(&new_id);
    let hex = to_hex(&id_bytes);
    done.append(hex.as_str());
    done.append(".");
    assert(done@ == success_text(branch_refname@, hex_of(id_bytes@)));
    Ok(done)
}

} // verus!

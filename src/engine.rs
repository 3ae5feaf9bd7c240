use git2::{
    AnnotatedCommit, Commit, Error, Oid, Rebase, Reference, Repository, Revwalk, Signature, Tree,
};
use vstd::prelude::*;

verus! {

// The repository engine as this library uses it: git2's types, declared
// opaque, and a trusted wrapper for each git2 call the logic makes. What
// these calls return depends on the repository on disk, so no wrapper
// promises more than its signature.

#[verifier::external_type_specification]
#[verifier::external_body]
pub struct ExRepository(git2::Repository);

#[verifier::external_type_specification]
#[verifier::external_body]
pub struct ExOid(git2::Oid);

#[verifier::external_type_specification]
#[verifier::external_body]
pub struct ExReference<'repo>(git2::Reference<'repo>);

#[verifier::external_type_specification]
#[verifier::external_body]
pub struct ExAnnotatedCommit<'repo>(git2::AnnotatedCommit<'repo>);

#[verifier::external_type_specification]
#[verifier::external_body]
pub struct ExRebase<'repo>(git2::Rebase<'repo>);

#[verifier::external_type_specification]
#[verifier::external_body]
pub struct ExRebaseOperation<'rebase>(git2::RebaseOperation<'rebase>);

#[verifier::external_type_specification]
#[verifier::external_body]
pub struct ExSignature<'a>(git2::Signature<'a>);

#[verifier::external_type_specification]
#[verifier::external_body]
pub struct ExCommit<'repo>(git2::Commit<'repo>);

#[verifier::external_type_specification]
#[verifier::external_body]
pub struct ExTree<'repo>(git2::Tree<'repo>);

#[verifier::external_type_specification]
#[verifier::external_body]
pub struct ExRevwalk<'repo>(git2::Revwalk<'repo>);

/// Relies on `Repository::open`: opens the existing repository at `path`.
#[verifier::external_body]
pub(crate) fn open_repository(path: &str) -> Result<Repository, Error> {
    Repository::open(path)
}

/// Relies on `Repository::head`: HEAD, resolved to the branch it names, or
/// HEAD itself when detached.
#[verifier::external_body]
pub(crate) fn repository_head<'a>(repo: &'a Repository) -> Result<Reference<'a>, Error> {
    repo.head()
}

/// Relies on `Reference::is_branch`: whether the reference lives under `refs/heads/`.
#[verifier::external_body]
pub(crate) fn reference_is_branch(r: &Reference) -> bool {
    r.is_branch()
}

/// Relies on `Reference::name`: the full name, absent when it is not UTF-8.
#[verifier::external_body]
pub(crate) fn reference_name(r: &Reference) -> Option<String> {
    r.name().ok().map(String::from)
}

/// Relies on `Reference::target`: the commit a direct reference points at,
/// absent for a symbolic one.
#[verifier::external_body]
pub(crate) fn reference_target(r: &Reference) -> Option<Oid> {
    r.target()
}

/// Relies on `Reference::set_target`: repoints a direct reference, logging
/// `log_message` in its reflog.
#[verifier::external_body]
pub(crate) fn reference_set_target(r: &mut Reference, id: Oid, log_message: &str) -> Result<(), Error> {
    r.set_target(id, log_message).map(|_| ())
}

/// Relies on `Oid::as_bytes`: the raw bytes of an object id.
#[verifier::external_body]
pub(crate) fn oid_bytes(id: &Oid) -> Vec<u8> {
    id.as_bytes().to_vec()
}

/// Relies on `Repository::branches` with the local filter: each local branch,
/// as a reference, in the engine's enumeration order.
#[verifier::external_body]
pub(crate) fn local_branches<'a>(repo: &'a Repository) -> Result<Vec<Result<Reference<'a>, Error>>, Error> {
    let branches = repo.branches(Some(git2::BranchType::Local))?;
    Ok(branches.map(|entry| entry.map(|(branch, _)| branch.into_reference())).collect())
}

/// Relies on `Repository::find_reference`: looks a reference up by full name.
#[verifier::external_body]
pub(crate) fn find_reference<'a>(repo: &'a Repository, name: &str) -> Result<Reference<'a>, Error> {
    repo.find_reference(name)
}

/// Relies on `Repository::reference_to_annotated_commit`: the commit a
/// reference resolves to, remembering the reference's name.
#[verifier::external_body]
pub(crate) fn annotated_from_reference<'a>(repo: &'a Repository, r: &Reference) -> Result<AnnotatedCommit<'a>, Error> {
    repo.reference_to_annotated_commit(r)
}

/// Relies on `Repository::revparse_single` and `Object::id`: the id of the
/// single object a revision expression names.
#[verifier::external_body]
pub(crate) fn resolve_revision(repo: &Repository, spec: &str) -> Result<Oid, Error> {
    repo.revparse_single(spec).map(|object| object.id())
}

/// Relies on `Repository::find_annotated_commit`: the commit with id `id`.
#[verifier::external_body]
pub(crate) fn find_annotated_commit<'a>(repo: &'a Repository, id: Oid) -> Result<AnnotatedCommit<'a>, Error> {
    repo.find_annotated_commit(id)
}

/// Relies on `RebaseOptions::inmemory` and `Repository::rebase`: opens a rebase
/// session replaying `branch` onto `upstream`. In memory, the session neither
/// rewinds HEAD, nor leaves the repository in a rebasing state, nor touches
/// the working directory. This library only ever opens in-memory sessions.
#[verifier::external_body]
pub(crate) fn start_rebase<'a>(
    repo: &'a Repository,
    branch: &AnnotatedCommit,
    upstream: &AnnotatedCommit,
    in_memory: bool,
) -> Result<Rebase<'a>, Error>
    requires
        in_memory,
{
    let mut opts = git2::RebaseOptions::new();
    opts.inmemory(in_memory);
    repo.rebase(Some(branch), Some(upstream), None, Some(&mut opts))
}

/// Relies on `Rebase::len`: the number of operations the session will replay.
#[verifier::external_body]
pub(crate) fn rebase_len(rebase: &Rebase) -> usize {
    rebase.len()
}

/// Relies on `Rebase::next`: applies the next operation, or reports that none
/// is left.
#[verifier::external_body]
pub(crate) fn rebase_next(rebase: &mut Rebase) -> Option<Result<(), Error>> {
    rebase.next().map(|step| step.map(|_| ()))
}

/// Relies on `Rebase::commit`: commits the operation just applied, keeping its
/// own message, with `sig` as author and committer.
#[verifier::external_body]
pub(crate) fn rebase_commit(rebase: &mut Rebase, sig: &Signature) -> Result<Oid, Error> {
    rebase.commit(Some(sig), sig, None)
}

/// Relies on `Rebase::finish`: closes the session.
#[verifier::external_body]
pub(crate) fn rebase_finish(rebase: &mut Rebase) -> Result<(), Error> {
    rebase.finish(None)
}

/// Relies on `Repository::signature`: the identity the repository is configured with.
#[verifier::external_body]
pub(crate) fn default_signature(repo: &Repository) -> Result<Signature<'static>, Error> {
    repo.signature()
}

/// Relies on `Repository::find_commit`: the commit with id `id`.
#[verifier::external_body]
pub(crate) fn find_commit<'a>(repo: &'a Repository, id: Oid) -> Result<Commit<'a>, Error> {
    repo.find_commit(id)
}

/// Relies on `Commit::tree`: the snapshot a commit records.
#[verifier::external_body]
pub(crate) fn commit_tree<'a>(c: &Commit<'a>) -> Result<Tree<'a>, Error> {
    c.tree()
}

/// Relies on `Commit::summary`: the first paragraph of the message with its
/// whitespace trimmed and squashed, absent when there is none; an error when
/// it is not UTF-8.
#[verifier::external_body]
pub(crate) fn commit_summary(c: &Commit) -> Result<Option<String>, Error> {
    c.summary().map(|s| s.map(String::from))
}

/// Relies on `Repository::revwalk`: a new, empty history walk.
#[verifier::external_body]
pub(crate) fn new_revwalk<'a>(repo: &'a Repository) -> Result<Revwalk<'a>, Error> {
    repo.revwalk()
}

/// Relies on `Revwalk::push_range` with `base..tip`: the walk starts at `tip`
/// and leaves out everything reachable from `base`.
#[verifier::external_body]
pub(crate) fn walk_range(walk: &mut Revwalk, base: Oid, tip: Oid) -> Result<(), Error> {
    walk.push_range(&format!("{}..{}", base, tip))
}

/// Relies on `Revwalk::set_sorting` with `TOPOLOGICAL | REVERSE`: parents come
/// before their children, oldest first.
#[verifier::external_body]
pub(crate) fn sort_oldest_first(walk: &mut Revwalk) -> Result<(), Error> {
    walk.set_sorting(git2::Sort::TOPOLOGICAL | git2::Sort::REVERSE)
}

/// Relies on `Revwalk`'s iteration: every id the walk yields, in order.
#[verifier::external_body]
pub(crate) fn walk_ids(walk: Revwalk) -> Vec<Result<Oid, Error>> {
    walk.collect()
}

/// Relies on `Repository::commit` without a reference to update: writes a
/// commit of `tree` with the single parent `parent`, `sig` as author and
/// committer, and returns its id.
#[verifier::external_body]
pub(crate) fn create_commit(
    repo: &Repository,
    sig: &Signature,
    message: &str,
    tree: &Tree,
    parent: &Commit,
) -> Result<Oid, Error> {
    repo.commit(None, sig, sig, message, tree, &[parent])
}

} // verus!

use git2::{BranchType, Commit, Oid, Repository, Signature, Time};
use git_squish::{get_current_branch_name, squash_branch, SquishError};
use std::path::PathBuf;
use tempfile::TempDir;

const BASE_TEXT: &str = "line one\n";
const TOPIC_TEXT_1: &str = "line one\ntopic one\n";
const TOPIC_TEXT_2: &str = "line one\ntopic one\ntopic two\n";
const CONFLICT_TEXT: &str = "line one\nconflicting line\n";
const MAIN_OTHER: &str = "from main\n";

fn other(message: &str) -> SquishError {
    SquishError::Other { message: message.to_string() }
}

fn fail(e: SquishError) -> String {
    match e {
        SquishError::Git { message } => message,
        SquishError::Other { message } => message,
    }
}

fn set_identity(repo: &Repository) {
    let mut config = repo.config().unwrap();
    config.set_str("user.name", "Test User").unwrap();
    config.set_str("user.email", "test@example.com").unwrap();
}

/// Writes a commit holding exactly `files`, with the given parent, and
/// returns its id. No reference is moved.
fn commit_files(
    repo: &Repository,
    parent: Option<Oid>,
    files: &[(&str, &str)],
    message: &str,
    seconds: i64,
) -> Oid {
    let mut builder = repo.treebuilder(None).unwrap();
    for (name, content) in files {
        let blob = repo.blob(content.as_bytes()).unwrap();
        builder.insert(*name, blob, 0o100644).unwrap();
    }
    let tree = repo.find_tree(builder.write().unwrap()).unwrap();
    let sig = Signature::new("Fixture", "fixture@example.com", &Time::new(seconds, 0)).unwrap();
    let parents: Vec<Commit> = parent.into_iter().map(|p| repo.find_commit(p).unwrap()).collect();
    let parent_refs: Vec<&Commit> = parents.iter().collect();
    repo.commit(None, &sig, &sig, message, &tree, &parent_refs).unwrap()
}

/// A repository with `main` (two commits), `topic` (two commits off the first
/// main commit, touching text.txt) and `conflict` (one commit off the first
/// main commit, changing text.txt differently from `topic`).
fn build_origin(path: &std::path::Path) {
    let repo = Repository::init(path).unwrap();
    set_identity(&repo);
    let base = commit_files(&repo, None, &[("text.txt", BASE_TEXT)], "Initial commit", 1_700_000_000);
    let main = commit_files(
        &repo,
        Some(base),
        &[("text.txt", BASE_TEXT), ("other.txt", MAIN_OTHER)],
        "Main change",
        1_700_000_100,
    );
    let t1 = commit_files(&repo, Some(base), &[("text.txt", TOPIC_TEXT_1)], "Topic Branch Start", 1_700_000_200);
    let t2 = commit_files(&repo, Some(t1), &[("text.txt", TOPIC_TEXT_2)], "Topic continues", 1_700_000_300);
    let k1 = commit_files(&repo, Some(base), &[("text.txt", CONFLICT_TEXT)], "Conflicting change", 1_700_000_400);
    repo.reference("refs/heads/main", main, true, "fixture").unwrap();
    repo.reference("refs/heads/topic", t2, true, "fixture").unwrap();
    repo.reference("refs/heads/conflict", k1, true, "fixture").unwrap();
    repo.set_head("refs/heads/main").unwrap();
}

/// Builds the fixture repository and clones it into a temporary directory;
/// returns the clone's path and the directory handle, which must be kept alive.
fn clone_test_repo() -> Result<(PathBuf, TempDir), SquishError> {
    let temp_dir = tempfile::tempdir().map_err(|e| other(&format!("Failed to create temporary directory: {}", e)))?;
    let origin = temp_dir.path().join("origin");
    build_origin(&origin);
    let repo_path = temp_dir.path().join("clone");
    let url = origin.to_str().ok_or_else(|| other("origin path is not UTF-8"))?;
    let repo = Repository::clone(url, &repo_path)
        .map_err(|e| other(&format!("Failed to clone test repository from {}: {}", url, e)))?;
    set_identity(&repo);
    Ok((repo_path, temp_dir))
}

/// Checks out `branch_name`, creating it from `origin/<branch_name>` when it
/// does not exist locally.
fn change_to_branch(repo_path: &PathBuf, branch_name: &str) -> Result<String, SquishError> {
    let repo = Repository::open(repo_path)?;
    let branch_ref = match repo.find_branch(branch_name, BranchType::Local) {
        Ok(branch) => branch.get().name().unwrap_or_default().to_string(),
        Err(_) => {
            let remote_branch_name = format!("origin/{}", branch_name);
            let remote_branch = repo
                .find_branch(&remote_branch_name, BranchType::Remote)
                .map_err(|_| {
                    other(&format!(
                        "Branch '{}' not found locally or as '{}'",
                        branch_name, remote_branch_name
                    ))
                })?;
            let remote_commit = remote_branch.get().peel_to_commit()?;
            let local_branch = repo.branch(branch_name, &remote_commit, false)?;
            let mut local_branch_ref = local_branch.get().name().unwrap_or_default().to_string();
            if local_branch_ref.is_empty() {
                local_branch_ref = format!("refs/heads/{}", branch_name);
            }
            local_branch_ref
        }
    };
    repo.set_head(&branch_ref)?;
    repo.checkout_head(Some(git2::build::CheckoutBuilder::default().force()))?;
    Ok(format!("Switched to branch '{}'", branch_name))
}

/// The full message of the commit HEAD resolves to.
fn get_current_commit_message(repo_path: &PathBuf) -> Result<String, SquishError> {
    let repo = Repository::open(repo_path)?;
    let head = repo.head()?;
    let commit = head.peel_to_commit()?;
    let message = commit.message()?;
    Ok(message.to_string())
}

/// The content of `name` in the tree of commit `id`.
fn file_in(repo: &Repository, id: Oid, name: &str) -> Option<String> {
    let tree = repo.find_commit(id).unwrap().tree().unwrap();
    let entry = tree.get_name(name)?;
    let blob = repo.find_blob(entry.id()).unwrap();
    Some(String::from_utf8(blob.content().to_vec()).unwrap())
}

#[test]
fn test_clone_test_repo() {
    let result = clone_test_repo();
    assert!(result.is_ok(), "Failed to clone test repository: {:?}", result.err());

    let (repo_path, _temp_dir) = result.unwrap();
    assert!(repo_path.exists(), "Repository path should exist");
    assert!(repo_path.join(".git").exists(), "Should be a git repository");
}

#[test]
fn test_change_to_branch() {
    let (repo_path, _temp_dir) = clone_test_repo().unwrap();

    let result = change_to_branch(&repo_path, "main");
    assert!(result.is_ok(), "Failed to switch to main branch: {:?}", result.err());
}

#[test]
fn test_get_current_commit_message() {
    let (repo_path, _temp_dir) = clone_test_repo().unwrap();

    let result = get_current_commit_message(&repo_path);
    assert!(result.is_ok(), "Failed to get current commit message: {:?}", result.err());

    let message = result.unwrap();
    assert!(!message.is_empty(), "Commit message should not be empty");
}

#[test]
fn test_full_workflow() {
    let (repo_path, _temp_dir) = clone_test_repo().unwrap();

    change_to_branch(&repo_path, "main").unwrap();
    let message = get_current_commit_message(&repo_path).unwrap();

    assert!(!message.is_empty(), "Should have a commit message");
}

#[test]
fn test_squish_conflict_branch_should_fail() {
    let (repo_path, _temp_dir) = clone_test_repo().expect("Failed to clone test repository");

    change_to_branch(&repo_path, "conflict").expect("Failed to checkout conflict branch");

    let repo = Repository::open(&repo_path).expect("Failed to open repository");
    let branch_refname = get_current_branch_name(&repo).expect("Failed to get current branch name");

    change_to_branch(&repo_path, "topic").expect("Failed to ensure topic branch exists");
    change_to_branch(&repo_path, "conflict").expect("Failed to return to conflict branch");

    let repo_path_str = repo_path.to_str().expect("Invalid repo path");
    let result = squash_branch(repo_path_str, branch_refname, "topic".to_string());

    assert!(
        result.is_err(),
        "Expected squash operation to fail due to merge conflict, but it succeeded"
    );

    let error = result.unwrap_err();
    match error {
        SquishError::Git { message } => {
            assert!(
                message.contains("conflict"),
                "Expected conflict-related error message, got: '{}'",
                message
            );
        }
        _ => panic!("Expected SquishError::Git with conflict message, got: {:?}", error),
    }
}

#[test]
fn squash_replaces_topic_with_one_commit_on_main() {
    let (repo_path, _temp_dir) = clone_test_repo().unwrap();
    change_to_branch(&repo_path, "topic").unwrap();
    let repo = Repository::open(&repo_path).unwrap();
    let branch = get_current_branch_name(&repo).unwrap();
    assert_eq!(branch, "refs/heads/topic");
    let main_id = repo.refname_to_id("refs/heads/main").unwrap();

    let done = squash_branch(repo_path.to_str().unwrap(), branch.clone(), "main".to_string()).unwrap();

    let repo = Repository::open(&repo_path).unwrap();
    let new_id = repo.refname_to_id("refs/heads/topic").unwrap();
    assert_eq!(done, format!("Successfully rebased and updated refs/heads/topic to {}.", new_id));
    let squashed = repo.find_commit(new_id).unwrap();
    // One parent: the upstream commit.
    assert_eq!(squashed.parent_count(), 1);
    assert_eq!(squashed.parent_id(0).unwrap(), main_id);
    // The tree a plain rebase gives: topic's text.txt beside main's other.txt.
    assert_eq!(file_in(&repo, new_id, "text.txt").unwrap(), TOPIC_TEXT_2);
    assert_eq!(file_in(&repo, new_id, "other.txt").unwrap(), MAIN_OTHER);
    // HEAD still names the branch and resolves to the new commit.
    let head = repo.head().unwrap();
    assert_eq!(head.name().unwrap(), "refs/heads/topic");
    assert_eq!(head.target().unwrap(), new_id);
    assert_eq!(
        squashed.message().unwrap(),
        "Topic Branch Start\n\nSquashed commits:\n* Topic Branch Start\n* Topic continues\n"
    );
}

#[test]
fn squash_matches_a_plain_rebase_tree() {
    let (repo_path, _temp_dir) = clone_test_repo().unwrap();
    change_to_branch(&repo_path, "topic").unwrap();
    let repo = Repository::open(&repo_path).unwrap();
    // A plain in-memory rebase of topic onto main, for comparison.
    let branch = repo.reference_to_annotated_commit(&repo.find_reference("refs/heads/topic").unwrap()).unwrap();
    let main_id = repo.refname_to_id("refs/heads/main").unwrap();
    let upstream = repo.find_annotated_commit(main_id).unwrap();
    let mut opts = git2::RebaseOptions::new();
    opts.inmemory(true);
    let mut rebase = repo.rebase(Some(&branch), Some(&upstream), None, Some(&mut opts)).unwrap();
    let sig = repo.signature().unwrap();
    let mut last = main_id;
    while let Some(op) = rebase.next() {
        op.unwrap();
        last = rebase.commit(None, &sig, None).unwrap();
    }
    let expected_tree = repo.find_commit(last).unwrap().tree_id();
    drop(rebase);

    squash_branch(repo_path.to_str().unwrap(), "refs/heads/topic".to_string(), "main".to_string()).unwrap();
    let new_id = repo.refname_to_id("refs/heads/topic").unwrap();
    assert_eq!(repo.find_commit(new_id).unwrap().tree_id(), expected_tree);
}

#[test]
fn squashing_twice_is_content_equivalent() {
    let (repo_path, _temp_dir) = clone_test_repo().unwrap();
    change_to_branch(&repo_path, "topic").unwrap();
    let path = repo_path.to_str().unwrap();
    squash_branch(path, "refs/heads/topic".to_string(), "main".to_string()).unwrap();
    let repo = Repository::open(&repo_path).unwrap();
    let first = repo.refname_to_id("refs/heads/topic").unwrap();
    squash_branch(path, "refs/heads/topic".to_string(), "main".to_string()).unwrap();
    let second = repo.refname_to_id("refs/heads/topic").unwrap();
    let a = repo.find_commit(first).unwrap();
    let b = repo.find_commit(second).unwrap();
    assert_eq!(a.tree_id(), b.tree_id());
    assert_eq!(b.parent_count(), 1);
    assert_eq!(a.parent_id(0).unwrap(), b.parent_id(0).unwrap());
}

#[test]
fn branch_at_upstream_is_an_empty_range() {
    let (repo_path, _temp_dir) = clone_test_repo().unwrap();
    let repo = Repository::open(&repo_path).unwrap();
    let before = repo.refname_to_id("refs/heads/main").unwrap();
    let result = squash_branch(repo_path.to_str().unwrap(), "refs/heads/main".to_string(), "main".to_string());
    match result {
        Err(SquishError::Other { message }) => assert_eq!(message, "No commits found in the range to squash"),
        other => panic!("expected an empty-range failure, got {:?}", other),
    }
    assert_eq!(repo.refname_to_id("refs/heads/main").unwrap(), before);
}

#[test]
fn branch_behind_upstream_is_an_empty_range() {
    let (repo_path, _temp_dir) = clone_test_repo().unwrap();
    let repo = Repository::open(&repo_path).unwrap();
    let main = repo.find_commit(repo.refname_to_id("refs/heads/main").unwrap()).unwrap();
    let base = main.parent(0).unwrap();
    repo.branch("behind", &base, false).unwrap();
    let result = squash_branch(repo_path.to_str().unwrap(), "refs/heads/behind".to_string(), "main".to_string());
    assert!(matches!(result, Err(SquishError::Other { .. })));
    assert_eq!(repo.refname_to_id("refs/heads/behind").unwrap(), base.id());
}

#[test]
fn conflict_leaves_the_branch_unchanged() {
    let (repo_path, _temp_dir) = clone_test_repo().unwrap();
    change_to_branch(&repo_path, "topic").unwrap();
    change_to_branch(&repo_path, "conflict").unwrap();
    let repo = Repository::open(&repo_path).unwrap();
    let before = repo.refname_to_id("refs/heads/conflict").unwrap();
    let result = squash_branch(repo_path.to_str().unwrap(), "refs/heads/conflict".to_string(), "topic".to_string());
    match result {
        Err(SquishError::Git { message }) => assert_eq!(
            message,
            "There was a conflict during this squish, please retry using git rebase -i and resolve the conflicts"
        ),
        other => panic!("expected a conflict, got {:?}", other),
    }
    assert_eq!(repo.refname_to_id("refs/heads/conflict").unwrap(), before);
    assert_eq!(repo.head().unwrap().name().unwrap(), "refs/heads/conflict");
}

#[test]
fn three_commits_are_listed_oldest_first() {
    let dir = tempfile::tempdir().unwrap();
    let repo = Repository::init(dir.path()).unwrap();
    set_identity(&repo);
    let base = commit_files(&repo, None, &[("f.txt", "0\n")], "Base", 1_700_000_000);
    let a = commit_files(&repo, Some(base), &[("f.txt", "1\n")], "A", 1_700_000_100);
    let b = commit_files(&repo, Some(a), &[("f.txt", "2\n")], "B", 1_700_000_200);
    let c = commit_files(&repo, Some(b), &[("f.txt", "3\n")], "C", 1_700_000_300);
    repo.reference("refs/heads/main", base, true, "fixture").unwrap();
    repo.reference("refs/heads/work", c, true, "fixture").unwrap();
    repo.set_head("refs/heads/main").unwrap();

    squash_branch(dir.path().to_str().unwrap(), "refs/heads/work".to_string(), "main".to_string()).unwrap();
    let new_id = repo.refname_to_id("refs/heads/work").unwrap();
    let squashed = repo.find_commit(new_id).unwrap();
    assert_eq!(squashed.message().unwrap(), "A\n\nSquashed commits:\n* A\n* B\n* C\n");
    assert_eq!(squashed.parent_id(0).unwrap(), base);
    assert_eq!(file_in(&repo, new_id, "f.txt").unwrap(), "3\n");
    // HEAD named another branch and stays there.
    assert_eq!(repo.head().unwrap().name().unwrap(), "refs/heads/main");
    assert_eq!(repo.head().unwrap().target().unwrap(), base);
}

#[test]
fn detached_head_at_one_branch_names_it() {
    let (repo_path, _temp_dir) = clone_test_repo().unwrap();
    let repo = Repository::open(&repo_path).unwrap();
    let main_id = repo.refname_to_id("refs/heads/main").unwrap();
    repo.set_head_detached(main_id).unwrap();
    assert_eq!(get_current_branch_name(&repo).unwrap(), "refs/heads/main");
}

#[test]
fn detached_head_at_no_branch_fails() {
    let (repo_path, _temp_dir) = clone_test_repo().unwrap();
    let repo = Repository::open(&repo_path).unwrap();
    let main = repo.find_commit(repo.refname_to_id("refs/heads/main").unwrap()).unwrap();
    repo.set_head_detached(main.parent_id(0).unwrap()).unwrap();
    match get_current_branch_name(&repo) {
        Err(SquishError::Other { message }) => assert_eq!(
            message,
            "Cannot determine current branch - HEAD is detached and no branch points to current commit"
        ),
        other => panic!("expected a detached-HEAD failure, got {:?}", other),
    }
}

#[test]
fn attached_head_names_its_branch() {
    let (repo_path, _temp_dir) = clone_test_repo().unwrap();
    change_to_branch(&repo_path, "conflict").unwrap();
    let repo = Repository::open(&repo_path).unwrap();
    assert_eq!(get_current_branch_name(&repo).unwrap(), "refs/heads/conflict");
}

#[test]
fn unknown_names_are_reported() {
    let (repo_path, _temp_dir) = clone_test_repo().unwrap();
    let path = repo_path.to_str().unwrap();
    let r = squash_branch(path, "refs/heads/nope".to_string(), "main".to_string());
    assert_eq!(fail(r.unwrap_err()), "Branch not found: refs/heads/nope");
    let r = squash_branch(path, "refs/heads/main".to_string(), "no-such-upstream".to_string());
    assert_eq!(fail(r.unwrap_err()), "Upstream not found: no-such-upstream");
    let r = squash_branch("/nonexistent/squish/repo", "refs/heads/main".to_string(), "main".to_string());
    assert!(matches!(r, Err(SquishError::Git { .. })));
}

use dotplugs::git::branch::{get_current_branch, read_head_branch};
use dotplugs::git::status::{
    begin_resolution, collect_statuses, get_status_after_fetch, get_update_status,
    remote_branch_name, worker_count, Resolution, StatusError,
};
use dotplugs::git::{classify, GitStatus, UpdateStatus};
use dotplugs::repository::Repository;

fn signature() -> git2::Signature<'static> {
    git2::Signature::now("tester", "tester@example.com").unwrap()
}

/// A repository at `path` whose `master` holds one commit, with HEAD on it.
fn repository_with_one_commit(path: &str) -> (git2::Repository, git2::Oid) {
    let mut opts = git2::RepositoryInitOptions::new();
    opts.initial_head("master");
    let repo = git2::Repository::init_opts(path, &opts).unwrap();
    let tree_id = repo.index().unwrap().write_tree().unwrap();
    let oid = {
        let tree = repo.find_tree(tree_id).unwrap();
        let sig = signature();
        repo.commit(None, &sig, &sig, "first", &tree, &[]).unwrap()
    };
    repo.reference("refs/heads/master", oid, true, "test").unwrap();
    repo.set_head("refs/heads/master").unwrap();
    (repo, oid)
}

/// A commit on top of `parent`, on no branch.
fn commit_after(repo: &git2::Repository, parent: git2::Oid) -> git2::Oid {
    let parent = repo.find_commit(parent).unwrap();
    let tree = parent.tree().unwrap();
    let sig = signature();
    repo.commit(None, &sig, &sig, "second", &tree, &[&parent]).unwrap()
}

fn descriptor(uri: &str, dir: &str) -> Repository {
    Repository { uri: uri.to_string(), dir: dir.to_string() }
}

fn status(uri: &str, st: UpdateStatus) -> GitStatus {
    GitStatus {
        uri: uri.to_string(),
        dir: format!("/tmp/{}", uri),
        branch: "master".to_string(),
        status: st,
    }
}

#[test]
fn classify_equal_ids_is_already() {
    let a = vec![1u8, 2, 3, 4];
    assert_eq!(classify(&a, &a.clone()), UpdateStatus::Already);
}

#[test]
fn classify_different_ids_is_required() {
    assert_eq!(classify(&vec![1u8, 2, 3], &vec![1u8, 2, 4]), UpdateStatus::Required);
    assert_eq!(classify(&vec![1u8, 2, 3], &vec![1u8, 2]), UpdateStatus::Required);
    assert_eq!(classify(&vec![], &vec![0u8]), UpdateStatus::Required);
}

#[test]
fn current_branch_of_what_was_read() {
    assert_eq!(get_current_branch(Some(Some("bisect".to_string()))), "bisect");
    assert_eq!(get_current_branch(Some(None)), "master");
    assert_eq!(get_current_branch(None), "master");
}

#[test]
fn detached_head_reads_no_branch() {
    let dir = "/tmp/dotplugs_test_detached_read";
    let (repo, oid) = repository_with_one_commit(dir);
    repo.set_head_detached(oid).unwrap();
    assert_eq!(read_head_branch(&repo).unwrap(), None);
}

#[test]
fn remote_branch_name_prefixes_origin() {
    assert_eq!(remote_branch_name("master"), "origin/master");
    assert_eq!(remote_branch_name("bisect"), "origin/bisect");
}

#[test]
fn fresh_clone_is_already() {
    let dir = "/tmp/dotplugs_test_fresh_clone";
    let (repo, oid) = repository_with_one_commit(dir);
    repo.reference("refs/remotes/origin/master", oid, true, "test").unwrap();
    let d = descriptor("https://example.com/x/y", dir);
    let git_repo = match begin_resolution(&d) {
        Resolution::Fetch(g, cmd) => {
            assert_eq!(cmd.dir, dir);
            g
        }
        Resolution::Classified(_) => panic!("a repository was not opened"),
    };
    let st = get_status_after_fetch(&d, &git_repo).unwrap();
    assert_eq!(st.status, UpdateStatus::Already);
    assert_eq!(st.branch, "master");
    assert_eq!(st.uri, "https://example.com/x/y");
    assert_eq!(st.dir, dir);
}

#[test]
fn remote_ahead_is_required() {
    let dir = "/tmp/dotplugs_test_remote_ahead";
    let (repo, oid) = repository_with_one_commit(dir);
    let newer = commit_after(&repo, oid);
    repo.reference("refs/remotes/origin/master", newer, true, "test").unwrap();
    let d = descriptor("https://example.com/x/y", dir);
    let st = get_status_after_fetch(&d, &repo).unwrap();
    assert_eq!(st.status, UpdateStatus::Required);
    assert_eq!(get_update_status(&repo).unwrap(), UpdateStatus::Required);
}

#[test]
fn current_branch_follows_head() {
    let dir = "/tmp/dotplugs_test_current_branch";
    let (repo, oid) = repository_with_one_commit(dir);
    repo.reference("refs/heads/bisect", oid, true, "test").unwrap();
    repo.set_head("refs/heads/bisect").unwrap();
    assert_eq!(get_current_branch(read_head_branch(&repo).unwrap()), "bisect");
}

#[test]
fn detached_head_falls_back_to_master() {
    let dir = "/tmp/dotplugs_test_detached";
    let (repo, oid) = repository_with_one_commit(dir);
    repo.reference("refs/remotes/origin/master", oid, true, "test").unwrap();
    repo.set_head_detached(oid).unwrap();
    assert_eq!(get_current_branch(read_head_branch(&repo).unwrap()), "master");
    assert_eq!(get_update_status(&repo).unwrap(), UpdateStatus::Already);
}

#[test]
fn missing_remote_branch_is_an_error() {
    let dir = "/tmp/dotplugs_test_no_remote";
    let (repo, _) = repository_with_one_commit(dir);
    repo.reference("refs/heads/lonely", repo.head().unwrap().target().unwrap(), true, "test")
        .unwrap();
    repo.set_head("refs/heads/lonely").unwrap();
    match get_update_status(&repo) {
        Err(StatusError::Revision(spec, _)) => assert_eq!(spec, "origin/lonely"),
        other => panic!("unexpected outcome {:?}", other.is_ok()),
    }
}

#[test]
fn missing_path_is_not_a_repository() {
    let d = descriptor("https://example.com/x/z", "/tmp/does-not-exist");
    match begin_resolution(&d) {
        Resolution::Classified(st) => {
            assert_eq!(st.status, UpdateStatus::NotGitRepository);
            assert_eq!(st.branch, "master");
            assert_eq!(st.uri, "https://example.com/x/z");
            assert_eq!(st.dir, "/tmp/does-not-exist");
        }
        Resolution::Fetch(_, _) => panic!("a missing path opened"),
    }
}

#[test]
fn opened_repository_asks_for_fetch() {
    let dir = "/tmp/dotplugs_test_fetch_step";
    repository_with_one_commit(dir);
    match begin_resolution(&descriptor("u", dir)) {
        Resolution::Fetch(_, cmd) => {
            assert_eq!(cmd.program, "git");
            assert_eq!(cmd.args, vec!["fetch".to_string(), "-a".to_string()]);
            assert!(!cmd.discard_stdout);
        }
        Resolution::Classified(_) => panic!("a repository was not opened"),
    }
}

#[test]
fn failed_fetch_still_yields_a_status() {
    // The fetch of this repository is never run: it has no remote to fetch
    // from. Resolution goes on with the remote-tracking data already there.
    let dir = "/tmp/dotplugs_test_failed_fetch";
    let (repo, oid) = repository_with_one_commit(dir);
    repo.reference("refs/remotes/origin/master", oid, true, "test").unwrap();
    let d = descriptor("https://example.com/x/w", dir);
    let outcomes = vec![
        Ok(status("a", UpdateStatus::Already)),
        get_status_after_fetch(&d, &repo),
        Ok(status("c", UpdateStatus::NotGitRepository)),
    ];
    let batch = collect_statuses(outcomes);
    assert_eq!(batch.len(), 3);
    assert_eq!(batch[1].status, UpdateStatus::Already);
}

#[test]
fn batch_keeps_every_status_in_order() {
    let outcomes = vec![
        Ok(status("a", UpdateStatus::Already)),
        Ok(status("b", UpdateStatus::Required)),
        Ok(status("c", UpdateStatus::NotGitRepository)),
    ];
    let batch = collect_statuses(outcomes);
    let uris: Vec<&str> = batch.iter().map(|s| s.uri.as_str()).collect();
    assert_eq!(uris, vec!["a", "b", "c"]);
}

#[test]
fn batch_drops_unrecoverable_errors_only() {
    let outcomes = vec![
        Ok(status("a", UpdateStatus::Already)),
        Err(StatusError::TimedOut),
        Ok(status("c", UpdateStatus::Required)),
    ];
    let batch = collect_statuses(outcomes);
    let uris: Vec<&str> = batch.iter().map(|s| s.uri.as_str()).collect();
    assert_eq!(uris, vec!["a", "c"]);
}

#[test]
fn empty_batch() {
    assert!(collect_statuses(vec![]).is_empty());
}

#[test]
fn worker_count_is_bounded() {
    assert_eq!(worker_count(8, None), 8);
    assert_eq!(worker_count(8, Some(4)), 4);
    assert_eq!(worker_count(2, Some(4)), 2);
    assert_eq!(worker_count(0, None), 1);
    assert_eq!(worker_count(8, Some(0)), 1);
}

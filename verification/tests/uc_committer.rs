use std::sync::Arc;

use delta_kernel_ffi::models::ClientCommitRequest;
use delta_kernel_ffi::uc_committer::{
    ratification_request, staged_file_name, CommitMetadata, CommitResponse, FileMeta, UCCommitter,
};
use delta_kernel_ffi::{DeltaError, DeltaResult};

const STAGED: &str = "s3://bucket/table/_delta_log/_staged_commits/00000000000000000010.uuid.json";

fn metadata(version: u64, max_published_version: Option<u64>) -> CommitMetadata {
    CommitMetadata {
        table_root: "s3://bucket/table/".to_string(),
        version,
        in_commit_timestamp: 2000000000,
        max_published_version,
    }
}

fn file(size: u64) -> FileMeta {
    FileMeta { location: STAGED.to_string(), last_modified: 2000000100, size }
}

/// Commits with outside work that gives the arguments, and returns what the catalog was asked
/// together with what came of the commit.
fn run(
    metadata: CommitMetadata,
    path: DeltaResult<String>,
    write: DeltaResult<()>,
    looked_up: DeltaResult<FileMeta>,
    reply: Result<(), String>,
) -> (Option<ClientCommitRequest>, DeltaResult<CommitResponse>) {
    let committer = UCCommitter::new(Arc::new(()), "test_table_id".to_string());
    let staged = match committer.commit(metadata).staged(path) {
        Ok(staged) => staged,
        Err(e) => return (None, Err(e)),
    };
    assert!(!staged.overwrite());
    let written_to = staged.path().to_string();
    let written = match staged.written(write) {
        Ok(written) => written,
        Err(e) => return (None, Err(e)),
    };
    assert_eq!(written.path(), written_to);
    match written.looked_up(looked_up) {
        Ok((request, ratifying)) => (Some(request), ratifying.ratified(reply)),
        Err(e) => (None, Err(e)),
    }
}

fn run_ok(
    metadata: CommitMetadata,
    path: &str,
    size: u64,
) -> (Option<ClientCommitRequest>, DeltaResult<CommitResponse>) {
    run(metadata, Ok(path.to_string()), Ok(()), Ok(file(size)), Ok(()))
}

fn message<T: std::fmt::Debug>(r: DeltaResult<T>) -> String {
    match r {
        Err(DeltaError::Generic(message)) => message,
        other => panic!("expected a message, got {other:?}"),
    }
}

#[test]
fn ratified_commit_is_committed() {
    let (request, response) = run_ok(metadata(10, Some(8)), STAGED, 1024);

    let request = request.unwrap();
    assert_eq!(request.table_id, "test_table_id");
    assert_eq!(request.table_uri, "s3://bucket/table/");
    assert_eq!(request.latest_backfilled_version, Some(8));
    assert!(request.metadata.is_none());
    assert!(request.protocol.is_none());
    let commit = request.commit_info.unwrap();
    assert_eq!(commit.version, 10);
    assert_eq!(commit.timestamp, 2000000000);
    assert_eq!(commit.file_name, "00000000000000000010.uuid.json");
    assert_eq!(commit.file_size, 1024);
    assert_eq!(commit.file_modification_timestamp, 2000000100);

    match response.unwrap() {
        CommitResponse::Committed { file_meta } => {
            assert_eq!(file_meta.location, STAGED);
            assert_eq!(file_meta.size, 1024);
            assert_eq!(file_meta.last_modified, 2000000100);
        }
        other => panic!("expected a commit, got {other:?}"),
    }
}

#[test]
fn copies_of_a_committer_commit_alike() {
    let client = Arc::new(());
    let committer = UCCommitter::new(client.clone(), "id".to_string()).clone();
    assert!(Arc::ptr_eq(committer.commits_client(), &client));
    let pending = committer.commit(metadata(1, None));
    let written = pending.staged(Ok(STAGED.to_string())).unwrap().written(Ok(())).unwrap();
    assert_eq!(written.looked_up(Ok(file(1))).unwrap().0.table_id, "id");
}

#[test]
fn unpublished_table_names_no_published_version() {
    let (request, response) = run_ok(metadata(1, None), STAGED, 0);
    assert_eq!(request.unwrap().latest_backfilled_version, None);
    assert!(response.is_ok());
}

#[test]
fn refused_commit_gives_the_reason() {
    let (request, response) = run(
        metadata(10, None),
        Ok(STAGED.to_string()),
        Ok(()),
        Ok(file(1)),
        Err("table is gone".to_string()),
    );
    assert!(request.is_some());
    assert_eq!(message(response), "UC commit error: table is gone");
}

#[test]
fn first_failure_ends_the_commit() {
    let fail = |what: &str| Err(DeltaError::generic(what));
    let path = || Ok(STAGED.to_string());
    let (request, r) = run(metadata(1, None), fail("path"), Ok(()), Ok(file(1)), Ok(()));
    assert!(request.is_none());
    assert_eq!(message(r), "path");
    let r = run(metadata(1, None), path(), Err(DeltaError::generic("write")), Ok(file(1)), Ok(()));
    assert!(r.0.is_none());
    assert_eq!(message(r.1), "write");
    let r = run(metadata(1, None), path(), Ok(()), Err(DeltaError::generic("head")), Ok(()));
    assert!(r.0.is_none());
    assert_eq!(message(r.1), "head");
}

#[test]
fn counts_must_fit() {
    let largest = i64::MAX as u64;
    assert!(run_ok(metadata(largest, Some(largest)), STAGED, largest).1.is_ok());
    assert_eq!(
        message(run_ok(metadata(largest + 1, None), STAGED, 1).1),
        "commit version does not fit into i64 for UC commit"
    );
    assert_eq!(
        message(run_ok(metadata(1, None), STAGED, largest + 1).1),
        "committed size does not fit into i64"
    );
    assert_eq!(
        message(run_ok(metadata(1, Some(u64::MAX)), STAGED, 1).1),
        "Max published version 18446744073709551615 does not fit into i64 for UC commit"
    );
}

#[test]
fn version_is_looked_at_before_the_path() {
    assert_eq!(
        message(run_ok(metadata(u64::MAX, Some(u64::MAX)), "data:text", u64::MAX).1),
        "commit version does not fit into i64 for UC commit"
    );
    assert_eq!(
        message(run_ok(metadata(1, Some(u64::MAX)), "data:text", u64::MAX).1),
        "staged commit contained no path segments"
    );
    assert_eq!(
        message(run_ok(metadata(1, Some(u64::MAX)), STAGED, u64::MAX).1),
        "committed size does not fit into i64"
    );
}

#[test]
fn file_name_is_the_last_segment() {
    let file_name = |path: &str| {
        run_ok(metadata(1, None), path, 1).0.unwrap().commit_info.unwrap().file_name
    };
    assert_eq!(file_name("memory:///a.json"), "a.json");
    assert_eq!(file_name("file:///t/_delta_log/a%20b.json?x=/y"), "a%20b.json");
    assert_eq!(file_name("https://host/dir/"), "");
}

#[test]
fn segments_decide_the_file_name() {
    let segments = vec!["dir".to_string(), "file".to_string()];
    assert_eq!(staged_file_name(Some(segments)).unwrap(), "file");
    assert_eq!(
        message(staged_file_name(None)),
        "staged commit contained no path segments"
    );
    assert_eq!(
        message(staged_file_name(Some(vec![]))),
        "staged commit segments next_back was empty"
    );
}

#[test]
fn request_is_made_of_given_segments() {
    let request = ratification_request(
        &"id".to_string(),
        &metadata(3, Some(2)),
        Some(vec!["x".to_string(), "y.json".to_string()]),
        &file(7),
    )
    .unwrap();
    assert_eq!(request.table_id, "id");
    assert_eq!(request.latest_backfilled_version, Some(2));
    assert_eq!(request.commit_info.unwrap().file_name, "y.json");
}

use std::sync::Arc;

use delta_kernel::engine::default::DefaultEngineBuilder;
use delta_kernel::Engine;
use delta_kernel_ffi::publish::{CatalogCommit, PublishStep};
use delta_kernel_ffi::uc_committer::UCCommitter;
use delta_kernel_ffi::{DeltaError, DeltaResult};
use object_store::memory::InMemory;
use object_store::path::Path;
use object_store::ObjectStore;
use url::Url;

struct MockCommitsClient;

fn committer() -> UCCommitter<MockCommitsClient> {
    UCCommitter::new(Arc::new(MockCommitsClient), "testUcTableId".to_string())
}

fn staged_commit_path(version: u64) -> String {
    format!("_delta_log/_staged_commits/{:020}.uuid.json", version)
}

fn published_commit_path(version: u64) -> String {
    format!("_delta_log/{:020}.json", version)
}

fn catalog_commits(table_root: &str, versions: &[u64]) -> Vec<CatalogCommit> {
    versions
        .iter()
        .map(|v| CatalogCommit {
            version: *v,
            location: format!("{}{}", table_root, staged_commit_path(*v)),
            published_location: format!("{}{}", table_root, published_commit_path(*v)),
        })
        .collect()
}

/// Publishes with copies that give what `copy` says, and returns which versions were copied
/// together with what came of it.
fn run(
    commits: Vec<CatalogCommit>,
    mut copy: impl FnMut(&CatalogCommit) -> DeltaResult<()>,
) -> (Vec<u64>, DeltaResult<()>) {
    let mut copied = vec![];
    let mut step = committer().publish(commits);
    loop {
        match step {
            PublishStep::Copy(publication) => {
                let result = copy(publication.commit());
                copied.push(publication.commit().version);
                step = publication.copied(result);
            }
            PublishStep::Done(result) => return (copied, result),
        }
    }
}

#[test]
fn test_publish() {
    let storage = Arc::new(InMemory::new());
    let versions = [10u64, 11, 12];

    // Write the staged commits, and publish the first of them (it should be skipped, not error)
    for v in versions {
        let contents = format!("version: {}", v);
        let path = Path::from(staged_commit_path(v));
        pollster::block_on(storage.put(&path, contents.into())).unwrap();
    }
    let existing_published = Path::from(published_commit_path(10));
    pollster::block_on(storage.put(&existing_published, "version: 10".into())).unwrap();

    let engine = DefaultEngineBuilder::new(storage.clone()).build();
    let (copied, result) = run(catalog_commits("memory:///", &versions), |commit| {
        let src = Url::parse(&commit.location).unwrap();
        let dest = Url::parse(&commit.published_location).unwrap();
        match engine.storage_handler().copy_atomic(&src, &dest) {
            Ok(()) => Ok(()),
            Err(delta_kernel::Error::FileAlreadyExists(path)) => {
                Err(DeltaError::FileAlreadyExists(path))
            }
            Err(e) => Err(DeltaError::Kernel(e)),
        }
    });
    result.unwrap();
    assert_eq!(copied, versions);

    for v in versions {
        let path = Path::from(published_commit_path(v));
        let published = pollster::block_on(storage.get(&path)).unwrap();
        let bytes = pollster::block_on(published.bytes()).unwrap();
        assert_eq!(bytes.as_ref(), format!("version: {}", v).as_bytes());
    }
}

#[test]
fn nothing_to_publish_is_fine() {
    let (copied, result) = run(vec![], |_| Err(DeltaError::generic("never")));
    assert!(copied.is_empty());
    assert!(result.is_ok());
}

#[test]
fn existing_targets_are_skipped() {
    let (copied, result) = run(catalog_commits("memory:///", &[1, 2, 3]), |commit| {
        Err(DeltaError::FileAlreadyExists(commit.published_location.clone()))
    });
    assert_eq!(copied, [1, 2, 3]);
    assert!(result.is_ok());
}

#[test]
fn publishing_stops_at_the_first_failure() {
    let (copied, result) = run(catalog_commits("memory:///", &[4, 5, 6]), |commit| {
        if commit.version < 5 {
            Ok(())
        } else {
            Err(DeltaError::generic("no space"))
        }
    });
    assert_eq!(copied, [4, 5]);
    match result {
        Err(DeltaError::Generic(message)) => assert_eq!(message, "no space"),
        other => panic!("expected a failure, got {other:?}"),
    }
}

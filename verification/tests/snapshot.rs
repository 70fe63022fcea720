use std::cell::RefCell;
use std::sync::Arc;

use delta_kernel::engine::default::executor::tokio::{
    TokioBackgroundExecutor, TokioMultiThreadExecutor,
};
use delta_kernel::engine::default::{DefaultEngine, DefaultEngineBuilder};
use delta_kernel::{Engine, FileMeta, LogPath, Snapshot};
use delta_kernel_ffi::engine::{engine_to_handle, ExternEngineVtable, TaskExecutor};
use delta_kernel_ffi::snapshot::{
    get_snapshot_builder_impl, snapshot_of_table, FfiSnapshotBuilder, FfiSnapshotBuilderSource,
    SnapshotPlan,
};
use delta_kernel_ffi::{
    builder_build, get_engine_builder, get_partition_column_count, get_partition_columns,
    get_snapshot_builder, get_snapshot_builder_from, logical_schema,
    set_builder_with_multithreaded_executor, snapshot, snapshot_at_version,
    snapshot_at_version_with_log_tail, snapshot_builder_build, snapshot_builder_set_log_tail,
    snapshot_builder_set_version, snapshot_table_root, snapshot_with_log_tail, string_slice_next,
    version, DeltaError, DeltaResult, KernelStringSlice, SharedExternEngine, SharedSnapshot,
    TryFromStringSlice,
};
use object_store::local::LocalFileSystem;
use object_store::memory::InMemory;
use object_store::path::Path;
use object_store::ObjectStore;
use url::Url;

const PROTOCOL: &str = r#"{"protocol":{"minReaderVersion":1,"minWriterVersion":2}}"#;

fn metadata_action(partition_columns: &str) -> String {
    let schema = concat_schema();
    format!(
        r#"{{"metaData":{{"id":"5fba94ed-9794-4965-ba6e-6ee3c0d22af9","format":{{"provider":"parquet","options":{{}}}},"schemaString":"{schema}","partitionColumns":[{partition_columns}],"configuration":{{}},"createdTime":1587968585495}}}}"#
    )
}

fn concat_schema() -> String {
    let field = |name: &str, kind: &str| {
        format!(
            r#"{{\"name\":\"{name}\",\"type\":\"{kind}\",\"nullable\":true,\"metadata\":{{}}}}"#
        )
    };
    format!(
        r#"{{\"type\":\"struct\",\"fields\":[{},{}]}}"#,
        field("id", "integer"),
        field("val", "string")
    )
}

fn add_action(path: &str) -> String {
    format!(
        r#"{{"add":{{"path":"{path}","partitionValues":{{}},"size":262,"modificationTime":1587968586000,"dataChange":true}}}}"#
    )
}

fn remove_action(path: &str) -> String {
    format!(r#"{{"remove":{{"path":"{path}","deletionTimestamp":1587968586000,"dataChange":true}}}}"#)
}

fn put(store: &dyn ObjectStore, path: String, contents: String) {
    pollster::block_on(store.put(&Path::from(path), contents.into())).unwrap();
}

fn add_commit(store: &dyn ObjectStore, version: u64, actions: String) {
    put(store, format!("_delta_log/{version:020}.json"), actions);
}

fn add_staged_commit(store: &dyn ObjectStore, version: u64, actions: String) -> String {
    let name = format!("{version:020}.3a0d65cd-4056-49b8-937b-95f9e3ee90e{version}.json");
    put(store, format!("_delta_log/_staged_commits/{name}"), actions);
    name
}

fn log_path(location: &str, last_modified: i64, size: u64) -> LogPath {
    let location = Url::parse(location).unwrap();
    LogPath::try_new(FileMeta { location, last_modified, size }).unwrap()
}

type Background = DefaultEngine<TokioBackgroundExecutor>;

/// An empty store, with an engine over it.
fn setup() -> (Arc<InMemory>, SharedExternEngine<Background, u8>) {
    let storage = Arc::new(InMemory::new());
    let engine = DefaultEngineBuilder::new(storage.clone()).build();
    (storage, engine_to_handle(Arc::new(engine), 0))
}

/// A store with a table at version 0.
fn setup_table(partition_columns: &str) -> (Arc<InMemory>, SharedExternEngine<Background, u8>) {
    let (storage, engine) = setup();
    let actions = format!("{PROTOCOL}\n{}", metadata_action(partition_columns));
    add_commit(storage.as_ref(), 0, actions);
    (storage, engine)
}

/// Has the kernel make a snapshot.
fn build<E: Engine>(plan: SnapshotPlan<E>) -> delta_kernel::DeltaResult<SharedSnapshot> {
    let mut builder = match plan.source {
        FfiSnapshotBuilderSource::TableRoot(url) => {
            Snapshot::builder_for(Url::parse(&url).unwrap())
        }
        FfiSnapshotBuilderSource::ExistingSnapshot(old) => Snapshot::builder_from(old),
    };
    if let Some(version) = plan.version {
        builder = builder.at_version(version);
    }
    if let Some(log_tail) = plan.log_tail {
        builder = builder.with_log_tail(log_tail);
    }
    let snapshot = builder.build(plan.engine.as_ref())?;
    Ok(SharedSnapshot {
        version: snapshot.version(),
        schema: snapshot.schema(),
        table_root: snapshot.table_root().to_string(),
        partition_columns: snapshot.table_configuration().partition_columns().to_vec(),
        snapshot,
    })
}

fn slice(path: &str) -> KernelStringSlice<'_> {
    KernelStringSlice::new(path)
}

fn recover_string(slice: KernelStringSlice<'_>) -> String {
    String::try_from_slice(&slice).unwrap()
}

#[test]
fn test_snapshot() {
    let (_storage, engine) = setup_table("");
    let path = "memory:///";

    // Test getting latest snapshot
    let snapshot1 = build(snapshot(slice(path), engine.clone_as_arc()).unwrap()).unwrap();
    assert_eq!(version(&snapshot1), 0);

    // Test getting snapshot at version
    let plan = snapshot_at_version(slice(path), engine.clone_as_arc(), 0).unwrap();
    let snapshot2 = build(plan).unwrap();
    assert_eq!(version(&snapshot2), 0);

    // Test getting non-existent snapshot
    let plan = snapshot_at_version(slice(path), engine.clone_as_arc(), 1).unwrap();
    let error = build(plan).unwrap_err();
    assert_eq!(
        error.to_string(),
        "Generic delta kernel error: LogSegment end version 0 not the same as the specified end version 1"
    );

    let s = snapshot_table_root(&snapshot1, recover_string);
    assert_eq!(&s, path);
}

#[test]
fn test_setting_multithread_executor() {
    let storage = Arc::new(LocalFileSystem::new());
    let dir = "/tmp/delta_kernel_ffi_multithread_executor";
    let in_dir = |name: &str| format!("{dir}/_delta_log/{name}");
    for leftover in ["00000000000000000002.checkpoint.parquet", "_last_checkpoint"] {
        let _ = pollster::block_on(storage.delete(&Path::from(in_dir(leftover))));
    }
    for (name, actions) in [
        ("00000000000000000000.json", format!("{PROTOCOL}\n{}", metadata_action(""))),
        (
            "00000000000000000001.json",
            format!("{}\n{}", add_action("file1.parquet"), add_action("file2.parquet")),
        ),
        (
            "00000000000000000002.json",
            format!("{}\n{}", add_action("file3.parquet"), remove_action("file1.parquet")),
        ),
    ] {
        put(storage.as_ref(), in_dir(name), actions);
    }

    // Build the engine
    let path = format!("file://{dir}");
    let mut builder = get_engine_builder(slice(&path), 0u8).unwrap();
    set_builder_with_multithreaded_executor(&mut builder, 2, 0);
    let plan = builder_build(builder);
    let executor = match plan.executor {
        TaskExecutor::MultiThread(config) => TokioMultiThreadExecutor::new_owned_runtime(
            config.worker_threads,
            config.max_blocking_threads,
        )
        .unwrap(),
        TaskExecutor::Background => panic!("expected several threads"),
    };
    let engine = DefaultEngineBuilder::new(storage)
        .with_task_executor(Arc::new(executor))
        .build();
    let engine = engine_to_handle(Arc::new(engine), plan.allocate_error);

    let made = build(snapshot(slice(&path), engine.clone_as_arc()).unwrap()).unwrap();
    assert_eq!(version(&made), 2);
    let plan = snapshot(slice(&path), engine.clone_as_arc()).unwrap();
    made.snapshot.checkpoint(plan.engine.as_ref()).unwrap();
    let checkpoint = in_dir("00000000000000000002.checkpoint.parquet");
    let store = LocalFileSystem::new();
    assert!(pollster::block_on(store.head(&Path::from(checkpoint))).is_ok());
}

#[test]
fn test_snapshot_partition_cols() {
    let (_storage, engine) = setup_table(r#""val""#);
    let path = "memory:///";
    let made = build(snapshot(slice(path), engine.clone_as_arc()).unwrap()).unwrap();

    let partition_count = get_partition_column_count(&made);
    assert_eq!(partition_count, 1, "Should have one partition");

    let mut partition_iter = get_partition_columns(&made);
    let visited = RefCell::new(0);
    let visit_partition = |context: &RefCell<i32>, slice: KernelStringSlice<'_>| {
        *context.borrow_mut() += 1;
        assert_eq!(recover_string(slice), "val", "Partition col should be 'val'");
    };
    while string_slice_next(&mut partition_iter, &visited, visit_partition) {}
    assert_eq!(*visited.borrow(), 1);
}

#[test]
fn every_column_is_visited_in_order() {
    let (_storage, engine) = setup_table("");
    let mut made = build(snapshot(slice("memory:///"), engine.clone_as_arc()).unwrap()).unwrap();
    made.partition_columns = vec!["b".to_string(), "a".to_string(), "b".to_string()];
    assert_eq!(get_partition_column_count(&made), 3);
    let mut columns = get_partition_columns(&made);
    let visited: RefCell<Vec<String>> = RefCell::default();
    let visit = |context: &RefCell<Vec<String>>, slice: KernelStringSlice<'_>| {
        context.borrow_mut().push(recover_string(slice))
    };
    assert!(string_slice_next(&mut columns, &visited, visit));
    assert!(string_slice_next(&mut columns, &visited, visit));
    assert!(string_slice_next(&mut columns, &visited, visit));
    assert!(!string_slice_next(&mut columns, &visited, visit));
    assert!(!string_slice_next(&mut columns, &visited, visit));
    assert_eq!(*visited.borrow(), ["b", "a", "b"]);
}

#[test]
fn test_snapshot_log_tail() {
    let (storage, engine) = setup_table("");
    let commit1 = add_staged_commit(storage.as_ref(), 1, add_action("path1"));
    let path = "memory:///";

    let commit1_path = format!("{}_delta_log/_staged_commits/{}", path, commit1);
    let log_tail = || -> DeltaResult<Vec<LogPath>> {
        Ok(vec![log_path(&commit1_path, 123456789, 100)])
    };
    let plan = snapshot_with_log_tail(slice(path), engine.clone_as_arc(), log_tail()).unwrap();
    assert_eq!(version(&build(plan).unwrap()), 1);

    // Test getting snapshot at version
    let plan =
        snapshot_at_version_with_log_tail(slice(path), engine.clone_as_arc(), 1, log_tail())
            .unwrap();
    assert_eq!(version(&build(plan).unwrap()), 1);
}

#[test]
fn test_snapshot_with_old_snapshot() {
    let (storage, engine) = setup_table("");
    let path = "memory:///";

    // Create initial snapshot at version 0
    let old_snapshot = build(snapshot(slice(path), engine.clone_as_arc()).unwrap()).unwrap();
    assert_eq!(version(&old_snapshot), 0);

    // Add more commits to the table (version 1 and 2)
    add_commit(storage.as_ref(), 1, add_action("file1.parquet"));
    add_commit(storage.as_ref(), 2, add_action("file2.parquet"));

    // Create new snapshot using old snapshot for optimization (latest version)
    let builder = get_snapshot_builder_from(&old_snapshot, engine.clone_as_arc());
    let new_snapshot = build(snapshot_builder_build(builder)).unwrap();
    assert_eq!(version(&new_snapshot), 2);

    // Create snapshot at specific version using old snapshot for optimization
    let mut builder = get_snapshot_builder_from(&old_snapshot, engine.clone_as_arc());
    snapshot_builder_set_version(&mut builder, 1);
    let snapshot_at_v1 = build(snapshot_builder_build(builder)).unwrap();
    assert_eq!(version(&snapshot_at_v1), 1);
}

#[test]
fn test_snapshot_with_log_tail_and_old_snapshot() {
    let (storage, engine) = setup_table("");
    let path = "memory:///";

    // Create initial snapshot at version 0
    let old_snapshot = build(snapshot(slice(path), engine.clone_as_arc()).unwrap()).unwrap();
    assert_eq!(version(&old_snapshot), 0);

    // Add staged commits (version 1 and 2)
    let commit1 = add_staged_commit(storage.as_ref(), 1, add_action("path1.parquet"));
    let commit2 = add_staged_commit(storage.as_ref(), 2, add_action("path2.parquet"));

    // Build log tail with both commits
    let commit1_path = format!("{}_delta_log/_staged_commits/{}", path, commit1);
    let commit2_path = format!("{}_delta_log/_staged_commits/{}", path, commit2);
    let log_tail = || -> DeltaResult<Vec<LogPath>> {
        Ok(vec![
            log_path(&commit1_path, 123456789, 100),
            log_path(&commit2_path, 123456790, 101),
        ])
    };

    // Create new snapshot using old snapshot for optimization with log tail
    let mut builder = get_snapshot_builder_from(&old_snapshot, engine.clone_as_arc());
    assert!(snapshot_builder_set_log_tail(&mut builder, log_tail()).unwrap());
    let new_snapshot = build(snapshot_builder_build(builder)).unwrap();
    assert_eq!(version(&new_snapshot), 2);

    // Create snapshot at specific version using old snapshot with log tail
    let mut builder = get_snapshot_builder_from(&old_snapshot, engine.clone_as_arc());
    snapshot_builder_set_version(&mut builder, 1);
    assert!(snapshot_builder_set_log_tail(&mut builder, log_tail()).unwrap());
    let snapshot_at_v1 = build(snapshot_builder_build(builder)).unwrap();
    assert_eq!(version(&snapshot_at_v1), 1);
}

fn new_builder() -> FfiSnapshotBuilder<ExternEngineVtable<&'static str, u8>> {
    let engine = engine_to_handle(Arc::new("engine"), 0);
    get_snapshot_builder(slice("memory:///"), engine.clone_as_arc()).unwrap()
}

#[test]
fn last_setting_counts() {
    let mut builder = new_builder();
    snapshot_builder_set_version(&mut builder, 3);
    snapshot_builder_set_version(&mut builder, 5);
    let plan = snapshot_builder_build(builder);
    assert_eq!(plan.version, Some(5));
    assert!(plan.log_tail.is_none());
    assert_eq!(*plan.engine, "engine");
}

#[test]
fn empty_log_tail_counts_as_none() {
    let mut builder = new_builder();
    let location = "memory:///_delta_log/00000000000000000001.json";
    let tail = Ok(vec![log_path(location, 1, 2)]);
    assert!(snapshot_builder_set_log_tail(&mut builder, tail).unwrap());
    assert!(snapshot_builder_set_log_tail(&mut builder, Ok(vec![])).unwrap());
    assert!(snapshot_builder_build(builder).log_tail.is_none());
}

#[test]
fn refused_log_tail_changes_nothing() {
    let mut builder = new_builder();
    let location = "memory:///_delta_log/00000000000000000001.json";
    let tail = Ok(vec![log_path(location, 1, 2)]);
    snapshot_builder_set_log_tail(&mut builder, tail).unwrap();
    match snapshot_builder_set_log_tail(&mut builder, Err(DeltaError::generic("bad path"))) {
        Err(DeltaError::Generic(message)) => assert_eq!(message, "bad path"),
        other => panic!("expected an error, got {other:?}"),
    }
    assert_eq!(snapshot_builder_build(builder).log_tail.unwrap().len(), 1);
}

#[test]
fn path_is_looked_at_before_the_log_tail() {
    let engine = engine_to_handle(Arc::new("engine"), 0);
    let bad_tail = || Err(DeltaError::generic("bad tail"));
    let bad_path = KernelStringSlice::from_bytes(&[0xff]);
    assert!(matches!(
        snapshot_with_log_tail(bad_path, engine.clone_as_arc(), bad_tail()),
        Err(DeltaError::Utf8Error { valid_up_to: 0, .. })
    ));
    assert!(matches!(
        snapshot_at_version_with_log_tail(slice("memory:///"), engine.clone_as_arc(), 1, bad_tail()),
        Err(DeltaError::Generic(_))
    ));
    assert!(matches!(
        get_snapshot_builder_impl(Err(DeltaError::generic("x")), engine.clone_as_arc()),
        Err(DeltaError::Generic(_))
    ));
}

#[test]
fn snapshot_is_of_the_url_that_was_found() {
    let engine = engine_to_handle(Arc::new("engine"), 0);
    let location = "file:///t/_delta_log/00000000000000000001.json";
    let tail = || Some(Ok(vec![log_path(location, 1, 2)]));
    let url = || Ok("file:///t/".to_string());
    let plan = snapshot_of_table(url(), engine.clone_as_arc(), Some(4), tail()).unwrap();
    assert_eq!(*plan.engine, "engine");
    assert_eq!(plan.version, Some(4));
    assert_eq!(plan.log_tail.unwrap().len(), 1);
    match plan.source {
        FfiSnapshotBuilderSource::TableRoot(url) => assert_eq!(url, "file:///t/"),
        other => panic!("expected a table, got {other:?}"),
    }
    let plan = snapshot_of_table(url(), engine.clone_as_arc(), None, None).unwrap();
    assert!(plan.version.is_none());
    assert!(plan.log_tail.is_none());
    let failed = Err(DeltaError::generic("not found"));
    match snapshot_of_table(failed, engine.clone_as_arc(), Some(4), tail()) {
        Err(DeltaError::Generic(message)) => assert_eq!(message, "not found"),
        other => panic!("expected an error, got {other:?}"),
    }
}

#[test]
fn schema_is_shared() {
    let (_storage, engine) = setup_table("");
    let made = build(snapshot(slice("memory:///"), engine.clone_as_arc()).unwrap()).unwrap();
    let schema = logical_schema(&made);
    assert!(Arc::ptr_eq(&schema.schema, &made.schema));
    assert_eq!(schema.schema.fields().len(), 2);
}

use std::sync::Arc;

use delta_kernel::engine::default::storage::store_from_url_opts;
use delta_kernel::engine::default::DefaultEngineBuilder;
use delta_kernel_ffi::engine::{
    get_default_default_engine_impl, get_engine_builder_impl, DefaultEnginePlan,
    MultithreadedExecutorConfig, TaskExecutor,
};
use delta_kernel_ffi::tables::{remote_url, table_url, unwrap_and_parse_path_as_url};
use delta_kernel_ffi::{
    builder_build, engine_to_handle, get_default_engine, get_engine_builder, set_builder_option,
    set_builder_with_multithreaded_executor, DeltaError, DeltaResult, EngineBuilder, ExternEngine,
    KernelStringSlice,
};
use url::Url;

fn builder_for(path: &str) -> EngineBuilder<u8> {
    get_engine_builder(KernelStringSlice::new(path), 7).unwrap()
}

fn sorted_options<A>(plan: DefaultEnginePlan<A>) -> Vec<(String, String)> {
    let mut options = plan.options;
    options.sort();
    options
}

fn pair(name: &str, value: &str) -> (String, String) {
    (name.to_string(), value.to_string())
}

fn set(builder: &mut EngineBuilder<u8>, name: &str, value: &str) {
    let (name, value) = (KernelStringSlice::new(name), KernelStringSlice::new(value));
    assert!(set_builder_option(builder, name, value).unwrap());
}

fn is_error_at<T>(r: DeltaResult<T>, at: usize) -> bool {
    match r {
        Err(DeltaError::Utf8Error { valid_up_to, .. }) => valid_up_to == at,
        _ => false,
    }
}

#[test]
fn engine_builder() {
    let builder = builder_for("memory:///doesntmatter/foo");
    assert_eq!(*builder.allocate_fn(), 7);
    let plan = builder_build(builder);
    let store = store_from_url_opts(&Url::parse(&plan.url).unwrap(), plan.options).unwrap();
    let engine = Arc::new(DefaultEngineBuilder::new(store).build());
    let engine = engine_to_handle(engine, plan.allocate_error);
    assert_eq!(*engine.engine.error_allocator(), 7);
}

#[test]
fn new_builder_makes_the_default_engine() {
    let path = "memory:///doesntmatter/foo";
    let built = builder_build(builder_for(path));
    let default = get_default_engine(KernelStringSlice::new(path), 7).unwrap();
    for plan in [built, default] {
        assert_eq!(plan.url, "memory:///doesntmatter/foo/");
        assert!(plan.options.is_empty());
        assert!(matches!(plan.executor, TaskExecutor::Background));
        assert_eq!(plan.allocate_error, 7);
    }
}

#[test]
fn options_are_set_by_name() {
    let mut builder = builder_for("memory:///");
    set(&mut builder, "region", "here");
    set(&mut builder, "endpoint", "a");
    set(&mut builder, "region", "there");
    builder.set_option("key".to_string(), "value".to_string());
    assert_eq!(
        sorted_options(builder_build(builder)),
        vec![pair("endpoint", "a"), pair("key", "value"), pair("region", "there")]
    );
}

#[test]
fn refused_options_change_nothing() {
    let mut builder = builder_for("memory:///");
    set(&mut builder, "region", "here");
    let bad = |at: usize| if at == 0 { &[0xffu8][..] } else { &[b'a', 0xff][..] };
    let key = KernelStringSlice::from_bytes(bad(0));
    let value = KernelStringSlice::from_bytes(bad(1));
    assert!(is_error_at(set_builder_option(&mut builder, key, value), 0));
    let key = KernelStringSlice::new("region");
    let value = KernelStringSlice::from_bytes(bad(1));
    assert!(is_error_at(set_builder_option(&mut builder, key, value), 1));
    assert_eq!(sorted_options(builder_build(builder)), vec![pair("region", "here")]);
}

#[test]
fn zero_threads_are_left_to_the_executor() {
    let executor = |workers: usize, blocking: usize| {
        let mut builder = builder_for("memory:///");
        set_builder_with_multithreaded_executor(&mut builder, 9, 9);
        set_builder_with_multithreaded_executor(&mut builder, workers, blocking);
        match builder_build(builder).executor {
            TaskExecutor::MultiThread(MultithreadedExecutorConfig {
                worker_threads,
                max_blocking_threads,
            }) => (worker_threads, max_blocking_threads),
            TaskExecutor::Background => panic!("expected several threads"),
        }
    };
    assert_eq!(executor(2, 0), (Some(2), None));
    assert_eq!(executor(0, 5), (None, Some(5)));
    assert_eq!(executor(0, 0), (None, None));
    assert_eq!(executor(1, 3), (Some(1), Some(3)));
}

#[test]
fn paths_of_remote_tables_are_urls() {
    let url = |path: &str| unwrap_and_parse_path_as_url(KernelStringSlice::new(path)).unwrap();
    assert_eq!(url("memory:///"), "memory:///");
    assert_eq!(url("s3://bucket/table"), "s3://bucket/table/");
    assert_eq!(url("https://HOST/a/../b"), "https://host/b/");
}

#[test]
fn remote_paths_are_told_from_paths_on_disk() {
    assert_eq!(remote_url("memory:///").unwrap(), "memory:///");
    assert_eq!(remote_url("s3://bucket/table").unwrap(), "s3://bucket/table/");
    assert_eq!(remote_url("S3://bucket/table/").unwrap(), "s3://bucket/table/");
    assert!(remote_url("file:///tmp/").is_none());
    assert!(remote_url("C:/tables").is_none());
    assert!(remote_url("/tmp").is_none());
    assert!(remote_url("").is_none());
}

#[test]
fn outcome_of_the_search_is_passed_on() {
    assert_eq!(table_url(Ok("memory:///".to_string())).unwrap(), "memory:///");
    match table_url(Err(delta_kernel::Error::generic("gone"))) {
        Err(DeltaError::Kernel(e)) => {
            assert_eq!(e.to_string(), "Generic delta kernel error: gone")
        }
        other => panic!("expected an error, got {other:?}"),
    }
}

#[test]
fn paths_on_disk_are_looked_up() {
    let url = unwrap_and_parse_path_as_url(KernelStringSlice::new("/")).unwrap();
    assert_eq!(url, "file:///");
    let url = unwrap_and_parse_path_as_url(KernelStringSlice::new("file:///tmp")).unwrap();
    assert!(url.starts_with("file:///") && url.ends_with('/'));
    let missing = "/no/such/directory/of/tables";
    assert!(matches!(
        unwrap_and_parse_path_as_url(KernelStringSlice::new(missing)),
        Err(DeltaError::Kernel(_))
    ));
}

#[test]
fn paths_are_utf8() {
    let path = || KernelStringSlice::from_bytes(&[b'/', b'x', 0x80]);
    assert!(is_error_at(unwrap_and_parse_path_as_url(path()), 2));
    assert!(is_error_at(get_engine_builder(path(), 7), 2));
    assert!(is_error_at(get_default_engine(path(), 7), 2));
}

#[test]
fn failed_lookup_is_returned() {
    let failed = || Err(DeltaError::generic("not found"));
    for r in [
        get_engine_builder_impl(failed(), 7).err(),
        get_default_default_engine_impl(failed(), 7).err(),
    ] {
        match r {
            Some(DeltaError::Generic(message)) => assert_eq!(message, "not found"),
            other => panic!("expected an error, got {other:?}"),
        }
    }
}

#[test]
fn engine_is_shared() {
    let inner = Arc::new("engine".to_string());
    let handle = engine_to_handle(inner.clone(), "allocator");
    assert!(Arc::ptr_eq(&handle.engine.engine(), &inner));
    assert!(Arc::ptr_eq(&handle.clone_as_arc(), &handle.engine));
    assert_eq!(*handle.engine.error_allocator(), "allocator");
}

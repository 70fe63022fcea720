use std::cell::RefCell;
use std::sync::Arc;

use delta_kernel_ffi::committer::{
    callback_outcome, create_staged_committer, CommitResponse, ExternContext, FFICommitResponse,
};
use delta_kernel_ffi::{DeltaError, KernelStringSlice, TryFromStringSlice};

type Calls = RefCell<Vec<(String, String)>>;

fn record(
    engine: Arc<String>,
    path: KernelStringSlice<'_>,
    calls: &Calls,
) -> Result<FFICommitResponse, u32> {
    calls
        .borrow_mut()
        .push((engine.to_string(), String::try_from_slice(&path).unwrap()));
    if calls.borrow().len() == 1 {
        Ok(FFICommitResponse::Committed { version: 4 })
    } else {
        Err(1)
    }
}

fn message<T: std::fmt::Debug>(r: Result<T, DeltaError>) -> String {
    match r {
        Err(DeltaError::Generic(message)) => message,
        other => panic!("expected a message, got {other:?}"),
    }
}

#[test]
fn responses_pass_both_ways() {
    let committed = CommitResponse::Committed { version: 3 };
    let conflict = CommitResponse::Conflict { version: u64::MAX };
    assert_eq!(
        FFICommitResponse::from(committed),
        FFICommitResponse::Committed { version: 3 }
    );
    assert_eq!(
        FFICommitResponse::from(conflict),
        FFICommitResponse::Conflict { version: u64::MAX }
    );
    assert_eq!(CommitResponse::from(FFICommitResponse::from(committed)), committed);
    assert_eq!(CommitResponse::from(FFICommitResponse::from(conflict)), conflict);
}

#[test]
fn staged_committer_calls_the_engine() {
    let calls: Calls = RefCell::default();
    let engine = Arc::new("engine".to_string());
    let staged = create_staged_committer(record, &calls, engine).into_inner();

    let first = staged
        .committer
        .commit_request("memory:///a/b.json", Some(&staged.context));
    assert_eq!(first.unwrap(), CommitResponse::Committed { version: 4 });

    let second = staged.committer.commit_request("c", Some(&staged.context));
    assert_eq!(message(second), "External catalog commit callback failed");

    assert_eq!(
        *calls.borrow(),
        vec![
            ("engine".to_string(), "memory:///a/b.json".to_string()),
            ("engine".to_string(), "c".to_string()),
        ]
    );
}

#[test]
fn context_of_another_type_is_refused() {
    let calls: Calls = RefCell::default();
    let staged = create_staged_committer(record, &calls, Arc::new(String::new())).into_inner();
    let none: Option<&ExternContext<&Calls>> = None;
    let r = staged.committer.commit_request("a", none);
    assert_eq!(message(r), "Invalid context type for external committer");
    assert!(calls.borrow().is_empty());
}

#[test]
fn reply_decides_the_outcome() {
    let conflict: Result<FFICommitResponse, ()> = Ok(FFICommitResponse::Conflict { version: 9 });
    assert_eq!(callback_outcome(conflict).unwrap(), CommitResponse::Conflict { version: 9 });
    assert_eq!(message(callback_outcome(Err(()))), "External catalog commit callback failed");
}

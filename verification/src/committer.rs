//! Committers that an engine holds, and one that has the engine commit to its catalog.

use std::sync::Arc;

use vstd::prelude::*;
use vstd::std_specs::convert::{FromSpec, FromSpecImpl};
use vstd::utf8::encode_utf8;

use crate::error::{DeltaError, DeltaErrorView, DeltaResult};
use crate::sharing::share;
use crate::strings::KernelStringSlice;

verus! {

/// What came of an attempt to commit a version.
#[derive(Debug, PartialEq, Eq, Structural, Clone, Copy)]
pub enum CommitResponse {
    /// The version was committed.
    Committed { version: u64 },
    /// Another writer has committed the version.
    Conflict { version: u64 },
}

/// What came of an attempt to commit a version, as it is passed between the kernel and an engine.
#[derive(Debug, PartialEq, Eq, Structural, Clone, Copy)]
pub enum FFICommitResponse {
    /// The version was committed.
    Committed { version: u64 },
    /// Another writer has committed the version.
    Conflict { version: u64 },
}

impl From<CommitResponse> for FFICommitResponse {
    fn from(response: CommitResponse) -> (r: Self) {
        match response {
            CommitResponse::Committed { version } => FFICommitResponse::Committed { version },
            CommitResponse::Conflict { version } => FFICommitResponse::Conflict { version },
        }
    }
}

impl FromSpecImpl<CommitResponse> for FFICommitResponse {
    open spec fn obeys_from_spec() -> bool {
        true
    }

    open spec fn from_spec(response: CommitResponse) -> Self {
        match response {
            CommitResponse::Committed { version } => FFICommitResponse::Committed { version },
            CommitResponse::Conflict { version } => FFICommitResponse::Conflict { version },
        }
    }
}

impl From<FFICommitResponse> for CommitResponse {
    fn from(response: FFICommitResponse) -> (r: Self) {
        match response {
            FFICommitResponse::Committed { version } => CommitResponse::Committed { version },
            FFICommitResponse::Conflict { version } => CommitResponse::Conflict { version },
        }
    }
}

impl FromSpecImpl<FFICommitResponse> for CommitResponse {
    open spec fn obeys_from_spec() -> bool {
        true
    }

    open spec fn from_spec(response: FFICommitResponse) -> Self {
        match response {
            FFICommitResponse::Committed { version } => CommitResponse::Committed { version },
            FFICommitResponse::Conflict { version } => CommitResponse::Conflict { version },
        }
    }
}

/// Passing a response to an engine and back, or to the kernel and back, leaves it as it was.
pub proof fn law_commit_response_round_trip(response: CommitResponse, passed: FFICommitResponse)
    ensures
        <CommitResponse as FromSpec<FFICommitResponse>>::from_spec(
            <FFICommitResponse as FromSpec<CommitResponse>>::from_spec(response),
        ) == response,
        <FFICommitResponse as FromSpec<CommitResponse>>::from_spec(
            <CommitResponse as FromSpec<FFICommitResponse>>::from_spec(passed),
        ) == passed,
{
}

/// A committer that an engine holds.
pub struct MutableCommitter<C> {
    committer: C,
}

impl<C> MutableCommitter<C> {
    /// The committer.
    pub closed spec fn inner(&self) -> C {
        self.committer
    }

    /// Hands a committer to an engine.
    pub fn new(committer: C) -> (r: Self)
        ensures
            r.inner() == committer,
    {
        MutableCommitter { committer }
    }

    /// Takes the committer back.
    pub fn into_inner(self) -> (committer: C)
        ensures
            committer == self.inner(),
    {
        self.committer
    }
}

/// What an engine wants to have passed to its commit callback.
#[derive(Debug)]
pub struct ExternContext<X> {
    pub ptr: X,
}

/// Commits by calling back into an engine, which commits to its catalog.
pub struct ExternCatalogCommitter<F, E> {
    callback: F,
    engine_handle: Arc<E>,
}

/// True where a commit returns `r` for an engine's reply.
pub open spec fn is_callback_outcome<P>(
    reply: Result<FFICommitResponse, P>,
    r: DeltaResult<CommitResponse>,
) -> bool {
    match reply {
        Ok(response) => r == Ok::<CommitResponse, DeltaError>(
            <CommitResponse as FromSpec<FFICommitResponse>>::from_spec(response),
        ),
        Err(_) => r matches Err(e) && e@ == DeltaErrorView::Generic(
            "External catalog commit callback failed"@,
        ),
    }
}

/// What a commit returns for an engine's reply.
pub fn callback_outcome<P>(reply: Result<FFICommitResponse, P>) -> (r: DeltaResult<CommitResponse>)
    ensures
        is_callback_outcome(reply, r),
        reply matches Ok(FFICommitResponse::Committed { version: v }) ==> r == Ok::<
            CommitResponse,
            DeltaError,
        >(CommitResponse::Committed { version: v }),
        reply matches Ok(FFICommitResponse::Conflict { version: v }) ==> r == Ok::<
            CommitResponse,
            DeltaError,
        >(CommitResponse::Conflict { version: v }),
        reply is Err ==> r is Err,
{
    match reply {
        Ok(response) => Ok(CommitResponse::from(response)),
        Err(_) => Err(DeltaError::generic("External catalog commit callback failed")),
    }
}

impl<F, E> ExternCatalogCommitter<F, E> {
    /// The callback that makes a commit.
    pub closed spec fn callback_fn(&self) -> F {
        self.callback
    }

    /// The engine that the callback is passed.
    pub closed spec fn engine(&self) -> Arc<E> {
        self.engine_handle
    }

    /// Asks the engine to commit what is staged at a path. The context is the one that the engine
    /// gave, or `None` where a context of another type was given instead.
    pub fn commit_request<X: Copy, P>(
        &self,
        staged_commit_path: &str,
        context: Option<&ExternContext<X>>,
    ) -> (r: DeltaResult<CommitResponse>) where
        F: Fn(Arc<E>, KernelStringSlice<'_>, X) -> Result<FFICommitResponse, P>,

        requires
            context is Some ==> forall|path: KernelStringSlice|
                path@ == encode_utf8(staged_commit_path@) ==> #[trigger] call_requires(
                    self.callback_fn(),
                    (self.engine(), path, context->0.ptr),
                ),
        ensures
            match context {
                None => r matches Err(e) && e@ == DeltaErrorView::Generic(
                    "Invalid context type for external committer"@,
                ),
                Some(context) => exists|
                    path: KernelStringSlice,
                    reply: Result<FFICommitResponse, P>,
                |
                    {
                        &&& path@ == encode_utf8(staged_commit_path@)
                        &&& #[trigger] call_ensures(
                            self.callback_fn(),
                            (self.engine(), path, context.ptr),
                            reply,
                        )
                        &&& is_callback_outcome(reply, r)
                    },
            },
    {
        let extern_context = match context {
            Some(context) => context,
            None => return Err(DeltaError::generic("Invalid context type for external committer")),
        };
        let path = KernelStringSlice::new(staged_commit_path);
        let engine_handle = share(&self.engine_handle);
        proof {
            assert(call_requires(self.callback_fn(), (self.engine(), path, extern_context.ptr)));
        }
        let reply = (self.callback)(engine_handle, path, extern_context.ptr);
        callback_outcome(reply)
    }
}

/// A committer that has an engine commit what is staged, together with the context that the engine
/// wants to have passed.
pub struct StagedCommitter<F, E, X> {
    pub committer: ExternCatalogCommitter<F, E>,
    pub context: ExternContext<X>,
}

/// Makes a committer that has an engine commit to its catalog. The callback is passed the engine,
/// the path of what is staged, and the context.
pub fn create_staged_committer<F, E, X>(callback: F, context: X, engine: Arc<E>) -> (r:
    MutableCommitter<StagedCommitter<F, E, X>>)
    ensures
        r.inner().committer.callback_fn() == callback,
        r.inner().committer.engine() == engine,
        r.inner().context.ptr == context,
{
    let extern_context = ExternContext { ptr: context };
    let extern_committer = ExternCatalogCommitter { callback, engine_handle: engine };
    MutableCommitter::new(
        StagedCommitter { committer: extern_committer, context: extern_context },
    )
}

/// Conversions keep what came of a commit: a commit that was made stays one that was made, and a
/// conflict a conflict, of the same version.
pub proof fn law_conversions_keep_the_response(v: u64)
    ensures
        <CommitResponse as FromSpec<FFICommitResponse>>::from_spec(
            FFICommitResponse::Committed { version: v },
        ) == (CommitResponse::Committed { version: v }),
        <CommitResponse as FromSpec<FFICommitResponse>>::from_spec(
            FFICommitResponse::Conflict { version: v },
        ) == (CommitResponse::Conflict { version: v }),
        <FFICommitResponse as FromSpec<CommitResponse>>::from_spec(
            CommitResponse::Committed { version: v },
        ) == (FFICommitResponse::Committed { version: v }),
        <FFICommitResponse as FromSpec<CommitResponse>>::from_spec(
            CommitResponse::Conflict { version: v },
        ) == (FFICommitResponse::Conflict { version: v }),
{
}

/// What a commit through an engine returns for each of the engine's replies: a commit is reported
/// as made exactly where the engine says that it was, a conflict exactly where the engine says
/// that there was one, both of the version that the engine names, and an error exactly where the
/// engine failed.
pub proof fn law_engine_decides_the_commit<P>(
    reply: Result<FFICommitResponse, P>,
    r: DeltaResult<CommitResponse>,
    v: u64,
)
    requires
        is_callback_outcome(reply, r),
    ensures
        reply == Ok::<FFICommitResponse, P>(FFICommitResponse::Committed { version: v }) <==> r
            == Ok::<CommitResponse, DeltaError>(CommitResponse::Committed { version: v }),
        reply == Ok::<FFICommitResponse, P>(FFICommitResponse::Conflict { version: v }) <==> r
            == Ok::<CommitResponse, DeltaError>(CommitResponse::Conflict { version: v }),
        reply is Err <==> r is Err,
        r matches Err(e) ==> e matches DeltaError::Generic(message) && message@
            == "External catalog commit callback failed"@,
{
}

} // verus!

//! A commits client that calls back into an engine.

use std::sync::Arc;

use vstd::prelude::*;
use vstd::utf8::{
    decode_utf8, encode_utf8, encode_utf8_decode_utf8, encode_utf8_valid_utf8, valid_utf8,
};

use crate::committer::MutableCommitter;
use crate::error::DeltaResult;
use crate::models::{
    view_commits, view_option, ClientCommit, ClientCommitRequest, ClientCommitRequestView,
    ClientCommitView, ClientCommitsRequest, ClientCommitsResponse, ClientCommitsResponseView,
    ClientError,
};
use crate::optional_value::OptionalValue;
use crate::sharing::share;
use crate::strings::{
    fails_with_utf8_error, ExclusiveRustString, KernelStringSlice, TryFromStringSlice,
};
use crate::uc_committer::UCCommitter;

verus! {

/// A commit, as it is passed between the kernel and an engine.
pub struct Commit<'a> {
    pub version: i64,
    pub timestamp: i64,
    pub file_name: KernelStringSlice<'a>,
    pub file_size: i64,
    pub file_modification_timestamp: i64,
}

/// The mathematical value of a [`Commit`].
#[verifier::ext_equal]
pub struct CommitView {
    pub version: int,
    pub timestamp: int,
    pub file_name: Seq<u8>,
    pub file_size: int,
    pub file_modification_timestamp: int,
}

impl<'a> View for Commit<'a> {
    type V = CommitView;

    open spec fn view(&self) -> CommitView {
        CommitView {
            version: self.version as int,
            timestamp: self.timestamp as int,
            file_name: self.file_name@,
            file_size: self.file_size as int,
            file_modification_timestamp: self.file_modification_timestamp as int,
        }
    }
}

impl CommitView {
    /// The commit with the name of its file read as UTF-8.
    pub open spec fn decoded(self) -> ClientCommitView {
        ClientCommitView {
            version: self.version,
            timestamp: self.timestamp,
            file_name: decode_utf8(self.file_name),
            file_size: self.file_size,
            file_modification_timestamp: self.file_modification_timestamp,
        }
    }
}

/// A request for commits, as an engine receives it.
pub struct CommitsRequest<'a> {
    pub table_id: KernelStringSlice<'a>,
    pub table_uri: KernelStringSlice<'a>,
    pub start_version: OptionalValue<i64>,
    pub end_version: OptionalValue<i64>,
}

/// The mathematical value of a [`CommitsRequest`].
#[verifier::ext_equal]
pub struct CommitsRequestView {
    pub table_id: Seq<u8>,
    pub table_uri: Seq<u8>,
    pub start_version: Option<i64>,
    pub end_version: Option<i64>,
}

impl<'a> View for CommitsRequest<'a> {
    type V = CommitsRequestView;

    open spec fn view(&self) -> CommitsRequestView {
        CommitsRequestView {
            table_id: self.table_id@,
            table_uri: self.table_uri@,
            start_version: self.start_version.as_option(),
            end_version: self.end_version.as_option(),
        }
    }
}

/// What an engine is asked for a request for commits: the same, with strings as UTF-8.
pub open spec fn engine_commits_request(request: ClientCommitsRequest) -> CommitsRequestView {
    CommitsRequestView {
        table_id: encode_utf8(request.table_id@),
        table_uri: encode_utf8(request.table_uri@),
        start_version: request.start_version,
        end_version: request.end_version,
    }
}

/// A response to a request for commits, under construction.
#[derive(Debug)]
pub struct ExclusiveCommitsResponse {
    response: ClientCommitsResponse,
}

impl View for ExclusiveCommitsResponse {
    type V = ClientCommitsResponseView;

    closed spec fn view(&self) -> ClientCommitsResponseView {
        self.response@
    }
}

impl ExclusiveCommitsResponse {
    /// Takes the response out.
    pub fn into_inner(self) -> (response: ClientCommitsResponse)
        ensures
            response@ == self@,
    {
        self.response
    }
}

/// A response that holds no commits yet. [`add_commit_to_response`] adds them.
pub fn init_commits_response(latest_table_version: i64) -> (response: ExclusiveCommitsResponse)
    ensures
        response@ == (ClientCommitsResponseView {
            commits: None,
            latest_table_version: latest_table_version as int,
        }),
{
    ExclusiveCommitsResponse {
        response: ClientCommitsResponse { commits: None, latest_table_version },
    }
}

impl ClientCommitsResponseView {
    /// The commits, none where there is no list.
    pub open spec fn listed(self) -> Seq<ClientCommitView> {
        match self.commits {
            Some(commits) => commits,
            None => seq![],
        }
    }

    /// The response with one more commit at the end of its list.
    pub open spec fn with_commit(self, commit: ClientCommitView) -> Self {
        ClientCommitsResponseView { commits: Some(self.listed().push(commit)), ..self }
    }
}

/// Adds a commit at the end of a response. Returns an error where the name of the commit's file
/// is not UTF-8. The response is used up either way.
pub fn add_commit_to_response(
    response: ExclusiveCommitsResponse,
    commit: Commit<'_>,
) -> (r: DeltaResult<ExclusiveCommitsResponse>)
    ensures
        r is Ok <==> valid_utf8(commit.file_name@),
        r matches Ok(added) ==> added@ == response@.with_commit(commit@.decoded()),
        r matches Err(e) ==> fails_with_utf8_error(commit.file_name@, e@),
{
    let file_name = match String::try_from_slice(&commit.file_name) {
        Ok(file_name) => file_name,
        Err(e) => return Err(e),
    };
    let client_commit = ClientCommit {
        version: commit.version,
        timestamp: commit.timestamp,
        file_name,
        file_size: commit.file_size,
        file_modification_timestamp: commit.file_modification_timestamp,
    };
    let ClientCommitsResponse { commits, latest_table_version } = response.response;
    let commits = match commits {
        Some(mut commits) => {
            let ghost earlier = commits@;
            commits.push(client_commit);
            proof {
                assert(view_commits(commits@) =~= view_commits(earlier).push(client_commit@));
            }
            commits
        },
        None => {
            let commits = vec![client_commit];
            proof {
                assert(view_commits(commits@) =~= seq![client_commit@]);
                assert(seq![client_commit@] =~= Seq::<ClientCommitView>::empty().push(
                    client_commit@,
                ));
            }
            commits
        },
    };
    Ok(
        ExclusiveCommitsResponse {
            response: ClientCommitsResponse { commits: Some(commits), latest_table_version },
        },
    )
}

/// A response to which commits are added one after the other.
pub open spec fn with_commits(
    response: ClientCommitsResponseView,
    commits: Seq<ClientCommitView>,
) -> ClientCommitsResponseView
    decreases commits.len(),
{
    if commits.len() == 0 {
        response
    } else {
        with_commits(response, commits.drop_last()).with_commit(commits.last())
    }
}

/// Commits that are added to a fresh response one after the other are listed in the order in
/// which they were added, each once, and the table's version stays what it was.
pub proof fn law_commits_are_listed_in_order(
    response: ClientCommitsResponseView,
    commits: Seq<ClientCommitView>,
)
    ensures
        with_commits(response, commits).listed() == response.listed() + commits,
        with_commits(response, commits).latest_table_version == response.latest_table_version,
        with_commits(response, commits).commits is None <==> response.commits is None
            && commits.len() == 0,
    decreases commits.len(),
{
    if commits.len() == 0 {
        assert(response.listed() + commits =~= response.listed());
    } else {
        law_commits_are_listed_in_order(response, commits.drop_last());
        assert((response.listed() + commits.drop_last()).push(commits.last()) =~= response.listed()
            + commits);
    }
}

/// A request to commit a new version of a table, as an engine receives it. It names a commit, or
/// the latest version that is published, or both.
pub struct CommitRequest<'a> {
    pub table_id: KernelStringSlice<'a>,
    pub table_uri: KernelStringSlice<'a>,
    pub commit_info: OptionalValue<Commit<'a>>,
    pub latest_backfilled_version: OptionalValue<i64>,
    /// The metadata as json.
    pub metadata: OptionalValue<KernelStringSlice<'a>>,
    /// The protocol as json.
    pub protocol: OptionalValue<KernelStringSlice<'a>>,
}

/// The mathematical value of a [`CommitRequest`].
#[verifier::ext_equal]
pub struct CommitRequestView {
    pub table_id: Seq<u8>,
    pub table_uri: Seq<u8>,
    pub commit_info: Option<CommitView>,
    pub latest_backfilled_version: Option<i64>,
    pub metadata: Option<Seq<u8>>,
    pub protocol: Option<Seq<u8>>,
}

impl<'a> View for CommitRequest<'a> {
    type V = CommitRequestView;

    open spec fn view(&self) -> CommitRequestView {
        CommitRequestView {
            table_id: self.table_id@,
            table_uri: self.table_uri@,
            commit_info: view_option(self.commit_info.as_option()),
            latest_backfilled_version: self.latest_backfilled_version.as_option(),
            metadata: view_option(self.metadata.as_option()),
            protocol: view_option(self.protocol.as_option()),
        }
    }
}

/// What an engine is asked for a request to commit: the same, with strings as UTF-8. Metadata and
/// protocol are not passed on.
pub open spec fn engine_commit_request(request: ClientCommitRequestView) -> CommitRequestView {
    CommitRequestView {
        table_id: encode_utf8(request.table_id),
        table_uri: encode_utf8(request.table_uri),
        commit_info: match request.commit_info {
            Some(commit) => Some(
                CommitView {
                    version: commit.version,
                    timestamp: commit.timestamp,
                    file_name: encode_utf8(commit.file_name),
                    file_size: commit.file_size,
                    file_modification_timestamp: commit.file_modification_timestamp,
                },
            ),
            None => None,
        },
        latest_backfilled_version: request.latest_backfilled_version,
        metadata: None,
        protocol: None,
    }
}

/// True where a commit returns `r` for an engine's reply: a string is the reason of a failure.
pub open spec fn is_commit_outcome(
    reply: OptionalValue<ExclusiveRustString>,
    r: Result<(), ClientError>,
) -> bool {
    match reply {
        OptionalValue::Present(reason) => r matches Err(e) && e@ == reason@,
        OptionalValue::Absent => r is Ok,
    }
}

/// What a commit returns for an engine's reply.
pub fn commit_outcome(reply: OptionalValue<ExclusiveRustString>) -> (r: Result<(), ClientError>)
    ensures
        is_commit_outcome(reply, r),
{
    match reply {
        OptionalValue::Present(reason) => Err(ClientError::Generic(reason.into_inner())),
        OptionalValue::Absent => Ok(()),
    }
}

/// A commits client that has an engine do the work, through two callbacks and a context that is
/// passed to both.
pub struct FfiUCCommitsClient<X, G, F> {
    get_commits_callback: G,
    commit_callback: F,
    context: X,
}

impl<X, G, F> FfiUCCommitsClient<X, G, F> {
    /// The callback that fetches commits.
    pub closed spec fn get_commits_fn(&self) -> G {
        self.get_commits_callback
    }

    /// The callback that makes a commit.
    pub closed spec fn commit_fn(&self) -> F {
        self.commit_callback
    }

    /// What is passed to both callbacks.
    pub closed spec fn passed_context(&self) -> X {
        self.context
    }
}

impl<X: Copy, G, F> FfiUCCommitsClient<X, G, F> where
    F: Fn(X, CommitRequest<'_>) -> OptionalValue<ExclusiveRustString>,
 {
    /// Commits a new version to the table.
    pub fn commit(&self, request: ClientCommitRequest) -> (r: Result<(), ClientError>)
        requires
            forall|c: CommitRequest|
                c@ == engine_commit_request(request@) ==> #[trigger] call_requires(
                    self.commit_fn(),
                    (self.passed_context(), c),
                ),
        ensures
            exists|c: CommitRequest, reply: OptionalValue<ExclusiveRustString>|
                {
                    &&& c@ == engine_commit_request(request@)
                    &&& #[trigger] call_ensures(
                        self.commit_fn(),
                        (self.passed_context(), c),
                        reply,
                    )
                    &&& is_commit_outcome(reply, r)
                },
    {
        let commit_info = match &request.commit_info {
            Some(commit) => OptionalValue::Present(
                Commit {
                    version: commit.version,
                    timestamp: commit.timestamp,
                    file_name: KernelStringSlice::new(commit.file_name.as_str()),
                    file_size: commit.file_size,
                    file_modification_timestamp: commit.file_modification_timestamp,
                },
            ),
            None => OptionalValue::Absent,
        };
        let engine_request = CommitRequest {
            table_id: KernelStringSlice::new(request.table_id.as_str()),
            table_uri: KernelStringSlice::new(request.table_uri.as_str()),
            commit_info,
            latest_backfilled_version: OptionalValue::from(request.latest_backfilled_version),
            metadata: OptionalValue::Absent,
            protocol: OptionalValue::Absent,
        };
        proof {
            assert(engine_request@ =~= engine_commit_request(request@));
            assert(call_requires(self.commit_fn(), (self.passed_context(), engine_request)));
        }
        let reply = (self.commit_callback)(self.context, engine_request);
        commit_outcome(reply)
    }
}

impl<X: Copy, G, F> FfiUCCommitsClient<X, G, F> where
    G: Fn(X, CommitsRequest<'_>) -> ExclusiveCommitsResponse,
 {
    /// Gets the latest commits of the table.
    pub fn get_commits(&self, request: ClientCommitsRequest) -> (r: Result<
        ClientCommitsResponse,
        ClientError,
    >)
        requires
            forall|c: CommitsRequest|
                c@ == engine_commits_request(request) ==> #[trigger] call_requires(
                    self.get_commits_fn(),
                    (self.passed_context(), c),
                ),
        ensures
            exists|c: CommitsRequest, response: ExclusiveCommitsResponse|
                {
                    &&& c@ == engine_commits_request(request)
                    &&& #[trigger] call_ensures(
                        self.get_commits_fn(),
                        (self.passed_context(), c),
                        response,
                    )
                    &&& r matches Ok(returned) && returned@ == response@
                },
    {
        let engine_request = CommitsRequest {
            table_id: KernelStringSlice::new(request.table_id.as_str()),
            table_uri: KernelStringSlice::new(request.table_uri.as_str()),
            start_version: OptionalValue::from(request.start_version),
            end_version: OptionalValue::from(request.end_version),
        };
        proof {
            assert(engine_request@ =~= engine_commits_request(request));
            assert(call_requires(self.get_commits_fn(), (self.passed_context(), engine_request)));
        }
        let response = (self.get_commits_callback)(self.context, engine_request);
        Ok(response.into_inner())
    }
}

/// A commits client that an engine holds.
pub struct SharedFfiUCCommitsClient<X, G, F> {
    client: Arc<FfiUCCommitsClient<X, G, F>>,
}

impl<X, G, F> SharedFfiUCCommitsClient<X, G, F> {
    /// The client.
    pub closed spec fn inner(&self) -> Arc<FfiUCCommitsClient<X, G, F>> {
        self.client
    }

    /// Another owner of the client.
    pub fn clone_as_arc(&self) -> (client: Arc<FfiUCCommitsClient<X, G, F>>)
        ensures
            client == self.inner(),
    {
        share(&self.client)
    }
}

/// Makes a commits client that calls the given callbacks and passes the context to both.
pub fn get_uc_commit_client<X, G, F>(
    context: X,
    get_commits_callback: G,
    commit_callback: F,
) -> (client: SharedFfiUCCommitsClient<X, G, F>)
    ensures
        client.inner().passed_context() == context,
        client.inner().get_commits_fn() == get_commits_callback,
        client.inner().commit_fn() == commit_callback,
{
    SharedFfiUCCommitsClient {
        client: Arc::new(FfiUCCommitsClient { get_commits_callback, commit_callback, context }),
    }
}

/// Makes a committer that commits through a client to the table with the given id. Returns an
/// error where the id is not UTF-8.
pub fn get_uc_committer<X, G, F>(
    commit_client: &SharedFfiUCCommitsClient<X, G, F>,
    table_id: KernelStringSlice<'_>,
) -> (r: DeltaResult<MutableCommitter<UCCommitter<FfiUCCommitsClient<X, G, F>>>>)
    ensures
        r is Ok <==> valid_utf8(table_id@),
        r matches Ok(committer) ==> {
            &&& committer.inner().client() == commit_client.inner()
            &&& committer.inner().table() == decode_utf8(table_id@)
        },
        r matches Err(e) ==> fails_with_utf8_error(table_id@, e@),
{
    let client = commit_client.clone_as_arc();
    match String::try_from_slice(&table_id) {
        Ok(table_id) => Ok(MutableCommitter::new(UCCommitter::new(client, table_id))),
        Err(e) => Err(e),
    }
}

/// An engine is asked for the commit that the client is asked for: what the engine reads as UTF-8
/// are the client's strings, and a request that names a commit or a published version still does.
pub proof fn law_engine_is_asked_for_the_commit(request: ClientCommitRequestView)
    ensures
        ({
            let asked = engine_commit_request(request);
            &&& valid_utf8(asked.table_id) && decode_utf8(asked.table_id) == request.table_id
            &&& valid_utf8(asked.table_uri) && decode_utf8(asked.table_uri) == request.table_uri
            &&& asked.commit_info is Some <==> request.commit_info is Some
            &&& asked.commit_info matches Some(commit) ==> {
                &&& valid_utf8(commit.file_name)
                &&& commit.decoded() == request.commit_info->0
            }
            &&& asked.latest_backfilled_version == request.latest_backfilled_version
            &&& request.is_well_formed() ==> asked.commit_info is Some
                || asked.latest_backfilled_version is Some
        }),
{
    encode_utf8_valid_utf8(request.table_id);
    encode_utf8_decode_utf8(request.table_id);
    encode_utf8_valid_utf8(request.table_uri);
    encode_utf8_decode_utf8(request.table_uri);
    if request.commit_info is Some {
        encode_utf8_valid_utf8(request.commit_info->0.file_name);
        encode_utf8_decode_utf8(request.commit_info->0.file_name);
    }
}

/// An engine is asked for the range of commits that the client is asked for. A bound that is given
/// is passed on as it is, and one that is not given stays open, whatever the other is. What the
/// engine reads as UTF-8 are the client's strings.
pub proof fn law_engine_is_asked_for_the_same_range(
    request: ClientCommitsRequest,
    asked: CommitsRequest<'_>,
)
    requires
        asked@ == engine_commits_request(request),
    ensures
        request.start_version is None ==> asked.start_version is Absent,
        request.start_version matches Some(v) ==> asked.start_version == OptionalValue::Present(v),
        request.end_version is None ==> asked.end_version is Absent,
        request.end_version matches Some(v) ==> asked.end_version == OptionalValue::Present(v),
        valid_utf8(asked.table_id@),
        decode_utf8(asked.table_id@) == request.table_id@,
        valid_utf8(asked.table_uri@),
        decode_utf8(asked.table_uri@) == request.table_uri@,
{
    encode_utf8_valid_utf8(request.table_id@);
    encode_utf8_decode_utf8(request.table_id@);
    encode_utf8_valid_utf8(request.table_uri@);
    encode_utf8_decode_utf8(request.table_uri@);
}

/// An engine is handed the commit that the client is asked to make, field by field. What is given
/// is there and what is not given is not. Metadata and protocol are never passed on.
pub proof fn law_engine_is_handed_the_commit(
    request: ClientCommitRequest,
    asked: CommitRequest<'_>,
)
    requires
        asked@ == engine_commit_request(request@),
    ensures
        valid_utf8(asked.table_id@),
        decode_utf8(asked.table_id@) == request.table_id@,
        valid_utf8(asked.table_uri@),
        decode_utf8(asked.table_uri@) == request.table_uri@,
        request.commit_info is None ==> asked.commit_info is Absent,
        request.commit_info matches Some(commit) ==> {
            &&& asked.commit_info is Present
            &&& asked.commit_info->Present_0.version == commit.version
            &&& asked.commit_info->Present_0.timestamp == commit.timestamp
            &&& valid_utf8(asked.commit_info->Present_0.file_name@)
            &&& decode_utf8(asked.commit_info->Present_0.file_name@) == commit.file_name@
            &&& asked.commit_info->Present_0.file_size == commit.file_size
            &&& asked.commit_info->Present_0.file_modification_timestamp
                == commit.file_modification_timestamp
        },
        request.latest_backfilled_version is None ==> asked.latest_backfilled_version is Absent,
        request.latest_backfilled_version matches Some(v) ==> asked.latest_backfilled_version
            == OptionalValue::Present(v),
        asked.metadata is Absent,
        asked.protocol is Absent,
{
    law_engine_is_asked_for_the_commit(request@);
    if request.commit_info is Some {
        encode_utf8_valid_utf8(request.commit_info->0.file_name@);
        encode_utf8_decode_utf8(request.commit_info->0.file_name@);
    }
}

/// A commit through an engine fails exactly where the engine gives a reason, and that reason is the
/// error.
pub proof fn law_reason_is_the_error(
    reply: OptionalValue<ExclusiveRustString>,
    r: Result<(), ClientError>,
)
    requires
        is_commit_outcome(reply, r),
    ensures
        reply is Absent <==> r is Ok,
        reply is Present <==> r is Err,
        r matches Err(e) ==> e matches ClientError::Generic(message) && message@
            == reply->Present_0@,
{
}

/// A commit that is added to a response stands behind those that were there, which stay as they
/// were, and is listed with all that was passed of it. The version of the table stays.
pub proof fn law_added_commit_is_listed_last(
    response: ClientCommitsResponseView,
    commit: Commit<'_>,
)
    ensures
        ({
            let added = response.with_commit(commit@.decoded());
            let before = match response.commits {
                Some(commits) => commits,
                None => seq![],
            };
            &&& added.latest_table_version == response.latest_table_version
            &&& added.commits is Some
            &&& added.commits->0.len() == before.len() + 1
            &&& forall|i: int|
                0 <= i < before.len() ==> #[trigger] added.commits->0[i] == before[i]
            &&& added.commits->0.last().version == commit.version
            &&& added.commits->0.last().timestamp == commit.timestamp
            &&& added.commits->0.last().file_name == decode_utf8(commit.file_name@)
            &&& added.commits->0.last().file_size == commit.file_size
            &&& added.commits->0.last().file_modification_timestamp
                == commit.file_modification_timestamp
        }),
{
}

} // verus!

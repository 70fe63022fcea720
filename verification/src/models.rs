//! What a Unity Catalog commits client is asked and what it answers.

use vstd::prelude::*;

verus! {

/// A commit that the catalog knows of.
#[derive(Debug)]
pub struct ClientCommit {
    /// The table version that the commit made.
    pub version: i64,
    /// The in-commit timestamp.
    pub timestamp: i64,
    /// The name of the staged commit file, without its directory.
    pub file_name: String,
    /// The size of that file in bytes.
    pub file_size: i64,
    /// When that file was last modified.
    pub file_modification_timestamp: i64,
}

/// The mathematical value of a [`ClientCommit`].
#[verifier::ext_equal]
pub struct ClientCommitView {
    pub version: int,
    pub timestamp: int,
    pub file_name: Seq<char>,
    pub file_size: int,
    pub file_modification_timestamp: int,
}

impl View for ClientCommit {
    type V = ClientCommitView;

    open spec fn view(&self) -> ClientCommitView {
        ClientCommitView {
            version: self.version as int,
            timestamp: self.timestamp as int,
            file_name: self.file_name@,
            file_size: self.file_size as int,
            file_modification_timestamp: self.file_modification_timestamp as int,
        }
    }
}

/// A request to commit a new version of a table.
#[derive(Debug)]
pub struct ClientCommitRequest {
    pub table_id: String,
    pub table_uri: String,
    /// The commit to make.
    pub commit_info: Option<ClientCommit>,
    /// The last version that is known to be published to the delta log.
    pub latest_backfilled_version: Option<i64>,
    /// The table's new metadata as json.
    pub metadata: Option<String>,
    /// The table's new protocol as json.
    pub protocol: Option<String>,
}

/// The mathematical value of a [`ClientCommitRequest`].
#[verifier::ext_equal]
pub struct ClientCommitRequestView {
    pub table_id: Seq<char>,
    pub table_uri: Seq<char>,
    pub commit_info: Option<ClientCommitView>,
    pub latest_backfilled_version: Option<i64>,
    pub metadata: Option<Seq<char>>,
    pub protocol: Option<Seq<char>>,
}

/// The mathematical value of an optional part.
pub open spec fn view_option<T: View>(part: Option<T>) -> Option<T::V> {
    match part {
        Some(value) => Some(value@),
        None => None,
    }
}

impl View for ClientCommitRequest {
    type V = ClientCommitRequestView;

    open spec fn view(&self) -> ClientCommitRequestView {
        ClientCommitRequestView {
            table_id: self.table_id@,
            table_uri: self.table_uri@,
            commit_info: view_option(self.commit_info),
            latest_backfilled_version: self.latest_backfilled_version,
            metadata: view_option(self.metadata),
            protocol: view_option(self.protocol),
        }
    }
}

impl ClientCommitRequestView {
    /// What a catalog may be asked: a request names a commit, or a version up to which the delta
    /// log is published, or both.
    pub open spec fn is_well_formed(self) -> bool {
        self.commit_info is Some || self.latest_backfilled_version is Some
    }
}

impl ClientCommitRequest {
    /// A request to make one commit, which leaves metadata and protocol as they are.
    pub fn new(
        table_id: String,
        table_uri: &str,
        commit_info: ClientCommit,
        latest_backfilled_version: Option<i64>,
    ) -> (request: Self)
        ensures
            request@ == (ClientCommitRequestView {
                table_id: table_id@,
                table_uri: table_uri@,
                commit_info: Some(commit_info@),
                latest_backfilled_version,
                metadata: None,
                protocol: None,
            }),
    {
        ClientCommitRequest {
            table_id,
            table_uri: table_uri.to_owned(),
            commit_info: Some(commit_info),
            latest_backfilled_version,
            metadata: None,
            protocol: None,
        }
    }
}

/// A request for the commits of a table that are not published yet.
#[derive(Debug)]
pub struct ClientCommitsRequest {
    pub table_id: String,
    pub table_uri: String,
    pub start_version: Option<i64>,
    pub end_version: Option<i64>,
}

/// The commits of a table that are not published yet.
#[derive(Debug)]
pub struct ClientCommitsResponse {
    pub commits: Option<Vec<ClientCommit>>,
    pub latest_table_version: i64,
}

/// The mathematical value of a [`ClientCommitsResponse`].
#[verifier::ext_equal]
pub struct ClientCommitsResponseView {
    pub commits: Option<Seq<ClientCommitView>>,
    pub latest_table_version: int,
}

/// The mathematical value of a list of commits.
pub open spec fn view_commits(commits: Seq<ClientCommit>) -> Seq<ClientCommitView> {
    commits.map_values(|commit: ClientCommit| commit@)
}

impl View for ClientCommitsResponse {
    type V = ClientCommitsResponseView;

    open spec fn view(&self) -> ClientCommitsResponseView {
        ClientCommitsResponseView {
            commits: match self.commits {
                Some(commits) => Some(view_commits(commits@)),
                None => None,
            },
            latest_table_version: self.latest_table_version as int,
        }
    }
}

/// What a commits client reports when it fails.
#[derive(Debug)]
pub enum ClientError {
    /// A failure described by a message alone.
    Generic(String),
}

impl View for ClientError {
    type V = Seq<char>;

    open spec fn view(&self) -> Seq<char> {
        match *self {
            ClientError::Generic(message) => message@,
        }
    }
}

/// The values of commits, requests, responses and errors hold what their fields hold, each under
/// its own name.
pub proof fn law_values_hold_the_fields(
    commit: ClientCommit,
    request: ClientCommitRequest,
    response: ClientCommitsResponse,
    error: ClientError,
)
    ensures
        commit@.version == commit.version,
        commit@.timestamp == commit.timestamp,
        commit@.file_name == commit.file_name@,
        commit@.file_size == commit.file_size,
        commit@.file_modification_timestamp == commit.file_modification_timestamp,
        request@.table_id == request.table_id@,
        request@.table_uri == request.table_uri@,
        request.commit_info matches Some(c) ==> request@.commit_info == Some(c@),
        request.commit_info is None ==> request@.commit_info is None,
        request@.latest_backfilled_version == request.latest_backfilled_version,
        request.metadata matches Some(json) ==> request@.metadata == Some(json@),
        request.metadata is None ==> request@.metadata is None,
        request.protocol matches Some(json) ==> request@.protocol == Some(json@),
        request.protocol is None ==> request@.protocol is None,
        response@.latest_table_version == response.latest_table_version,
        response.commits is None ==> response@.commits is None,
        response.commits matches Some(commits) ==> {
            &&& response@.commits is Some
            &&& response@.commits->0.len() == commits@.len()
            &&& forall|i: int|
                0 <= i < commits@.len() ==> #[trigger] response@.commits->0[i] == commits@[i]@
        },
        error matches ClientError::Generic(message) && error@ == message@,
{
}

} // verus!

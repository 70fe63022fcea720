//! Committing to a table that Unity Catalog manages.
//!
//! A commit takes four pieces of outside work: find a path for the staged commit, write the
//! actions to it, look up what was written, and have the catalog ratify it. Each state of a
//! commit below waits for one of them; handing it what came of the work gives the next state, or
//! ends the commit with an error.

use std::sync::Arc;

use vstd::prelude::*;
use vstd::string::StringExecFns;

use crate::decimal::{decimal, decimal_string};
use crate::error::{outcome, DeltaError, DeltaErrorView, DeltaResult};
use crate::models::{ClientCommit, ClientCommitRequest, ClientCommitRequestView, ClientCommitView};
use crate::sharing::share;
use crate::strings::texts;

verus! {

/// Commits to one table of Unity Catalog.
#[derive(Debug)]
pub struct UCCommitter<C> {
    commits_client: Arc<C>,
    table_id: String,
}

impl<C> Clone for UCCommitter<C> {
    fn clone(&self) -> (committer: Self)
        ensures
            committer.client() == self.client(),
            committer.table() == self.table(),
    {
        UCCommitter {
            commits_client: share(&self.commits_client),
            table_id: self.table_id.clone(),
        }
    }
}

/// What is known of a commit before it is made.
#[derive(Debug)]
pub struct CommitMetadata {
    /// The URL of the table's root.
    pub table_root: String,
    /// The version to commit.
    pub version: u64,
    /// The in-commit timestamp.
    pub in_commit_timestamp: i64,
    /// The largest version that is published to the delta log.
    pub max_published_version: Option<u64>,
}

/// A file in storage.
#[derive(Debug)]
pub struct FileMeta {
    /// The URL of the file.
    pub location: String,
    /// When the file was last modified, in milliseconds since the epoch.
    pub last_modified: i64,
    /// The size of the file in bytes.
    pub size: u64,
}

/// What came of an attempt to commit.
#[derive(Debug)]
pub enum CommitResponse {
    /// The commit was ratified. The file holds its actions.
    Committed { file_meta: FileMeta },
    /// Another writer has committed this version.
    Conflict { version: u64 },
}

/// A version as a catalog counts it, or `None` where it is too large for that.
pub open spec fn as_catalog_integer(n: u64) -> Option<i64> {
    if n <= i64::MAX {
        Some(n as i64)
    } else {
        None
    }
}

/// The message where a published version is too large for a catalog.
pub open spec fn max_published_version_message(version: u64) -> Seq<char> {
    "Max published version "@ + decimal(version as nat) + " does not fit into i64 for UC commit"@
}

/// The segments of a URL's path, percent-encoded, or `None` where the text is no URL or the URL's
/// path has no segments.
pub uninterp spec fn url_path_segments(url: Seq<char>) -> Option<Seq<Seq<char>>>;

/// Splits the path of a URL into its segments, through `url::Url::parse` and
/// `url::Url::path_segments`.
///
/// Taken from their source: the result depends on the text alone; where there are segments, they
/// are what `str::split` makes of the path behind its leading slash, so that there is at least
/// one and none of them holds a slash.
#[verifier::external_body]
fn path_segments(url: &str) -> (r: Option<Vec<String>>)
    ensures
        url_path_segments(url@) == match r {
            Some(segments) => Some(texts(segments@)),
            None => None,
        },
        r matches Some(segments) ==> segments@.len() >= 1 && forall|i: int|
            0 <= i < segments@.len() ==> !(#[trigger] segments@[i])@.contains('/'),
{
    match url::Url::parse(url) {
        Ok(parsed) => match parsed.path_segments() {
            Some(segments) => Some(segments.map(|segment| segment.to_string()).collect()),
            None => None,
        },
        Err(_) => None,
    }
}

/// The file name in a path's segments: the last one.
pub open spec fn staged_file_name_outcome(segments: Option<Seq<Seq<char>>>) -> Result<
    Seq<char>,
    DeltaErrorView,
> {
    match segments {
        None => Err(DeltaErrorView::Generic("staged commit contained no path segments"@)),
        Some(s) => if s.len() == 0 {
            Err(DeltaErrorView::Generic("staged commit segments next_back was empty"@))
        } else {
            Ok(s.last())
        },
    }
}

/// Picks the name of a staged commit file out of the segments of its URL's path.
pub fn staged_file_name(segments: Option<Vec<String>>) -> (r: DeltaResult<String>)
    ensures
        outcome(r) == staged_file_name_outcome(
            match segments {
                Some(s) => Some(texts(s@)),
                None => None,
            },
        ),
{
    let mut segments = match segments {
        Some(s) => s,
        None => return Err(DeltaError::generic("staged commit contained no path segments")),
    };
    match segments.pop() {
        Some(name) => Ok(name),
        None => Err(DeltaError::generic("staged commit segments next_back was empty")),
    }
}

/// The request that asks a catalog to ratify a staged commit of which `segments` are the segments
/// of the path and `committed` is the file, or the first reason why there is none.
pub open spec fn ratification_outcome(
    table_id: Seq<char>,
    metadata: CommitMetadata,
    segments: Option<Seq<Seq<char>>>,
    committed: FileMeta,
) -> Result<ClientCommitRequestView, DeltaErrorView> {
    match as_catalog_integer(metadata.version) {
        None => Err(
            DeltaErrorView::Generic("commit version does not fit into i64 for UC commit"@),
        ),
        Some(version) => match staged_file_name_outcome(segments) {
            Err(e) => Err(e),
            Ok(file_name) => match as_catalog_integer(committed.size) {
                None => Err(DeltaErrorView::Generic("committed size does not fit into i64"@)),
                Some(file_size) => {
                    let request = |published: Option<i64>|
                        ClientCommitRequestView {
                            table_id,
                            table_uri: metadata.table_root@,
                            commit_info: Some(
                                ClientCommitView {
                                    version: version as int,
                                    timestamp: metadata.in_commit_timestamp as int,
                                    file_name,
                                    file_size: file_size as int,
                                    file_modification_timestamp: committed.last_modified as int,
                                },
                            ),
                            latest_backfilled_version: published,
                            metadata: None,
                            protocol: None,
                        };
                    match metadata.max_published_version {
                        None => Ok(request(None)),
                        Some(v) => match as_catalog_integer(v) {
                            Some(published) => Ok(request(Some(published))),
                            None => Err(DeltaErrorView::Generic(max_published_version_message(v))),
                        },
                    }
                },
            },
        },
    }
}

/// Converts a count to what a catalog takes.
fn to_catalog_integer(n: u64) -> (r: Option<i64>)
    ensures
        r == as_catalog_integer(n),
{
    if n <= i64::MAX as u64 {
        Some(n as i64)
    } else {
        None
    }
}

/// Makes the request to ratify a staged commit, given the segments of the staged file's path.
pub fn ratification_request(
    table_id: &String,
    metadata: &CommitMetadata,
    segments: Option<Vec<String>>,
    committed: &FileMeta,
) -> (r: DeltaResult<ClientCommitRequest>)
    ensures
        outcome(r) == ratification_outcome(
            table_id@,
            *metadata,
            match segments {
                Some(s) => Some(texts(s@)),
                None => None,
            },
            *committed,
        ),
{
    let version = match to_catalog_integer(metadata.version) {
        Some(version) => version,
        None => return Err(
            DeltaError::generic("commit version does not fit into i64 for UC commit"),
        ),
    };
    let file_name = match staged_file_name(segments) {
        Ok(name) => name,
        Err(e) => return Err(e),
    };
    let file_size = match to_catalog_integer(committed.size) {
        Some(size) => size,
        None => return Err(DeltaError::generic("committed size does not fit into i64")),
    };
    let latest_backfilled_version = match metadata.max_published_version {
        None => None,
        Some(v) => match to_catalog_integer(v) {
            Some(published) => Some(published),
            None => return Err(
                DeltaError::Generic(
                    "Max published version ".to_owned().concat(decimal_string(v).as_str()).concat(
                        " does not fit into i64 for UC commit",
                    ),
                ),
            ),
        },
    };
    let commit = ClientCommit {
        version,
        timestamp: metadata.in_commit_timestamp,
        file_name,
        file_size,
        file_modification_timestamp: committed.last_modified,
    };
    Ok(
        ClientCommitRequest::new(
            table_id.clone(),
            metadata.table_root.as_str(),
            commit,
            latest_backfilled_version,
        ),
    )
}

/// The message where the catalog refuses to ratify a commit.
pub open spec fn refusal_message(reason: Seq<char>) -> Seq<char> {
    "UC commit error: "@ + reason
}

/// The mathematical value of a [`PendingCommit`].
#[verifier::ext_equal]
pub struct PendingCommitView {
    pub table_id: Seq<char>,
    pub metadata: CommitMetadata,
}

/// The mathematical value of a [`StagedCommit`] or a [`WrittenCommit`].
#[verifier::ext_equal]
pub struct StagedCommitView {
    pub table_id: Seq<char>,
    pub metadata: CommitMetadata,
    pub path: Seq<char>,
}

impl PendingCommitView {
    /// The commit once it has a path, or the error that came instead of one.
    pub open spec fn staged(self, path: Result<Seq<char>, DeltaErrorView>) -> Result<
        StagedCommitView,
        DeltaErrorView,
    > {
        match path {
            Ok(path) => Ok(
                StagedCommitView { table_id: self.table_id, metadata: self.metadata, path },
            ),
            Err(e) => Err(e),
        }
    }
}

impl StagedCommitView {
    /// The commit once its actions are written, or the error that writing them gave.
    pub open spec fn written(self, write: Result<(), DeltaErrorView>) -> Result<
        StagedCommitView,
        DeltaErrorView,
    > {
        match write {
            Ok(_) => Ok(self),
            Err(e) => Err(e),
        }
    }

    /// What to send to the catalog once the staged file is looked up, and the file; or the error
    /// that came instead.
    pub open spec fn looked_up(self, file: Result<FileMeta, DeltaErrorView>) -> Result<
        (ClientCommitRequestView, FileMeta),
        DeltaErrorView,
    > {
        match file {
            Ok(committed) => match ratification_outcome(
                self.table_id,
                self.metadata,
                url_path_segments(self.path),
                committed,
            ) {
                Ok(request) => Ok((request, committed)),
                Err(e) => Err(e),
            },
            Err(e) => Err(e),
        }
    }
}

/// What the commit of a written file returns once the catalog has replied.
pub open spec fn ratified(committed: FileMeta, reply: Result<(), Seq<char>>) -> Result<
    CommitResponse,
    DeltaErrorView,
> {
    match reply {
        Ok(_) => Ok(CommitResponse::Committed { file_meta: committed }),
        Err(reason) => Err(DeltaErrorView::Generic(refusal_message(reason))),
    }
}

/// The mathematical value of a catalog's reply.
pub open spec fn reply_view(reply: Result<(), String>) -> Result<(), Seq<char>> {
    match reply {
        Ok(_) => Ok(()),
        Err(reason) => Err(reason@),
    }
}

/// A commit that waits for a path at which to stage its actions.
#[derive(Debug)]
pub struct PendingCommit {
    table_id: String,
    metadata: CommitMetadata,
}

impl View for PendingCommit {
    type V = PendingCommitView;

    closed spec fn view(&self) -> PendingCommitView {
        PendingCommitView { table_id: self.table_id@, metadata: self.metadata }
    }
}

impl PendingCommit {
    /// Goes on with the path that was found.
    pub fn staged(self, path: DeltaResult<String>) -> (r: DeltaResult<StagedCommit>)
        ensures
            outcome(r) == self@.staged(outcome(path)),
    {
        match path {
            Ok(path) => Ok(StagedCommit { table_id: self.table_id, metadata: self.metadata, path }),
            Err(e) => Err(e),
        }
    }
}

/// A commit that waits for its actions to be written at its path.
#[derive(Debug)]
pub struct StagedCommit {
    table_id: String,
    metadata: CommitMetadata,
    path: String,
}

impl View for StagedCommit {
    type V = StagedCommitView;

    closed spec fn view(&self) -> StagedCommitView {
        StagedCommitView {
            table_id: self.table_id@,
            metadata: self.metadata,
            path: self.path@,
        }
    }
}

impl StagedCommit {
    /// Where to write the actions.
    pub fn path(&self) -> (path: &str)
        ensures
            path@ == self@.path,
    {
        self.path.as_str()
    }

    /// Whether a file that exists at the path may be overwritten: it may not.
    pub fn overwrite(&self) -> (overwrite: bool)
        ensures
            !overwrite,
    {
        false
    }

    /// Goes on once the actions are written.
    pub fn written(self, write: DeltaResult<()>) -> (r: DeltaResult<WrittenCommit>)
        ensures
            outcome(r) == self@.written(outcome(write)),
    {
        match write {
            Ok(_) => Ok(
                WrittenCommit {
                    table_id: self.table_id,
                    metadata: self.metadata,
                    path: self.path,
                },
            ),
            Err(e) => Err(e),
        }
    }
}

/// A commit that waits for its written file to be looked up.
#[derive(Debug)]
pub struct WrittenCommit {
    table_id: String,
    metadata: CommitMetadata,
    path: String,
}

impl View for WrittenCommit {
    type V = StagedCommitView;

    closed spec fn view(&self) -> StagedCommitView {
        StagedCommitView {
            table_id: self.table_id@,
            metadata: self.metadata,
            path: self.path@,
        }
    }
}

impl WrittenCommit {
    /// Which file to look up.
    pub fn path(&self) -> (path: &str)
        ensures
            path@ == self@.path,
    {
        self.path.as_str()
    }

    /// Goes on with the file that was found: the request is to be sent to the catalog.
    ///
    /// The name of the file in the request is one segment of a path.
    pub fn looked_up(self, file: DeltaResult<FileMeta>) -> (r: DeltaResult<
        (ClientCommitRequest, RatifyingCommit),
    >)
        ensures
            match file {
                Ok(committed) => match r {
                    Ok((request, ratifying)) => self@.looked_up(Ok(committed)) == Ok::<
                        (ClientCommitRequestView, FileMeta),
                        DeltaErrorView,
                    >((request@, ratifying@)),
                    Err(e) => self@.looked_up(Ok(committed)) == Err::<
                        (ClientCommitRequestView, FileMeta),
                        DeltaErrorView,
                    >(e@),
                },
                Err(e) => r matches Err(returned) && returned == e,
            },
            r matches Ok((request, _)) ==> !request.commit_info.unwrap().file_name@.contains('/'),
            r matches Ok((request, ratifying)) ==> {
                &&& file is Ok
                &&& ratifying@ == file->Ok_0
                &&& request.table_id@ == self@.table_id
                &&& request.table_uri@ == self@.metadata.table_root@
                &&& request.latest_backfilled_version is Some
                    <==> self@.metadata.max_published_version is Some
                &&& request.latest_backfilled_version is Some
                    ==> request.latest_backfilled_version->0
                    == self@.metadata.max_published_version->0
                &&& request.commit_info is Some
                &&& request.commit_info->0.version == self@.metadata.version
                &&& request.commit_info->0.timestamp == self@.metadata.in_commit_timestamp
                &&& url_path_segments(self@.path) is Some
                &&& request.commit_info->0.file_name@ == url_path_segments(self@.path)->0.last()
                &&& request.commit_info->0.file_size == file->Ok_0.size
                &&& request.commit_info->0.file_modification_timestamp == file->Ok_0.last_modified
                &&& request.metadata is None
                &&& request.protocol is None
            },
            file matches Ok(committed) ==> (r is Ok <==> {
                &&& self@.metadata.version <= i64::MAX
                &&& url_path_segments(self@.path) is Some
                &&& committed.size <= i64::MAX
                &&& self@.metadata.max_published_version is Some
                    ==> self@.metadata.max_published_version->0 <= i64::MAX
            }),
    {
        let committed = match file {
            Ok(committed) => committed,
            Err(e) => return Err(e),
        };
        let segments = path_segments(self.path.as_str());
        match ratification_request(&self.table_id, &self.metadata, segments, &committed) {
            Ok(request) => Ok((request, RatifyingCommit { committed })),
            Err(e) => Err(e),
        }
    }
}

/// A commit that waits for the catalog to ratify it.
#[derive(Debug)]
pub struct RatifyingCommit {
    committed: FileMeta,
}

impl View for RatifyingCommit {
    type V = FileMeta;

    closed spec fn view(&self) -> FileMeta {
        self.committed
    }
}

impl RatifyingCommit {
    /// Ends the commit with the catalog's reply: nothing, or the reason why it refuses.
    pub fn ratified(self, reply: Result<(), String>) -> (r: DeltaResult<CommitResponse>)
        ensures
            match r {
                Ok(response) => ratified(self@, reply_view(reply)) == Ok::<
                    CommitResponse,
                    DeltaErrorView,
                >(response),
                Err(e) => ratified(self@, reply_view(reply)) == Err::<
                    CommitResponse,
                    DeltaErrorView,
                >(e@),
            },
            r is Ok <==> reply is Ok,
            r matches Ok(response) ==> response == (CommitResponse::Committed { file_meta: self@ }),
            r matches Err(e) ==> e matches DeltaError::Generic(message) && message@
                == "UC commit error: "@ + reply->Err_0@,
    {
        match reply {
            Ok(_) => Ok(CommitResponse::Committed { file_meta: self.committed }),
            Err(reason) => Err(
                DeltaError::Generic("UC commit error: ".to_owned().concat(reason.as_str())),
            ),
        }
    }
}

impl<C> UCCommitter<C> {
    /// The client that talks to the catalog.
    pub closed spec fn client(&self) -> Arc<C> {
        self.commits_client
    }

    /// The catalog's name for the table.
    pub closed spec fn table(&self) -> Seq<char> {
        self.table_id@
    }

    /// A committer that commits through `commits_client` to the table with the given id.
    pub fn new(commits_client: Arc<C>, table_id: String) -> (committer: Self)
        ensures
            committer.client() == commits_client,
            committer.table() == table_id@,
    {
        UCCommitter { commits_client, table_id }
    }

    /// The client that talks to the catalog.
    pub fn commits_client(&self) -> (client: &Arc<C>)
        ensures
            *client == self.client(),
    {
        &self.commits_client
    }

    /// Starts to commit a version of the table.
    pub fn commit(&self, commit_metadata: CommitMetadata) -> (pending: PendingCommit)
        ensures
            pending@ == (PendingCommitView { table_id: self.table(), metadata: commit_metadata }),
    {
        PendingCommit { table_id: self.table_id.clone(), metadata: commit_metadata }
    }

    /// Whether the table is managed by a catalog: it is.
    pub fn is_catalog_committer(&self) -> (r: bool)
        ensures
            r,
    {
        true
    }
}

/// What a whole commit returns, given what comes of each piece of outside work in turn: the
/// states above, one after the other.
pub open spec fn run_commit(
    pending: PendingCommitView,
    path: Result<Seq<char>, DeltaErrorView>,
    write: Result<(), DeltaErrorView>,
    file: Result<FileMeta, DeltaErrorView>,
    reply: Result<(), Seq<char>>,
) -> Result<CommitResponse, DeltaErrorView> {
    match pending.staged(path) {
        Err(e) => Err(e),
        Ok(staged) => match staged.written(write) {
            Err(e) => Err(e),
            Ok(written) => match written.looked_up(file) {
                Err(e) => Err(e),
                Ok((_, committed)) => ratified(committed, reply),
            },
        },
    }
}

/// A commit is reported as made exactly where a path was found, the actions were written to it,
/// the file was looked up, a request could be made of it, and the catalog ratified that request.
/// What is reported is the file that was looked up. A commit never reports a conflict.
pub proof fn law_committed_iff_ratified(
    pending: PendingCommitView,
    path: Result<Seq<char>, DeltaErrorView>,
    write: Result<(), DeltaErrorView>,
    file: Result<FileMeta, DeltaErrorView>,
    reply: Result<(), Seq<char>>,
)
    ensures
        run_commit(pending, path, write, file, reply) is Ok <==> {
            &&& path is Ok
            &&& write is Ok
            &&& file is Ok
            &&& ratification_outcome(
                pending.table_id,
                pending.metadata,
                url_path_segments(path->Ok_0),
                file->Ok_0,
            ) is Ok
            &&& reply is Ok
        },
        run_commit(pending, path, write, file, reply) is Ok ==> run_commit(
            pending,
            path,
            write,
            file,
            reply,
        )->Ok_0 == (CommitResponse::Committed { file_meta: file->Ok_0 }),
{
}

/// The first piece of outside work that fails ends the commit with its own error, whatever the
/// later ones would have given. A refusal by the catalog, which comes last, ends it with the
/// catalog's reason.
pub proof fn law_first_failure_is_returned(
    pending: PendingCommitView,
    path: Result<Seq<char>, DeltaErrorView>,
    write: Result<(), DeltaErrorView>,
    file: Result<FileMeta, DeltaErrorView>,
    reply: Result<(), Seq<char>>,
)
    ensures
        path matches Err(e) ==> run_commit(pending, path, write, file, reply) == Err::<
            CommitResponse,
            DeltaErrorView,
        >(e),
        path is Ok ==> (write matches Err(e) ==> run_commit(pending, path, write, file, reply)
            == Err::<CommitResponse, DeltaErrorView>(e)),
        path is Ok && write is Ok ==> (file matches Err(e) ==> run_commit(
            pending,
            path,
            write,
            file,
            reply,
        ) == Err::<CommitResponse, DeltaErrorView>(e)),
        path is Ok && write is Ok && file is Ok && ratification_outcome(
            pending.table_id,
            pending.metadata,
            url_path_segments(path->Ok_0),
            file->Ok_0,
        ) is Ok ==> (reply matches Err(reason) ==> run_commit(pending, path, write, file, reply)
            == Err::<CommitResponse, DeltaErrorView>(
            DeltaErrorView::Generic(refusal_message(reason)),
        )),
{
}

/// A request to ratify a commit is one that a catalog may be asked: it names a commit, of the
/// version that the commit's metadata gives and of the file that was looked up, and it names the
/// last published version where there is one.
pub proof fn law_request_describes_commit(
    table_id: Seq<char>,
    metadata: CommitMetadata,
    segments: Option<Seq<Seq<char>>>,
    committed: FileMeta,
)
    requires
        ratification_outcome(table_id, metadata, segments, committed) is Ok,
    ensures
        ({
            let request = ratification_outcome(table_id, metadata, segments, committed)->Ok_0;
            &&& request.is_well_formed()
            &&& request.table_id == table_id
            &&& request.table_uri == metadata.table_root@
            &&& request.commit_info matches Some(commit)
            &&& commit.version == metadata.version
            &&& commit.timestamp == metadata.in_commit_timestamp
            &&& commit.file_name == segments.unwrap().last()
            &&& commit.file_size == committed.size
            &&& commit.file_modification_timestamp == committed.last_modified
            &&& request.latest_backfilled_version is Some <==> metadata.max_published_version is Some
            &&& request.latest_backfilled_version is Some ==> request.latest_backfilled_version->0
                == metadata.max_published_version->0
        }),
{
}

/// A request can be made exactly where every count fits into what a catalog takes and the staged
/// file's path has a segment.
pub proof fn law_request_iff_counts_fit(
    table_id: Seq<char>,
    metadata: CommitMetadata,
    segments: Option<Seq<Seq<char>>>,
    committed: FileMeta,
)
    ensures
        ratification_outcome(table_id, metadata, segments, committed) is Ok <==> {
            &&& metadata.version <= i64::MAX
            &&& segments is Some && segments->0.len() > 0
            &&& committed.size <= i64::MAX
            &&& metadata.max_published_version is Some ==> metadata.max_published_version->0
                <= i64::MAX
        },
{
}

/// What the catalog is told of a commit, from its start to the request: the table, its root, the
/// version, the timestamp, the file that was looked up under the last segment of the path at which
/// it was staged, and the last published version wherever one is known. Staging and writing change
/// none of it.
pub proof fn law_catalog_is_told_of_the_commit(
    pending: PendingCommitView,
    path: Seq<char>,
    staged: StagedCommitView,
    written: StagedCommitView,
    file: FileMeta,
    request: ClientCommitRequestView,
    committed: FileMeta,
)
    requires
        pending.staged(Ok(path)) == Ok::<StagedCommitView, DeltaErrorView>(staged),
        staged.written(Ok(())) == Ok::<StagedCommitView, DeltaErrorView>(written),
        written.looked_up(Ok(file)) == Ok::<(ClientCommitRequestView, FileMeta), DeltaErrorView>(
            (request, committed),
        ),
    ensures
        staged.path == path,
        written.path == path,
        committed == file,
        request.table_id == pending.table_id,
        request.table_uri == pending.metadata.table_root@,
        pending.metadata.max_published_version is None ==> request.latest_backfilled_version is None,
        pending.metadata.max_published_version matches Some(v) ==> {
            &&& request.latest_backfilled_version is Some
            &&& request.latest_backfilled_version->0 == v
        },
        request.commit_info is Some,
        request.commit_info->0.version == pending.metadata.version,
        request.commit_info->0.timestamp == pending.metadata.in_commit_timestamp,
        request.commit_info->0.file_size == file.size,
        request.commit_info->0.file_modification_timestamp == file.last_modified,
        url_path_segments(path) is Some,
        url_path_segments(path)->0.len() > 0,
        request.commit_info->0.file_name == url_path_segments(path)->0[url_path_segments(
            path,
        )->0.len() - 1],
        request.metadata is None,
        request.protocol is None,
{
}

/// Staging and writing keep a commit as it is: the table, what is known of the commit, and the
/// path. They fail exactly where their work did, with the same error.
pub proof fn law_states_keep_the_commit(
    pending: PendingCommitView,
    staged: StagedCommitView,
    path: Result<Seq<char>, DeltaErrorView>,
    write: Result<(), DeltaErrorView>,
)
    ensures
        path matches Ok(p) ==> {
            &&& pending.staged(path) is Ok
            &&& pending.staged(path)->Ok_0.table_id == pending.table_id
            &&& pending.staged(path)->Ok_0.metadata == pending.metadata
            &&& pending.staged(path)->Ok_0.path == p
        },
        path matches Err(e) ==> pending.staged(path) == Err::<StagedCommitView, DeltaErrorView>(e),
        write is Ok ==> {
            &&& staged.written(write) is Ok
            &&& staged.written(write)->Ok_0.table_id == staged.table_id
            &&& staged.written(write)->Ok_0.metadata == staged.metadata
            &&& staged.written(write)->Ok_0.path == staged.path
        },
        write matches Err(e) ==> staged.written(write) == Err::<StagedCommitView, DeltaErrorView>(
            e,
        ),
{
}

/// When a request to ratify a commit is made, and what is said where it is not: the first that
/// holds of a version, a path, a size and a published version that the catalog cannot take. The
/// error of a failed look-up is returned as it is.
pub proof fn law_what_a_catalog_cannot_take(
    written: StagedCommitView,
    file: FileMeta,
    failure: DeltaErrorView,
)
    ensures
        written.looked_up(Err(failure)) == Err::<
            (ClientCommitRequestView, FileMeta),
            DeltaErrorView,
        >(failure),
        ({
            let r = written.looked_up(Ok(file));
            let segments = url_path_segments(written.path);
            let published = written.metadata.max_published_version;
            let largest: int = 0x7fff_ffff_ffff_ffff;
            if written.metadata.version > largest {
                r is Err && r->Err_0 == DeltaErrorView::Generic(
                    "commit version does not fit into i64 for UC commit"@,
                )
            } else if segments is None {
                r is Err && r->Err_0 == DeltaErrorView::Generic(
                    "staged commit contained no path segments"@,
                )
            } else if segments->0.len() == 0 {
                r is Err && r->Err_0 == DeltaErrorView::Generic(
                    "staged commit segments next_back was empty"@,
                )
            } else if file.size > largest {
                r is Err && r->Err_0 == DeltaErrorView::Generic(
                    "committed size does not fit into i64"@,
                )
            } else if published is Some && published->0 > largest {
                r is Err && r->Err_0 == DeltaErrorView::Generic(
                    "Max published version "@ + decimal(published->0 as nat)
                        + " does not fit into i64 for UC commit"@,
                )
            } else {
                r is Ok
            }
        }),
{
}

/// The catalog's reply decides a commit whose file was looked up: without a reason the commit is
/// made and its file is the one that was looked up, and with one it failed, and the reason is said.
pub proof fn law_reply_decides_the_commit(committed: FileMeta, reply: Result<(), String>)
    ensures
        reply is Ok ==> ratified(committed, reply_view(reply)) == Ok::<
            CommitResponse,
            DeltaErrorView,
        >(CommitResponse::Committed { file_meta: committed }),
        reply matches Err(reason) ==> ratified(committed, reply_view(reply)) == Err::<
            CommitResponse,
            DeltaErrorView,
        >(DeltaErrorView::Generic("UC commit error: "@ + reason@)),
{
}

/// The name of a staged file is the last of the segments of its path, whatever comes before it.
pub proof fn law_file_name_is_the_last_segment(before: Seq<Seq<char>>, name: Seq<char>)
    ensures
        staged_file_name_outcome(Some(before.push(name))) == Ok::<Seq<char>, DeltaErrorView>(name),
        staged_file_name_outcome(None) == Err::<Seq<char>, DeltaErrorView>(
            DeltaErrorView::Generic("staged commit contained no path segments"@),
        ),
        staged_file_name_outcome(Some(seq![])) == Err::<Seq<char>, DeltaErrorView>(
            DeltaErrorView::Generic("staged commit segments next_back was empty"@),
        ),
{
}

} // verus!

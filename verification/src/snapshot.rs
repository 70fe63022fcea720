//! Snapshots of tables and the builder that they come from.

use std::sync::Arc;

use delta_kernel::schema::StructType;
use delta_kernel::LogPath;
use delta_kernel::Snapshot;
use vstd::prelude::*;
use vstd::utf8::encode_utf8;

use crate::engine::ExternEngine;
use crate::error::{DeltaError, DeltaResult};
use crate::sharing::share;
use crate::strings::{texts, KernelStringSlice};
use crate::tables::{is_table_url, unwrap_and_parse_path_as_url};

verus! {

/// A snapshot, with what it tells of its table.
#[derive(Debug)]
pub struct SharedSnapshot {
    /// The kernel's own snapshot.
    pub snapshot: Arc<Snapshot>,
    /// The version that the table is at.
    pub version: u64,
    /// The logical schema of the table.
    pub schema: Arc<StructType>,
    /// The URL of the table's root.
    pub table_root: String,
    /// The names of the columns that the table is partitioned by, in their order.
    pub partition_columns: Vec<String>,
}

/// The schema of a table.
#[derive(Debug)]
pub struct SharedSchema {
    pub schema: Arc<StructType>,
}

/// What a snapshot is made from.
#[derive(Debug)]
pub enum FfiSnapshotBuilderSource {
    /// The log of the table at this URL.
    TableRoot(String),
    /// An older snapshot, brought up to date.
    ExistingSnapshot(Arc<Snapshot>),
}

/// A builder for a snapshot.
///
/// It comes from `get_snapshot_builder` (for the table at a path) or `get_snapshot_builder_from`
/// (to bring an older snapshot up to date). `snapshot_builder_set_version` and
/// `snapshot_builder_set_log_tail` set what is wanted, and `snapshot_builder_build` consumes it.
#[derive(Debug)]
pub struct FfiSnapshotBuilder<X> {
    pub engine: Arc<X>,
    pub source: FfiSnapshotBuilderSource,
    pub version: Option<u64>,
    pub log_tail: Vec<LogPath>,
}

/// True where nothing was set on a builder yet.
pub open spec fn is_new_snapshot_builder<X>(
    builder: FfiSnapshotBuilder<X>,
    source: FfiSnapshotBuilderSource,
    engine: Arc<X>,
) -> bool {
    &&& builder.engine == engine
    &&& builder.source == source
    &&& builder.version is None
    &&& builder.log_tail@.len() == 0
}

/// True where `r` is a new builder for the table at `url`, or the error that came in its place.
pub open spec fn is_builder_for_table<X>(
    url: DeltaResult<String>,
    engine: Arc<X>,
    r: DeltaResult<FfiSnapshotBuilder<X>>,
) -> bool {
    match url {
        Ok(url) => r matches Ok(builder) && is_new_snapshot_builder(
            builder,
            FfiSnapshotBuilderSource::TableRoot(url),
            engine,
        ),
        Err(e) => r == Err::<FfiSnapshotBuilder<X>, _>(e),
    }
}

/// Gets a builder for a snapshot of the table at a path.
pub fn get_snapshot_builder<X>(path: KernelStringSlice<'_>, engine: Arc<X>) -> (r: DeltaResult<
    FfiSnapshotBuilder<X>,
>)
    ensures
        exists|url: DeltaResult<String>| #[trigger]
            is_table_url(path@, url) && is_builder_for_table(url, engine, r),
{
    let url = unwrap_and_parse_path_as_url(path);
    get_snapshot_builder_impl(url, engine)
}

/// Makes a builder once the URL of the table was looked for.
pub fn get_snapshot_builder_impl<X>(url: DeltaResult<String>, engine: Arc<X>) -> (r: DeltaResult<
    FfiSnapshotBuilder<X>,
>)
    ensures
        is_builder_for_table(url, engine, r),
{
    match url {
        Ok(url) => Ok(
            FfiSnapshotBuilder {
                engine,
                source: FfiSnapshotBuilderSource::TableRoot(url),
                version: None,
                log_tail: Vec::new(),
            },
        ),
        Err(e) => Err(e),
    }
}

/// Gets a builder that brings an older snapshot up to date, without reading the whole log again.
pub fn get_snapshot_builder_from<X>(old_snapshot: &SharedSnapshot, engine: Arc<X>) -> (builder:
    FfiSnapshotBuilder<X>)
    ensures
        is_new_snapshot_builder(
            builder,
            FfiSnapshotBuilderSource::ExistingSnapshot(old_snapshot.snapshot),
            engine,
        ),
{
    FfiSnapshotBuilder {
        engine,
        source: FfiSnapshotBuilderSource::ExistingSnapshot(share(&old_snapshot.snapshot)),
        version: None,
        log_tail: Vec::new(),
    }
}

/// Sets the version that is wanted. Without it the latest version of the table is taken.
pub fn snapshot_builder_set_version<X>(builder: &mut FfiSnapshotBuilder<X>, version: u64)
    ensures
        *final(builder) == (FfiSnapshotBuilder { version: Some(version), ..*old(builder) }),
{
    builder.version = Some(version);
}

/// Sets the tail of the log, for a table that a catalog manages. Fails, and leaves the builder as
/// it was, where one of the paths could not be read.
pub fn snapshot_builder_set_log_tail<X>(
    builder: &mut FfiSnapshotBuilder<X>,
    log_tail: DeltaResult<Vec<LogPath>>,
) -> (r: DeltaResult<bool>)
    ensures
        match log_tail {
            Ok(log_tail) => r == Ok::<bool, DeltaError>(true) && *final(builder) == (
            FfiSnapshotBuilder { log_tail, ..*old(builder) }),
            Err(e) => r == Err::<bool, DeltaError>(e) && *final(builder) == *old(builder),
        },
{
    match log_tail {
        Ok(log_tail) => {
            builder.log_tail = log_tail;
            Ok(true)
        },
        Err(e) => Err(e),
    }
}

/// All that the kernel needs to make a snapshot. Without a version it takes the latest, without a
/// log tail what it lists itself.
#[derive(Debug)]
pub struct SnapshotPlan<E> {
    pub engine: Arc<E>,
    pub source: FfiSnapshotBuilderSource,
    pub version: Option<u64>,
    pub log_tail: Option<Vec<LogPath>>,
}

/// True where `plan` makes the snapshot that a builder was told of. A log tail without a path in
/// it counts as none.
pub open spec fn is_snapshot_plan_for<X: ExternEngine>(
    plan: SnapshotPlan<X::Engine>,
    builder: FfiSnapshotBuilder<X>,
) -> bool {
    &&& plan.engine == builder.engine.engine_spec()
    &&& plan.source == builder.source
    &&& plan.version == builder.version
    &&& plan.log_tail == if builder.log_tail@.len() == 0 {
        None
    } else {
        Some(builder.log_tail)
    }
}

/// Consumes the builder and says how the snapshot is made.
pub fn snapshot_builder_build<X: ExternEngine>(builder: FfiSnapshotBuilder<X>) -> (plan:
    SnapshotPlan<X::Engine>)
    ensures
        is_snapshot_plan_for(plan, builder),
        builder.log_tail@.len() >= 1 ==> plan.log_tail == Some(builder.log_tail),
{
    let engine = builder.engine.engine();
    let log_tail = if builder.log_tail.len() == 0 {
        None
    } else {
        Some(builder.log_tail)
    };
    SnapshotPlan { engine, source: builder.source, version: builder.version, log_tail }
}

/// True where `r` makes a snapshot of the table at `url`, at a version and with a tail of the log
/// where they are given, or is the first of the errors that came in their place.
pub open spec fn is_snapshot_plan<X: ExternEngine>(
    url: DeltaResult<String>,
    engine: Arc<X>,
    version: Option<u64>,
    log_tail: Option<DeltaResult<Vec<LogPath>>>,
    r: DeltaResult<SnapshotPlan<X::Engine>>,
) -> bool {
    match (url, log_tail) {
        (Err(e), _) => r == Err::<SnapshotPlan<X::Engine>, _>(e),
        (Ok(_), Some(Err(e))) => r == Err::<SnapshotPlan<X::Engine>, _>(e),
        (Ok(url), _) => {
            &&& r is Ok
            &&& r->Ok_0.engine == engine.engine_spec()
            &&& r->Ok_0.source == FfiSnapshotBuilderSource::TableRoot(url)
            &&& r->Ok_0.version == version
            &&& r->Ok_0.log_tail == match log_tail {
                Some(Ok(log_tail)) => if log_tail@.len() == 0 {
                    None
                } else {
                    Some(log_tail)
                },
                _ => None,
            }
        },
    }
}

/// Says how a snapshot is made once the URL of the table was looked for, at a version and with a
/// tail of the log where they are given.
pub fn snapshot_of_table<X: ExternEngine>(
    url: DeltaResult<String>,
    engine: Arc<X>,
    version: Option<u64>,
    log_tail: Option<DeltaResult<Vec<LogPath>>>,
) -> (r: DeltaResult<SnapshotPlan<X::Engine>>)
    ensures
        is_snapshot_plan(url, engine, version, log_tail, r),
{
    let mut builder = match get_snapshot_builder_impl(url, engine) {
        Ok(builder) => builder,
        Err(e) => return Err(e),
    };
    if let Some(version) = version {
        snapshot_builder_set_version(&mut builder, version);
    }
    if let Some(log_tail) = log_tail {
        if let Err(e) = snapshot_builder_set_log_tail(&mut builder, log_tail) {
            return Err(e);
        }
    }
    Ok(snapshot_builder_build(builder))
}

/// Says how the latest snapshot of the table at a path is made.
pub fn snapshot<X: ExternEngine>(path: KernelStringSlice<'_>, engine: Arc<X>) -> (r: DeltaResult<
    SnapshotPlan<X::Engine>,
>)
    ensures
        exists|url: DeltaResult<String>| #[trigger]
            is_table_url(path@, url) && is_snapshot_plan(url, engine, None, None, r),
        r matches Ok(plan) ==> plan.version is None && plan.log_tail is None && plan.engine
            == engine.engine_spec(),
{
    let url = unwrap_and_parse_path_as_url(path);
    snapshot_of_table(url, engine, None, None)
}

/// Says how the latest snapshot of the table at a path is made with a tail of the log.
pub fn snapshot_with_log_tail<X: ExternEngine>(
    path: KernelStringSlice<'_>,
    engine: Arc<X>,
    log_paths: DeltaResult<Vec<LogPath>>,
) -> (r: DeltaResult<SnapshotPlan<X::Engine>>)
    ensures
        exists|url: DeltaResult<String>| #[trigger]
            is_table_url(path@, url) && is_snapshot_plan(url, engine, None, Some(log_paths), r),
        r matches Ok(plan) ==> {
            &&& plan.version is None
            &&& plan.engine == engine.engine_spec()
            &&& log_paths is Ok
            &&& log_paths->Ok_0@.len() >= 1 ==> plan.log_tail == Some(log_paths->Ok_0)
        },
{
    let url = unwrap_and_parse_path_as_url(path);
    snapshot_of_table(url, engine, None, Some(log_paths))
}

/// Says how the snapshot of the table at a path at some version is made.
pub fn snapshot_at_version<X: ExternEngine>(
    path: KernelStringSlice<'_>,
    engine: Arc<X>,
    version: u64,
) -> (r: DeltaResult<SnapshotPlan<X::Engine>>)
    ensures
        exists|url: DeltaResult<String>| #[trigger]
            is_table_url(path@, url) && is_snapshot_plan(url, engine, Some(version), None, r),
        r matches Ok(plan) ==> plan.version == Some(version) && plan.log_tail is None && plan.engine
            == engine.engine_spec(),
{
    let url = unwrap_and_parse_path_as_url(path);
    snapshot_of_table(url, engine, Some(version), None)
}

/// Says how the snapshot of the table at a path at some version is made with a tail of the log.
pub fn snapshot_at_version_with_log_tail<X: ExternEngine>(
    path: KernelStringSlice<'_>,
    engine: Arc<X>,
    version: u64,
    log_tail: DeltaResult<Vec<LogPath>>,
) -> (r: DeltaResult<SnapshotPlan<X::Engine>>)
    ensures
        exists|url: DeltaResult<String>| #[trigger]
            is_table_url(path@, url) && is_snapshot_plan(
                url,
                engine,
                Some(version),
                Some(log_tail),
                r,
            ),
        r matches Ok(plan) ==> {
            &&& plan.version == Some(version)
            &&& plan.engine == engine.engine_spec()
            &&& log_tail is Ok
            &&& log_tail->Ok_0@.len() >= 1 ==> plan.log_tail == Some(log_tail->Ok_0)
        },
{
    let url = unwrap_and_parse_path_as_url(path);
    snapshot_of_table(url, engine, Some(version), Some(log_tail))
}

/// The version of a snapshot.
pub fn version(snapshot: &SharedSnapshot) -> (version: u64)
    ensures
        version == snapshot.version,
{
    snapshot.version
}

/// The logical schema of a snapshot.
pub fn logical_schema(snapshot: &SharedSnapshot) -> (schema: SharedSchema)
    ensures
        schema.schema == snapshot.schema,
{
    SharedSchema { schema: share(&snapshot.schema) }
}

/// Hands the root of a snapshot's table to the engine, which allocates a string of its own for
/// it.
pub fn snapshot_table_root<R, F: FnOnce(KernelStringSlice<'_>) -> R>(
    snapshot: &SharedSnapshot,
    allocate_fn: F,
) -> (r: R)
    requires
        forall|slice: KernelStringSlice<'_>| #[trigger]
            slice@ == encode_utf8(snapshot.table_root@) ==> call_requires(allocate_fn, (slice,)),
    ensures
        exists|slice: KernelStringSlice<'_>| #[trigger]
            slice@ == encode_utf8(snapshot.table_root@) && call_ensures(allocate_fn, (slice,), r),
{
    let slice = KernelStringSlice::new(snapshot.table_root.as_str());
    allocate_fn(slice)
}

/// The number of columns that a snapshot's table is partitioned by.
pub fn get_partition_column_count(snapshot: &SharedSnapshot) -> (count: usize)
    ensures
        count == snapshot.partition_columns@.len(),
{
    snapshot.partition_columns.len()
}

/// An iterator over strings. Its view is what is left of them.
#[derive(Debug)]
pub struct StringSliceIterator {
    strings: Vec<String>,
    next: usize,
}

impl View for StringSliceIterator {
    type V = Seq<Seq<char>>;

    closed spec fn view(&self) -> Seq<Seq<char>> {
        texts(self.strings@).skip(self.next as int)
    }
}

impl StringSliceIterator {
    #[verifier::type_invariant]
    spec fn well_formed(self) -> bool {
        self.next <= self.strings@.len()
    }
}

/// An iterator over the columns that a snapshot's table is partitioned by.
pub fn get_partition_columns(snapshot: &SharedSnapshot) -> (iter: StringSliceIterator)
    ensures
        iter@ == texts(snapshot.partition_columns@),
{
    let strings = snapshot.partition_columns.clone();
    proof {
        assert(texts(strings@) =~= texts(snapshot.partition_columns@));
        assert(texts(strings@).skip(0) =~= texts(strings@));
    }
    StringSliceIterator { strings, next: 0 }
}

/// Hands the next string to the visitor, where one is left. Returns whether there was one.
pub fn string_slice_next<X, F: FnOnce(X, KernelStringSlice<'_>)>(
    data: &mut StringSliceIterator,
    engine_context: X,
    engine_visitor: F,
) -> (visited: bool)
    requires
        old(data)@.len() > 0 ==> forall|slice: KernelStringSlice<'_>| #[trigger]
            slice@ == encode_utf8(old(data)@.first()) ==> call_requires(
                engine_visitor,
                (engine_context, slice),
            ),
    ensures
        visited == (old(data)@.len() > 0),
        !visited ==> *final(data) == *old(data),
        visited ==> final(data)@ == old(data)@.drop_first(),
        visited ==> exists|slice: KernelStringSlice<'_>| #[trigger]
            slice@ == encode_utf8(old(data)@.first()) && call_ensures(
                engine_visitor,
                (engine_context, slice),
                (),
            ),
{
    proof {
        use_type_invariant(&*data);
    }
    let ghost before = data@;
    if data.next < data.strings.len() {
        let i: usize = data.next;
        data.next = i + 1;
        assert(data@ =~= before.drop_first());
        let slice = KernelStringSlice::new(data.strings[i].as_str());
        engine_visitor(engine_context, slice);
        true
    } else {
        false
    }
}

/// What is left of an iterator over `strings` after `calls` calls that visited a string.
pub open spec fn left_after(strings: Seq<Seq<char>>, calls: nat) -> Seq<Seq<char>>
    decreases calls,
{
    if calls == 0 {
        strings
    } else {
        left_after(strings, (calls - 1) as nat).drop_first()
    }
}

/// Calls of `string_slice_next` visit every partition column once, in their order, and as many as
/// `get_partition_column_count` tells.
pub proof fn law_every_column_is_visited(snapshot: SharedSnapshot, calls: nat)
    requires
        calls <= snapshot.partition_columns@.len(),
    ensures
        left_after(texts(snapshot.partition_columns@), calls) == texts(
            snapshot.partition_columns@,
        ).skip(calls as int),
        left_after(texts(snapshot.partition_columns@), calls).len() == 0 <==> calls
            == snapshot.partition_columns@.len(),
        calls < snapshot.partition_columns@.len() ==> left_after(
            texts(snapshot.partition_columns@),
            calls,
        ).first() == snapshot.partition_columns@[calls as int]@,
    decreases calls,
{
    let columns = texts(snapshot.partition_columns@);
    if calls == 0 {
        assert(columns.skip(0) =~= columns);
    } else {
        law_every_column_is_visited(snapshot, (calls - 1) as nat);
        assert(columns.skip(calls - 1).drop_first() =~= columns.skip(calls as int));
    }
}

/// A builder on which a version and a tail of the log are set, where they are given.
pub open spec fn with_settings<X>(
    builder: FfiSnapshotBuilder<X>,
    version: Option<u64>,
    log_tail: Option<Vec<LogPath>>,
) -> FfiSnapshotBuilder<X> {
    let versioned = match version {
        Some(_) => FfiSnapshotBuilder { version, ..builder },
        None => builder,
    };
    match log_tail {
        Some(log_tail) => FfiSnapshotBuilder { log_tail, ..versioned },
        None => versioned,
    }
}

/// The functions that make a snapshot in one call say the same as getting a builder, setting what
/// is given, and building.
pub proof fn law_one_call_does_what_the_builder_does<X: ExternEngine>(
    url: String,
    engine: Arc<X>,
    builder: FfiSnapshotBuilder<X>,
    version: Option<u64>,
    log_tail: Option<Vec<LogPath>>,
    plan: SnapshotPlan<X::Engine>,
)
    requires
        is_builder_for_table(Ok(url), engine, Ok(builder)),
    ensures
        is_snapshot_plan_for(plan, with_settings(builder, version, log_tail)) <==> is_snapshot_plan(
            Ok(url),
            engine,
            version,
            match log_tail {
                Some(log_tail) => Some(Ok(log_tail)),
                None => None,
            },
            Ok(plan),
        ),
{
}

/// A builder comes out the same whether the version or the tail of the log is set first.
pub proof fn law_settings_commute<X>(
    builder: FfiSnapshotBuilder<X>,
    version: u64,
    log_tail: Vec<LogPath>,
)
    ensures
        (FfiSnapshotBuilder {
            log_tail,
            ..(FfiSnapshotBuilder { version: Some(version), ..builder })
        }) == (FfiSnapshotBuilder {
            version: Some(version),
            ..(FfiSnapshotBuilder { log_tail, ..builder })
        }),
{
}

/// A builder makes the snapshot at the version that was set last.
pub proof fn law_last_version_is_built<X: ExternEngine>(
    builder: FfiSnapshotBuilder<X>,
    first: u64,
    last: u64,
    plan: SnapshotPlan<X::Engine>,
)
    requires
        is_snapshot_plan_for(
            plan,
            FfiSnapshotBuilder {
                version: Some(last),
                ..(FfiSnapshotBuilder { version: Some(first), ..builder })
            },
        ),
    ensures
        plan.version == Some(last),
        plan.source == builder.source,
{
}

/// A builder on which a tail of the log is set hands the kernel that tail, all of it, where it holds
/// a path, whatever its length, the source and the version. A tail without a path in it is none.
/// The rest of what the builder was told is not touched by it.
pub proof fn law_log_tail_reaches_the_kernel<X: ExternEngine>(
    builder: FfiSnapshotBuilder<X>,
    log_tail: Vec<LogPath>,
    plan: SnapshotPlan<X::Engine>,
)
    requires
        is_snapshot_plan_for(plan, FfiSnapshotBuilder { log_tail, ..builder }),
    ensures
        log_tail@.len() >= 1 ==> plan.log_tail == Some(log_tail),
        log_tail@.len() == 0 ==> plan.log_tail is None,
        plan.version == builder.version,
        plan.source == builder.source,
        plan.engine == builder.engine.engine_spec(),
{
}

/// A new builder makes the latest snapshot of its source, with what the kernel lists itself. With a
/// version that is set it makes the snapshot at that version, of the same source.
pub proof fn law_new_builder_makes_the_latest_snapshot<X: ExternEngine>(
    builder: FfiSnapshotBuilder<X>,
    source: FfiSnapshotBuilderSource,
    engine: Arc<X>,
    version: u64,
    latest: SnapshotPlan<X::Engine>,
    versioned: SnapshotPlan<X::Engine>,
)
    requires
        is_new_snapshot_builder(builder, source, engine),
        is_snapshot_plan_for(latest, builder),
        is_snapshot_plan_for(versioned, FfiSnapshotBuilder { version: Some(version), ..builder }),
    ensures
        latest.version is None,
        versioned.version == Some(version),
        latest.source == source,
        versioned.source == source,
        latest.log_tail is None,
        versioned.log_tail is None,
        latest.engine == engine.engine_spec(),
        versioned.engine == engine.engine_spec(),
{
}

/// A builder for a table is of the URL that was found, and fails exactly where none was, with the
/// error that came in its place.
pub proof fn law_builder_is_of_the_url_that_was_found<X>(
    url: DeltaResult<String>,
    engine: Arc<X>,
    r: DeltaResult<FfiSnapshotBuilder<X>>,
)
    requires
        is_builder_for_table(url, engine, r),
    ensures
        url is Ok <==> r is Ok,
        url matches Err(e) ==> r == Err::<FfiSnapshotBuilder<X>, DeltaError>(e),
        url matches Ok(u) ==> {
            &&& r->Ok_0.source == FfiSnapshotBuilderSource::TableRoot(u)
            &&& r->Ok_0.engine == engine
            &&& r->Ok_0.version is None
            &&& r->Ok_0.log_tail@ == Seq::<LogPath>::empty()
        },
{
    if r is Ok {
        assert(r->Ok_0.log_tail@ =~= Seq::<LogPath>::empty());
    }
}

/// What a snapshot that is made in one call is: of the URL that was found, at the version that is
/// given or else the latest, with every path of the tail that is given. It fails exactly where no
/// URL was found or the tail could not be read, with that error, that of the URL first.
pub proof fn law_one_call_hands_everything_on<X: ExternEngine>(
    url: DeltaResult<String>,
    engine: Arc<X>,
    version: Option<u64>,
    log_tail: Option<DeltaResult<Vec<LogPath>>>,
    r: DeltaResult<SnapshotPlan<X::Engine>>,
)
    requires
        is_snapshot_plan(url, engine, version, log_tail, r),
    ensures
        r is Ok <==> url is Ok && (log_tail is None || log_tail->0 is Ok),
        url matches Err(e) ==> r == Err::<SnapshotPlan<X::Engine>, DeltaError>(e),
        url is Ok && log_tail is Some ==> (log_tail->0 matches Err(e) ==> r == Err::<
            SnapshotPlan<X::Engine>,
            DeltaError,
        >(e)),
        r matches Ok(plan) ==> {
            &&& plan.source == FfiSnapshotBuilderSource::TableRoot(url->Ok_0)
            &&& plan.engine == engine.engine_spec()
            &&& plan.version == version
            &&& log_tail is None ==> plan.log_tail is None
            &&& log_tail is Some && log_tail->0->Ok_0@.len() >= 1 ==> plan.log_tail == Some(
                log_tail->0->Ok_0,
            )
            &&& log_tail is Some && log_tail->0->Ok_0@.len() == 0 ==> plan.log_tail is None
        },
{
}

} // verus!

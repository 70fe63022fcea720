//! Transactions on tables.

use std::sync::Arc;

use vstd::prelude::*;
use vstd::string::StringExecFns;
use vstd::utf8::{decode_utf8, valid_utf8};

use crate::decimal::{decimal, decimal_string, law_decimal_reads_back, number_read};
use crate::engine::ExternEngine;
use crate::error::{DeltaError, DeltaErrorView, DeltaResult};
use crate::snapshot::{is_snapshot_plan, snapshot_of_table, SnapshotPlan};
use crate::strings::{KernelStringSlice, TryFromStringSlice};
use crate::tables::{is_table_url, unwrap_and_parse_path_as_url};

verus! {

/// Data of an engine.
#[derive(Debug)]
pub struct ExclusiveEngineData<D> {
    pub data: D,
}

/// A transaction on a table: changes are staged on it and then committed all at once.
///
/// `T` is the kernel's transaction, and `D` what an engine describes written files with.
#[derive(Debug)]
pub struct ExclusiveTransaction<T, D> {
    transaction: T,
    engine_info: Option<String>,
    added_files: Vec<D>,
}

/// What is staged on a transaction.
#[verifier::ext_equal]
pub struct TransactionView<T, D> {
    /// The transaction as the kernel started it.
    pub transaction: T,
    /// The engine that the commit is attributed to.
    pub engine_info: Option<Seq<char>>,
    /// The metadata of the files that are added, in the order in which they were.
    pub added_files: Seq<D>,
}

impl<T, D> View for ExclusiveTransaction<T, D> {
    type V = TransactionView<T, D>;

    closed spec fn view(&self) -> TransactionView<T, D> {
        TransactionView {
            transaction: self.transaction,
            engine_info: match self.engine_info {
                Some(info) => Some(info@),
                None => None,
            },
            added_files: self.added_files@,
        }
    }
}

impl<T, D> ExclusiveTransaction<T, D> {
    /// A transaction on which nothing is staged.
    pub fn new(transaction: T) -> (txn: Self)
        ensures
            txn@ == (TransactionView {
                transaction,
                engine_info: None,
                added_files: Seq::<D>::empty(),
            }),
    {
        ExclusiveTransaction { transaction, engine_info: None, added_files: Vec::new() }
    }

    /// The kernel's transaction, and what is to be staged on it before it is committed.
    pub fn into_parts(self) -> (parts: (T, Option<String>, Vec<D>))
        ensures
            self@ == (TransactionView {
                transaction: parts.0,
                engine_info: match parts.1 {
                    Some(info) => Some(info@),
                    None => None,
                },
                added_files: parts.2@,
            }),
    {
        (self.transaction, self.engine_info, self.added_files)
    }
}

/// Says how the snapshot is made that a transaction on the table at a path starts from: the
/// latest one.
pub fn transaction<X: ExternEngine>(path: KernelStringSlice<'_>, engine: Arc<X>) -> (r: DeltaResult<
    SnapshotPlan<X::Engine>,
>)
    ensures
        exists|url: DeltaResult<String>| #[trigger]
            is_table_url(path@, url) && is_snapshot_plan(url, engine, None, None, r),
        r matches Ok(plan) ==> plan.version is None && plan.log_tail is None && plan.engine
            == engine.engine_spec(),
{
    let url = unwrap_and_parse_path_as_url(path);
    snapshot_of_table(url, engine, None, None)
}

/// Attributes the commit of a transaction to an engine. What was given before is replaced.
pub fn with_engine_info<T, D>(
    txn: ExclusiveTransaction<T, D>,
    engine_info: KernelStringSlice<'_>,
) -> (r: ExclusiveTransaction<T, D>)
    requires
        valid_utf8(engine_info@),
    ensures
        r@ == (TransactionView { engine_info: Some(decode_utf8(engine_info@)), ..txn@ }),
{
    let info: DeltaResult<String> = TryFromStringSlice::try_from_slice(&engine_info);
    let engine_info = match info {
        Ok(info) => Some(info),
        Err(_) => None,
    };
    ExclusiveTransaction {
        transaction: txn.transaction,
        engine_info,
        added_files: txn.added_files,
    }
}

/// Adds the metadata of files that were written to a transaction.
pub fn add_files<T, D>(txn: &mut ExclusiveTransaction<T, D>, write_metadata: ExclusiveEngineData<D>)
    ensures
        final(txn)@ == (TransactionView {
            added_files: old(txn)@.added_files.push(write_metadata.data),
            ..old(txn)@
        }),
{
    txn.added_files.push(write_metadata.data);
}

/// What became of a transaction that the kernel committed.
#[derive(Clone, Copy, Debug)]
pub enum CommitResult {
    /// It is the given version of the table.
    Committed { version: u64 },
    /// The given version was committed by someone else.
    Conflict { version: u64 },
}

/// What is said of a commit that lost against another one.
pub open spec fn conflict_message(version: u64) -> Seq<char> {
    "commit conflict at version "@ + decimal(version as nat)
}

/// What a commit comes to once the kernel has committed the transaction: the version of the table
/// that it is, or an error where the kernel failed or another commit came first.
pub fn commit(result: DeltaResult<CommitResult>) -> (r: DeltaResult<u64>)
    ensures
        match result {
            Ok(CommitResult::Committed { version }) => r == Ok::<u64, DeltaError>(version),
            Ok(CommitResult::Conflict { version }) => r matches Err(e) && e@
                == DeltaErrorView::Generic(conflict_message(version)) && e@
                == DeltaErrorView::Generic("commit conflict at version "@ + decimal(version as nat)),
            Err(e) => r == Err::<u64, DeltaError>(e),
        },
{
    match result {
        Ok(CommitResult::Committed { version }) => Ok(version),
        Ok(CommitResult::Conflict { version }) => Err(
            DeltaError::Generic(
                "commit conflict at version ".to_owned().concat(decimal_string(version).as_str()),
            ),
        ),
        Err(e) => Err(e),
    }
}

/// What is staged on a transaction once the metadata of several writes was added to it.
pub open spec fn with_files<T, D>(
    txn: TransactionView<T, D>,
    files: Seq<D>,
) -> TransactionView<T, D>
    decreases files.len(),
{
    if files.len() == 0 {
        txn
    } else {
        let before = with_files(txn, files.drop_last());
        TransactionView { added_files: before.added_files.push(files.last()), ..before }
    }
}

/// A transaction keeps all the files that are added to it, in the order in which they are, and
/// naming the engine before or after them makes no difference.
pub proof fn law_staged_changes_are_kept<T, D>(
    txn: TransactionView<T, D>,
    files: Seq<D>,
    info: Seq<char>,
)
    ensures
        with_files(txn, files) == (TransactionView {
            added_files: txn.added_files + files,
            ..txn
        }),
        with_files(TransactionView { engine_info: Some(info), ..txn }, files) == (TransactionView {
            engine_info: Some(info),
            ..with_files(txn, files)
        }),
    decreases files.len(),
{
    if files.len() == 0 {
        assert(txn.added_files + files =~= txn.added_files);
    } else {
        law_staged_changes_are_kept(txn, files.drop_last(), info);
        assert(txn.added_files + files =~= (txn.added_files + files.drop_last()).push(
            files.last(),
        ));
    }
}

/// What is said of a conflict names the version of the other commit: what follows the words reads
/// as that number, so that conflicts of different versions are told apart.
pub proof fn law_conflict_names_the_version(version: u64, other: u64)
    ensures
        "commit conflict at version "@.is_prefix_of(conflict_message(version)),
        number_read(conflict_message(version).skip("commit conflict at version "@.len() as int))
            == version,
        conflict_message(version) == conflict_message(other) ==> version == other,
{
    let words = "commit conflict at version "@;
    law_decimal_reads_back(version as nat);
    law_decimal_reads_back(other as nat);
    assert(conflict_message(version).skip(words.len() as int) =~= decimal(version as nat));
    assert(conflict_message(other).skip(words.len() as int) =~= decimal(other as nat));
    assert(conflict_message(version).take(words.len() as int) =~= words);
}

} // verus!

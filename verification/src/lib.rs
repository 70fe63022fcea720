//! The engine-facing layer of the delta kernel.
//!
//! An engine passes strings, callbacks and opaque values in and gets them back. What the library
//! decides about them is verified here. Work that reads or writes storage is not done here: the
//! library says what is to be done (a plan, or the state of a commit that waits for something),
//! and is told what came of it.

pub mod committer;
pub mod decimal;
pub mod engine;
pub mod engine_iterator;
pub mod engine_options;
pub mod error;
pub mod kernel_types;
pub mod models;
pub mod optional_value;
pub mod publish;
pub mod reference_set;
mod sharing;
pub mod slices;
pub mod snapshot;
pub mod strings;
pub mod tables;
pub mod transaction;
pub mod uc_catalog;
pub mod uc_committer;

pub use engine::{
    builder_build, engine_to_handle, get_default_engine, get_engine_builder, set_builder_option,
    set_builder_with_multithreaded_executor, EngineBuilder, ExternEngine, SharedExternEngine,
};
pub use engine_iterator::EngineIterator;
pub use error::{DeltaError, DeltaResult};
pub use optional_value::OptionalValue;
pub use reference_set::ReferenceSet;
pub use slices::{free_bool_slice, free_row_indexes, KernelBoolSlice, KernelRowIndexArray};
pub use snapshot::{
    get_partition_column_count, get_partition_columns, get_snapshot_builder,
    get_snapshot_builder_from, logical_schema, snapshot, snapshot_at_version,
    snapshot_at_version_with_log_tail, snapshot_builder_build, snapshot_builder_set_log_tail,
    snapshot_builder_set_version, snapshot_table_root, snapshot_with_log_tail, string_slice_next,
    version, FfiSnapshotBuilder, SharedSchema, SharedSnapshot, StringSliceIterator,
};
pub use strings::{
    allocate_kernel_string, ExclusiveRustString, KernelStringSlice, TryFromStringSlice,
};
pub use transaction::ExclusiveEngineData;

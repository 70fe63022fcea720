//! Types of the kernel that are carried along unopened.

use vstd::prelude::*;

verus! {

/// `delta_kernel::Error`, the kernel's errors.
#[verifier::external_type_specification]
#[verifier::external_body]
pub struct ExKernelError(delta_kernel::Error);

/// `delta_kernel::Snapshot`, a table as it is at some version.
#[verifier::external_type_specification]
#[verifier::external_body]
pub struct ExSnapshot(delta_kernel::Snapshot);

/// `delta_kernel::LogPath`, a file of a table's log.
#[verifier::external_type_specification]
#[verifier::external_body]
pub struct ExLogPath(delta_kernel::LogPath);

/// `delta_kernel::schema::StructType`, the schema of a table.
#[verifier::external_type_specification]
#[verifier::external_body]
pub struct ExStructType(delta_kernel::schema::StructType);

} // verus!

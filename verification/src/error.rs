//! The errors that the library returns.

use vstd::prelude::*;

verus! {

/// What can go wrong in a call of the library.
#[derive(Debug)]
pub enum DeltaError {
    /// The bytes of a string slice are not UTF-8.
    Utf8Error {
        /// The length of the longest prefix that is UTF-8.
        valid_up_to: usize,
        /// The length of the offending sequence, or `None` where the input ends too early.
        error_len: Option<usize>,
    },
    /// A failure described by a message alone.
    Generic(String),
    /// The target of a copy, given here, exists already.
    FileAlreadyExists(String),
    /// Any other failure that the kernel reported.
    Kernel(delta_kernel::Error),
}

/// A [`Result`] whose error is the library's own.
pub type DeltaResult<T> = Result<T, DeltaError>;

/// The mathematical value of a [`DeltaError`].
pub enum DeltaErrorView {
    Utf8Error { valid_up_to: nat, error_len: Option<nat> },
    Generic(Seq<char>),
    FileAlreadyExists(Seq<char>),
    Kernel(delta_kernel::Error),
}

impl View for DeltaError {
    type V = DeltaErrorView;

    open spec fn view(&self) -> DeltaErrorView {
        match *self {
            DeltaError::Utf8Error { valid_up_to, error_len } => DeltaErrorView::Utf8Error {
                valid_up_to: valid_up_to as nat,
                error_len: match error_len {
                    Some(n) => Some(n as nat),
                    None => None,
                },
            },
            DeltaError::Generic(message) => DeltaErrorView::Generic(message@),
            DeltaError::FileAlreadyExists(path) => DeltaErrorView::FileAlreadyExists(path@),
            DeltaError::Kernel(e) => DeltaErrorView::Kernel(e),
        }
    }
}

/// The mathematical value of a result.
pub open spec fn outcome<T: View>(result: DeltaResult<T>) -> Result<T::V, DeltaErrorView> {
    match result {
        Ok(value) => Ok(value@),
        Err(e) => Err(e@),
    }
}

impl DeltaError {
    /// An error that a message alone describes.
    pub fn generic(message: &str) -> (r: DeltaError)
        ensures
            r@ == DeltaErrorView::Generic(message@),
    {
        DeltaError::Generic(message.to_owned())
    }
}

/// The value of an error says which kind of error it is and all that it holds, and the value of a
/// result says whether it is an error.
pub proof fn law_error_values<T: View>(e: DeltaError, result: DeltaResult<T>)
    ensures
        e matches DeltaError::Generic(message) ==> e@ == DeltaErrorView::Generic(message@),
        e matches DeltaError::FileAlreadyExists(path) ==> e@
            == DeltaErrorView::FileAlreadyExists(path@),
        e matches DeltaError::Kernel(error) ==> e@ == DeltaErrorView::Kernel(error),
        e matches DeltaError::Utf8Error { valid_up_to, error_len: Some(n) } ==> e@
            == (DeltaErrorView::Utf8Error {
            valid_up_to: valid_up_to as nat,
            error_len: Some(n as nat),
        }),
        e matches DeltaError::Utf8Error { valid_up_to, error_len: None } ==> e@
            == (DeltaErrorView::Utf8Error { valid_up_to: valid_up_to as nat, error_len: None }),
        result matches Ok(value) ==> outcome(result) == Ok::<T::V, DeltaErrorView>(value@),
        result matches Err(error) ==> outcome(result) == Err::<T::V, DeltaErrorView>(error@),
{
}

} // verus!

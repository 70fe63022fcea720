//! String slices passed between the kernel and an engine.

use vstd::prelude::*;
use vstd::utf8::{decode_utf8, encode_utf8, valid_utf8};

use crate::error::{DeltaResult, DeltaError, DeltaErrorView};

verus! {

/// A borrowed slice of bytes that is meant to hold UTF-8, for passing arguments between the
/// kernel and an engine.
///
/// The slice borrows what it points to, so it cannot outlive it. Whether the bytes are UTF-8 is
/// found out when the slice is read, see [`TryFromStringSlice`].
pub struct KernelStringSlice<'a> {
    bytes: &'a [u8],
}

impl<'a> View for KernelStringSlice<'a> {
    type V = Seq<u8>;

    closed spec fn view(&self) -> Seq<u8> {
        self.bytes@
    }
}

impl<'a> KernelStringSlice<'a> {
    /// The slice of a string's bytes.
    pub fn new(source: &'a str) -> (slice: Self)
        ensures
            slice@ == encode_utf8(source@),
    {
        KernelStringSlice { bytes: source.as_bytes() }
    }

    /// The slice of bytes that came from an engine, which may or may not be UTF-8.
    pub fn from_bytes(bytes: &'a [u8]) -> (slice: Self)
        ensures
            slice@ == bytes@,
    {
        KernelStringSlice { bytes }
    }

    /// The bytes, as they are passed to an engine.
    pub fn as_bytes(&self) -> (bytes: &'a [u8])
        ensures
            bytes@ == self@,
    {
        self.bytes
    }
}

/// True of bytes that more bytes could make UTF-8, or none are needed to.
pub open spec fn is_completable(bytes: Seq<u8>) -> bool {
    exists|more: Seq<u8>| valid_utf8(#[trigger] (bytes + more))
}

/// True where reading `bytes` as UTF-8 fails with `error`: all the bytes before `valid_up_to`
/// are UTF-8 and no longer prefix is. Where `error_len` is `None` the input ends inside a
/// character, at most three bytes further on, and more bytes could make it whole; otherwise no
/// more bytes could, and that many, one to three, are in the way: those before the byte that was
/// not expected, or that byte alone where no character starts with it.
pub open spec fn fails_with_utf8_error(bytes: Seq<u8>, error: DeltaErrorView) -> bool {
    match error {
        DeltaErrorView::Utf8Error { valid_up_to, error_len } => {
            &&& valid_up_to < bytes.len()
            &&& valid_utf8(bytes.take(valid_up_to as int))
            &&& forall|n: int|
                valid_up_to < n <= bytes.len() ==> !valid_utf8(#[trigger] bytes.take(n))
            &&& match error_len {
                None => bytes.len() - valid_up_to <= 3,
                Some(n) => {
                    &&& 1 <= n <= 3 && valid_up_to + n <= bytes.len()
                    &&& n > 1 ==> is_completable(bytes.take((valid_up_to + n) as int))
                    &&& forall|k: int|
                        valid_up_to + n < k <= bytes.len() ==> !is_completable(
                            #[trigger] bytes.take(k),
                        )
                },
            }
            &&& error_len is None <==> is_completable(bytes)
        },
        _ => false,
    }
}

/// Reads bytes as UTF-8, through `core::str::from_utf8`.
///
/// Taken from its documentation: the call succeeds exactly on UTF-8 and hands out the same bytes
/// as a `str`; the error's `valid_up_to` is the largest index up to which the input is UTF-8, and
/// its `error_len` is `None` where the input ended unexpectedly, one to three bytes after that
/// index, so that what follows in another chunk may complete it, else the length of the invalid
/// sequence that starts there, one to three bytes: it ends before the byte that was not expected,
/// but for a byte that starts no character, which is the sequence itself.
#[verifier::external_body]
fn from_utf8<'a>(bytes: &'a [u8]) -> (r: Result<&'a str, DeltaError>)
    ensures
        r is Ok <==> valid_utf8(bytes@),
        r matches Ok(s) ==> s@ == decode_utf8(bytes@),
        r matches Err(e) ==> fails_with_utf8_error(bytes@, e@),
{
    match core::str::from_utf8(bytes) {
        Ok(s) => Ok(s),
        Err(e) => Err(
            DeltaError::Utf8Error { valid_up_to: e.valid_up_to(), error_len: e.error_len() },
        ),
    }
}

/// A string type that a [`KernelStringSlice`] can be read into.
pub trait TryFromStringSlice<'a>: Sized {
    /// The characters of the string.
    spec fn text(&self) -> Seq<char>;

    /// Reads the slice, or returns an error where it is not UTF-8.
    fn try_from_slice(slice: &KernelStringSlice<'a>) -> (r: DeltaResult<Self>)
        ensures
            r is Ok <==> valid_utf8(slice@),
            r matches Ok(s) ==> s.text() == decode_utf8(slice@),
            r matches Err(e) ==> fails_with_utf8_error(slice@, e@),
    ;
}

impl<'a> TryFromStringSlice<'a> for &'a str {
    open spec fn text(&self) -> Seq<char> {
        self@
    }

    fn try_from_slice(slice: &KernelStringSlice<'a>) -> (r: DeltaResult<Self>) {
        from_utf8(slice.bytes)
    }
}

impl<'a> TryFromStringSlice<'a> for String {
    open spec fn text(&self) -> Seq<char> {
        self@
    }

    fn try_from_slice(slice: &KernelStringSlice<'a>) -> (r: DeltaResult<Self>) {
        match from_utf8(slice.bytes) {
            Ok(s) => Ok(s.to_owned()),
            Err(e) => Err(e),
        }
    }
}

/// A string that the kernel owns and an engine holds.
pub struct ExclusiveRustString {
    string: String,
}

impl View for ExclusiveRustString {
    type V = Seq<char>;

    closed spec fn view(&self) -> Seq<char> {
        self.string@
    }
}

impl ExclusiveRustString {
    /// Takes the string back.
    pub fn into_inner(self) -> (string: String)
        ensures
            string@ == self@,
    {
        self.string
    }
}

/// Copies a slice into a string that the kernel owns. Returns an error where the slice is not
/// UTF-8.
pub fn allocate_kernel_string(kernel_str: KernelStringSlice<'_>) -> (r: DeltaResult<
    ExclusiveRustString,
>)
    ensures
        r is Ok <==> valid_utf8(kernel_str@),
        r matches Ok(s) ==> s@ == decode_utf8(kernel_str@),
        r matches Err(e) ==> fails_with_utf8_error(kernel_str@, e@),
{
    match String::try_from_slice(&kernel_str) {
        Ok(string) => Ok(ExclusiveRustString { string }),
        Err(e) => Err(e),
    }
}

/// The texts of strings.
pub open spec fn texts(strings: Seq<String>) -> Seq<Seq<char>> {
    strings.map_values(|s: String| s@)
}

/// Reading the slice of a string gives the string back: it is UTF-8 and decodes to the same
/// characters.
pub proof fn law_string_slice_round_trip(text: Seq<char>, slice: KernelStringSlice<'_>)
    requires
        slice@ == encode_utf8(text),
    ensures
        valid_utf8(slice@),
        decode_utf8(slice@) == text,
{
    vstd::utf8::encode_utf8_valid_utf8(text);
    vstd::utf8::encode_utf8_decode_utf8(text);
}

/// The error of bytes that are not UTF-8 is the only one that they can fail with.
pub proof fn law_utf8_error_is_determined(bytes: Seq<u8>, e1: DeltaErrorView, e2: DeltaErrorView)
    requires
        fails_with_utf8_error(bytes, e1),
        fails_with_utf8_error(bytes, e2),
    ensures
        e1 == e2,
        !valid_utf8(bytes),
{
    let v1 = e1->valid_up_to;
    let v2 = e2->valid_up_to;
    assert(bytes.take(bytes.len() as int) =~= bytes);
    assert(valid_utf8(bytes.take(v1 as int)));
    assert(valid_utf8(bytes.take(v2 as int)));
    assert(v1 == v2);
    if let (Some(n1), Some(n2)) = (e1->error_len, e2->error_len) {
        let longer = bytes.take((v1 + n1) as int);
        let other = bytes.take((v1 + n2) as int);
        assert(n1 > 1 ==> is_completable(longer));
        assert(n2 > 1 ==> is_completable(other));
    }
}

/// The error of bytes that are not UTF-8 points behind their longest part, from the start, that is
/// UTF-8, and tells input that ends too early from bytes that are in the way.
pub proof fn law_utf8_error_points_at_the_fault(bytes: Seq<u8>, error: DeltaErrorView, n: int)
    requires
        fails_with_utf8_error(bytes, error),
        0 <= n <= bytes.len(),
    ensures
        error is Utf8Error,
        error->valid_up_to < bytes.len(),
        valid_utf8(bytes.take(error->valid_up_to as int)),
        valid_utf8(bytes.take(n)) ==> n <= error->valid_up_to,
        error->error_len is None <==> exists|more: Seq<u8>| valid_utf8(#[trigger] (bytes + more)),
        error->error_len matches Some(len) ==> 1 <= len <= bytes.len() - error->valid_up_to,
{
}

/// The texts of strings are those of each string, in order.
pub proof fn law_texts_are_those_of_each_string(strings: Seq<String>, i: int)
    requires
        0 <= i < strings.len(),
    ensures
        texts(strings).len() == strings.len(),
        texts(strings)[i] == strings[i]@,
{
}

} // verus!

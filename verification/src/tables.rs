//! Paths of tables.

use vstd::prelude::*;
use vstd::string::{StrSliceExecFns, StringExecFns};
use vstd::utf8::{decode_utf8, valid_utf8};

use crate::error::{DeltaError, DeltaResult};
use crate::strings::{fails_with_utf8_error, KernelStringSlice, TryFromStringSlice};

verus! {

/// The scheme and the serialization of the URL that a text is, or `None` where it is none.
pub uninterp spec fn parsed_url(text: Seq<char>) -> Option<(Seq<char>, Seq<char>)>;

/// Parses a URL and takes its scheme and its serialization, through `url::Url::parse`.
///
/// Taken from its source: what comes out depends on the text alone.
#[verifier::external_body]
fn parse_url(text: &str) -> (r: Option<(String, String)>)
    ensures
        parsed_url(text@) == match r {
            Some((scheme, serialization)) => Some((scheme@, serialization@)),
            None => None,
        },
{
    match url::Url::parse(text) {
        Ok(url) => Some((url.scheme().to_string(), String::from(url))),
        Err(_) => None,
    }
}

/// A path with a slash at its end, added where it has none.
pub open spec fn with_trailing_slash(path: Seq<char>) -> Seq<char> {
    if path.len() > 0 && path.last() == '/' {
        path
    } else {
        path.push('/')
    }
}

/// True of the schemes of URLs that are no paths on disk. A scheme of one character is the letter
/// of a drive.
pub open spec fn is_remote_scheme(scheme: Seq<char>) -> bool {
    scheme != "file"@ && scheme.len() != 1
}

/// The URL that a table's path stands for where the path, with a slash at its end, is a URL of
/// some remote store. `None` for every other path: those are looked up on disk.
pub open spec fn remote_table_url(path: Seq<char>) -> Option<Seq<char>> {
    match parsed_url(with_trailing_slash(path)) {
        Some((scheme, serialization)) => if is_remote_scheme(scheme) {
            Some(serialization)
        } else {
            None
        },
        None => None,
    }
}

/// True of the URLs of directories on disk: the scheme is `file`, and behind the two slashes there
/// is a path that ends in a slash.
pub open spec fn is_directory_url(url: Seq<char>) -> bool {
    &&& "file://"@.is_prefix_of(url)
    &&& url.len() > "file://"@.len()
    &&& url.last() == '/'
}

/// The URL of the table at a path where the path is a URL of some remote store. `None` where the
/// path has to be looked up on disk.
pub fn remote_url(path: &str) -> (url: Option<String>)
    ensures
        match url {
            Some(url) => remote_table_url(path@) == Some(url@),
            None => remote_table_url(path@) is None,
        },
{
    let len: usize = path.unicode_len();
    let parsed = if len > 0 && path.get_char(len - 1) == '/' {
        parse_url(path)
    } else {
        proof {
            reveal_strlit("/");
            assert(path@ + "/"@ =~= path@.push('/'));
        }
        parse_url(path.to_owned().concat("/").as_str())
    };
    match parsed {
        Some((scheme, serialization)) => if scheme != "file".to_owned()
            && scheme.as_str().unicode_len() != 1 {
            Some(serialization)
        } else {
            None
        },
        None => None,
    }
}

/// Finds the URL of a table, through `delta_kernel::try_parse_uri`.
///
/// Taken from its source: a slash is added to a path that does not end in one, and where the path
/// then is a URL whose scheme is neither `file` nor one character long, that URL is returned. Any
/// other path is looked up on disk. Where a directory is found, its URL is made by
/// `url::Url::from_directory_path`, so that it has the form of one; which it is, and whether one is
/// found, rests on the disk and is not claimed.
#[verifier::external_body]
fn try_parse_uri(path: &str) -> (r: Result<String, delta_kernel::Error>)
    ensures
        remote_table_url(path@) is Some ==> r is Ok && r->Ok_0@ == remote_table_url(path@)->0,
        remote_table_url(path@) is None && r is Ok ==> is_directory_url(r->Ok_0@),
{
    match delta_kernel::try_parse_uri(path) {
        Ok(url) => Ok(String::from(url)),
        Err(e) => Err(e),
    }
}

/// True where `url` can come of reading `path` as the path of a table: an error of its own where
/// the path is not UTF-8, the URL where the path is one of a remote store, and otherwise the URL of
/// a directory that the kernel finds on disk, or the kernel's error where it finds none.
pub open spec fn is_table_url(path: Seq<u8>, url: DeltaResult<String>) -> bool {
    if !valid_utf8(path) {
        url matches Err(e) && fails_with_utf8_error(path, e@)
    } else {
        match remote_table_url(decode_utf8(path)) {
            Some(remote) => url matches Ok(u) && u@ == remote,
            None => match url {
                Ok(u) => is_directory_url(u@),
                Err(e) => e is Kernel,
            },
        }
    }
}

/// What the kernel's search for a table's URL comes to: the URL, or the kernel's error.
pub fn table_url(found: Result<String, delta_kernel::Error>) -> (url: DeltaResult<String>)
    ensures
        match found {
            Ok(found) => url == Ok::<String, DeltaError>(found),
            Err(e) => url == Err::<String, DeltaError>(DeltaError::Kernel(e)),
        },
{
    match found {
        Ok(found) => Ok(found),
        Err(e) => Err(DeltaError::Kernel(e)),
    }
}

/// Reads a path and finds the URL of the table that it stands for.
pub fn unwrap_and_parse_path_as_url(path: KernelStringSlice<'_>) -> (url: DeltaResult<String>)
    ensures
        is_table_url(path@, url),
{
    let path: &str = match TryFromStringSlice::try_from_slice(&path) {
        Ok(path) => path,
        Err(e) => return Err(e),
    };
    table_url(try_parse_uri(path))
}

/// What reading a path as the path of a table comes to. A path that is not UTF-8 is refused for
/// that. A path that is a URL of a scheme other than `file` and longer than one letter is that URL,
/// and is never refused. Any other path gives the URL of a directory, or an error of the kernel.
pub proof fn law_paths_and_urls(path: Seq<u8>, url: DeltaResult<String>)
    requires
        is_table_url(path, url),
    ensures
        !valid_utf8(path) ==> url is Err && url->Err_0 is Utf8Error,
        valid_utf8(path) && url is Err ==> url->Err_0 is Kernel,
        valid_utf8(path) ==> {
            let text = decode_utf8(path);
            let slashed = if text.len() > 0 && text[text.len() - 1] == '/' {
                text
            } else {
                text + seq!['/']
            };
            match parsed_url(slashed) {
                Some((scheme, serialization)) if scheme != "file"@ && scheme.len() != 1 => url is Ok
                    && url->Ok_0@ == serialization,
                _ => url is Ok ==> {
                    &&& url->Ok_0@.len() > 7
                    &&& url->Ok_0@.take(7) == "file://"@
                    &&& url->Ok_0@[url->Ok_0@.len() - 1] == '/'
                },
            }
        },
{
    let text = decode_utf8(path);
    assert(text.push('/') =~= text + seq!['/']);
    reveal_strlit("file://");
    if url is Ok && is_directory_url(url->Ok_0@) {
        assert(url->Ok_0@.take(7) =~= "file://"@);
    }
}

/// A slash at the end of a path makes no difference to a table of a remote store.
pub proof fn law_trailing_slash_makes_no_difference(path: Seq<char>)
    requires
        path.len() > 0,
        path.last() != '/',
    ensures
        remote_table_url(path) == remote_table_url(path.push('/')),
{
}

} // verus!

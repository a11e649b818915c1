use vstd::prelude::*;

use crate::naming::{entry_name, is_entry_name};
use crate::text::{push_char, same_text};

verus! {

/// Index of the last `.` in `s`, or -1 when there is none.
pub open spec fn last_dot(s: Seq<char>) -> int
    decreases s.len(),
{
    if s.len() == 0 {
        -1
    } else if s.last() == '.' {
        s.len() - 1
    } else {
        last_dot(s.drop_last())
    }
}

/// The extension of a file name: what follows its last `.`, unless there is
/// no `.` or the only one opens the name.
pub open spec fn extension_of(s: Seq<char>) -> Option<Seq<char>> {
    if last_dot(s) > 0 {
        Some(s.subrange(last_dot(s) + 1, s.len() as int))
    } else {
        None
    }
}

/// The media type a file is played with, from its extension.
pub open spec fn media_type(name: Seq<char>) -> Seq<char> {
    match extension_of(name) {
        Some(e) => if e == "mp3"@ {
            "audio/mpeg"@
        } else if e == "wav"@ {
            "audio/wav"@
        } else if e == "ogg"@ {
            "audio/ogg"@
        } else {
            "application/octet-stream"@
        },
        None => "application/octet-stream"@,
    }
}

/// The extension of `name`, if it has one.
pub fn extension(name: &str) -> (r: Option<&str>)
    ensures
        match r {
            Some(e) => extension_of(name@) == Some(e@),
            None => extension_of(name@) is None,
        },
{
    let n = name.unicode_len();
    let mut i: usize = n;
    assert(name@.take(n as int) =~= name@);
    while i > 0
        invariant
            n == name@.len(),
            i <= n,
            last_dot(name@) == last_dot(name@.take(i as int)),
        decreases i,
    {
        assert(name@.take(i as int).drop_last() =~= name@.take(i - 1));
        if name.get_char(i - 1) == '.' {
            if i - 1 == 0 {
                return None;
            }
            return Some(name.substring_char(i, n));
        }
        i -= 1;
    }
    None
}

/// The media type that `name` is played with.
pub fn content_type(name: &str) -> (r: String)
    ensures
        r@ == media_type(name@),
{
    match extension(name) {
        Some(e) => if same_text(e, "mp3") {
            String::from_str("audio/mpeg")
        } else if same_text(e, "wav") {
            String::from_str("audio/wav")
        } else if same_text(e, "ogg") {
            String::from_str("audio/ogg")
        } else {
            String::from_str("application/octet-stream")
        },
        None => String::from_str("application/octet-stream"),
    }
}

/// The `Content-Disposition` value that offers `name` as a download.
pub open spec fn attachment_of(name: Seq<char>) -> Seq<char> {
    "attachment; filename="@ + seq!['"'] + name + seq!['"']
}

/// Builds the `Content-Disposition` value for a download of `name`.
pub fn attachment_header(name: &str) -> (r: String)
    ensures
        r@ == attachment_of(name@),
{
    let mut out = String::from_str("attachment; filename=");
    push_char(&mut out, '"');
    out.append(name);
    push_char(&mut out, '"');
    out
}

/// What looking up an entry of the storage directory found.
#[derive(Clone, Copy, Debug, PartialEq, Eq, Structural)]
pub enum Lookup {
    /// No entry of that name.
    Missing,
    /// The entry exists but could not be opened.
    Unopenable,
    /// The entry was opened; it holds `size` bytes.
    Opened { size: u64 },
}

/// Why a download or a playback fails.
#[derive(Clone, Copy, Debug, PartialEq, Eq, Structural)]
pub enum FetchError {
    /// No entry answers to the name.
    NotFound,
    /// The entry exists but could not be read.
    Io,
}

impl FetchError {
    /// The HTTP status that reports this error.
    pub fn status_code(&self) -> (r: u16)
        ensures
            r == (match self {
                FetchError::NotFound => 404u16,
                FetchError::Io => 500u16,
            }),
    {
        match self {
            FetchError::NotFound => 404,
            FetchError::Io => 500,
        }
    }
}

/// The error, if any, of fetching `name` given what its lookup found. A name
/// that is not a single directory entry is never looked up and is not found.
pub open spec fn fetch_error(name: Seq<char>, found: Lookup) -> Option<FetchError> {
    if !entry_name(name) {
        Some(FetchError::NotFound)
    } else {
        match found {
            Lookup::Missing => Some(FetchError::NotFound),
            Lookup::Unopenable => Some(FetchError::Io),
            Lookup::Opened { .. } => None,
        }
    }
}

/// The headers of a download response.
pub struct DownloadHead {
    pub content_type: String,
    pub content_disposition: String,
}

/// The headers of a playback response.
pub struct PlayHead {
    pub content_type: String,
    pub content_length: u64,
}

/// The error that fetching `name` ends in, if any.
fn fetch_failure(name: &str, found: Lookup) -> (r: Option<FetchError>)
    ensures
        r == fetch_error(name@, found),
{
    if !is_entry_name(name) {
        return Some(FetchError::NotFound);
    }
    match found {
        Lookup::Missing => Some(FetchError::NotFound),
        Lookup::Unopenable => Some(FetchError::Io),
        Lookup::Opened { .. } => None,
    }
}

/// The response to a download of `name`: the entry's bytes as an attachment,
/// or the error that the lookup calls for.
pub fn download_response(name: &str, found: Lookup) -> (r: Result<DownloadHead, FetchError>)
    ensures
        match r {
            Ok(h) => {
                &&& fetch_error(name@, found) is None
                &&& h.content_type@ == "application/octet-stream"@
                &&& h.content_disposition@ == attachment_of(name@)
            },
            Err(e) => fetch_error(name@, found) == Some(e),
        },
{
    match fetch_failure(name, found) {
        Some(e) => Err(e),
        None => Ok(
            DownloadHead {
                content_type: String::from_str("application/octet-stream"),
                content_disposition: attachment_header(name),
            },
        ),
    }
}

/// The response to a playback of `name`: the entry's bytes with the media
/// type of its extension and its size, or the error that the lookup calls for.
pub fn play_response(name: &str, found: Lookup) -> (r: Result<PlayHead, FetchError>)
    ensures
        match r {
            Ok(h) => {
                &&& fetch_error(name@, found) is None
                &&& h.content_type@ == media_type(name@)
                &&& found matches Lookup::Opened { size } && h.content_length == size
            },
            Err(e) => fetch_error(name@, found) == Some(e),
        },
{
    match fetch_failure(name, found) {
        Some(e) => Err(e),
        None => match found {
            Lookup::Opened { size } => Ok(
                PlayHead { content_type: content_type(name), content_length: size },
            ),
            _ => Err(FetchError::NotFound),
        },
    }
}

} // verus!

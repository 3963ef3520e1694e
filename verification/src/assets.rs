//! Answering a request for a static file: what goes back for a path, given
//! what the asset store holds under it.

use vstd::prelude::*;
use vstd::string::StrSliceExecFns;

verus! {

/// The media type that `mime_guess` gives for a path, or
/// `application/octet-stream` where it has none. It goes by the path's
/// extension alone, through a table that is fixed when the crate is built.
pub uninterp spec fn guessed_media_type(path: Seq<char>) -> Seq<char>;

/// `mime_guess::from_path` followed by `MimeGuess::first_or_octet_stream`:
/// the first media type that the table of `mime_guess` holds for the
/// extension of `path`, or `application/octet-stream`. No file is opened.
/// The contract only gives the result its name.
#[verifier::external_body]
fn guess_media_type(path: &str) -> (media_type: String)
    ensures
        media_type@ == guessed_media_type(path@),
{
    mime_guess::from_path(path).first_or_octet_stream().as_ref().to_string()
}

/// The path of a static file that was asked for.
#[derive(Debug, PartialEq, Eq)]
pub struct StaticFile<T>(pub T);

/// The answer to a request for a static file.
#[derive(Debug, PartialEq, Eq)]
pub struct StaticResponse {
    /// The HTTP status code.
    pub status: u16,
    /// The value of the `Content-Type` header, if the answer has one.
    pub content_type: Option<String>,
    /// The body.
    pub body: Vec<u8>,
}

/// A [`StaticResponse`] as plain mathematics.
pub struct StaticResponseView {
    pub status: int,
    pub content_type: Option<Seq<char>>,
    pub body: Seq<u8>,
}

impl View for StaticResponse {
    type V = StaticResponseView;

    open spec fn view(&self) -> StaticResponseView {
        StaticResponseView {
            status: self.status as int,
            content_type: match self.content_type {
                Some(media_type) => Some(media_type@),
                None => None,
            },
            body: self.body@,
        }
    }
}

/// `path` without the slashes that it begins with.
pub open spec fn without_leading_slashes(path: Seq<char>) -> Seq<char>
    decreases path.len(),
{
    if path.len() > 0 && path[0] == '/' {
        without_leading_slashes(path.drop_first())
    } else {
        path
    }
}

/// The answer for a file that the asset store holds: status 200, the file's
/// bytes, and its media type.
pub open spec fn found(media_type: Seq<char>, content: Seq<u8>) -> StaticResponseView {
    StaticResponseView { status: 200, content_type: Some(media_type), body: content }
}

/// The answer for a file that the asset store does not hold: status 404 and
/// the three characters `404`, without a media type.
pub open spec fn not_found() -> StaticResponseView {
    StaticResponseView { status: 404, content_type: None, body: seq![0x34u8, 0x30u8, 0x34u8] }
}

/// The answer for `path`, `content` being what the asset store holds under
/// it.
pub open spec fn response_for(path: Seq<char>, content: Option<Seq<u8>>) -> StaticResponseView {
    match content {
        Some(bytes) => found(guessed_media_type(path), bytes),
        None => not_found(),
    }
}

impl StaticResponse {
    /// The answer for a file that the asset store holds.
    pub fn found(media_type: String, content: Vec<u8>) -> (response: StaticResponse)
        ensures
            response@ == found(media_type@, content@),
    {
        StaticResponse { status: 200, content_type: Some(media_type), body: content }
    }

    /// The answer for a file that the asset store does not hold.
    pub fn not_found() -> (response: StaticResponse)
        ensures
            response@ == not_found(),
    {
        let mut body: Vec<u8> = Vec::new();
        body.push(0x34u8);
        body.push(0x30u8);
        body.push(0x34u8);
        let response = StaticResponse { status: 404, content_type: None, body };
        assert(response@.body =~= not_found().body);
        response
    }
}

impl StaticFile<String> {
    /// The file that the path of a request stands for: the path without the
    /// slashes that it begins with.
    pub fn for_uri_path(path: &str) -> (file: StaticFile<String>)
        ensures
            file.0@ == without_leading_slashes(path@),
    {
        let len: usize = path.unicode_len();
        let mut start: usize = 0;
        assert(path@.subrange(0, len as int) =~= path@);
        loop
            invariant
                start <= len == path@.len(),
                without_leading_slashes(path@) == without_leading_slashes(
                    path@.subrange(start as int, len as int),
                ),
            ensures
                without_leading_slashes(path@) == path@.subrange(start as int, len as int),
            decreases len - start,
        {
            if start == len {
                break;
            }
            if path.get_char(start) != '/' {
                break;
            }
            assert(path@.subrange(start as int, len as int).drop_first() =~= path@.subrange(
                start + 1,
                len as int,
            ));
            start += 1;
        }
        StaticFile(path.substring_char(start, len).to_owned())
    }

    /// The answer to a request for this file, `content` being what the asset
    /// store holds under its path.
    pub fn respond(&self, content: Option<Vec<u8>>) -> (response: StaticResponse)
        ensures
            response@ == response_for(
                self.0@,
                match content {
                    Some(bytes) => Some(bytes@),
                    None => None,
                },
            ),
    {
        match content {
            Some(bytes) => StaticResponse::found(guess_media_type(self.0.as_str()), bytes),
            None => StaticResponse::not_found(),
        }
    }
}

} // verus!

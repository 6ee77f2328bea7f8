//! Judging a fetched picture, and deciding whether it has to be uploaded.
use vstd::prelude::*;
use vstd::string::*;

verus! {

/// The `Content-Type` header of a response.
#[derive(Debug, Clone, PartialEq, Eq)]
pub enum ContentType {
    /// The response has no such header.
    Missing,
    /// The header's value is not text.
    NotText,
    /// The header's value.
    Text(String),
}

/// What came back from the picture's address.
#[derive(Debug, Clone, PartialEq, Eq)]
pub struct AvatarResponse {
    pub status: u16,
    pub content_type: ContentType,
    pub body: Vec<u8>,
}

/// A picture that can be set on a profile.
#[derive(Debug, Clone, PartialEq, Eq)]
pub struct Avatar {
    /// Its media type, as the server named it.
    pub mime: String,
    pub bytes: Vec<u8>,
}

/// Why a response gives no picture.
#[derive(Debug, Clone, Copy, PartialEq, Eq, Structural)]
pub enum AvatarFetchError {
    /// The status is not in 200..=299.
    Status,
    /// No `Content-Type` header.
    MissingContentType,
    /// The header is not text.
    ContentTypeNotText,
    /// The header names no media type.
    ContentTypeNotMime,
    /// The body is empty.
    EmptyBody,
}

/// Whether `text` parses as a media type.
pub uninterp spec fn is_mime(text: Seq<char>) -> bool;

/// What is wrong with a response, if anything: the first of status, header
/// and body that fails. `mime_ok` says whether the header's text, where it has
/// one, names a media type.
pub open spec fn defect(response: AvatarResponse, mime_ok: bool) -> Option<AvatarFetchError> {
    if !(200 <= response.status <= 299) {
        Some(AvatarFetchError::Status)
    } else if response.content_type is Missing {
        Some(AvatarFetchError::MissingContentType)
    } else if response.content_type is NotText {
        Some(AvatarFetchError::ContentTypeNotText)
    } else if !mime_ok {
        Some(AvatarFetchError::ContentTypeNotMime)
    } else if response.body@.len() == 0 {
        Some(AvatarFetchError::EmptyBody)
    } else {
        None
    }
}

/// Whether the header's text names a media type; `false` where it has no text.
pub open spec fn header_is_mime(content_type: ContentType) -> bool {
    match content_type {
        ContentType::Text(text) => is_mime(text@),
        _ => false,
    }
}

/// Parsing of `mime::Mime` from text. Trusted: the answer is whether the
/// parser accepts `text`, which depends on `text` alone.
#[verifier::external_body]
fn mime_parses(text: &str) -> (ok: bool)
    ensures
        ok == is_mime(text@),
{
    text.parse::<mime::Mime>().is_ok()
}

/// Judges a response once it is known whether its header names a media type.
/// The picture is the body under the header's media type; a response with a
/// defect gives the first defect.
pub fn judge_avatar(response: AvatarResponse, mime_ok: bool) -> (verdict: Result<
    Avatar,
    AvatarFetchError,
>)
    ensures
        match verdict {
            Ok(avatar) => defect(response, mime_ok) is None && response.content_type is Text
                && avatar.mime == response.content_type->Text_0 && avatar.bytes == response.body,
            Err(e) => defect(response, mime_ok) == Some(e),
        },
{
    if response.status < 200 || response.status > 299 {
        return Err(AvatarFetchError::Status);
    }
    match response.content_type {
        ContentType::Missing => Err(AvatarFetchError::MissingContentType),
        ContentType::NotText => Err(AvatarFetchError::ContentTypeNotText),
        ContentType::Text(mime) => {
            if !mime_ok {
                Err(AvatarFetchError::ContentTypeNotMime)
            } else if response.body.len() == 0 {
                Err(AvatarFetchError::EmptyBody)
            } else {
                Ok(Avatar { mime, bytes: response.body })
            }
        },
    }
}

/// Judges a response: a picture where the status is a success, the header
/// names a media type and the body is not empty; else the first defect.
pub fn check_avatar(response: AvatarResponse) -> (verdict: Result<Avatar, AvatarFetchError>)
    ensures
        match verdict {
            Ok(avatar) => defect(response, header_is_mime(response.content_type)) is None
                && response.content_type is Text && avatar.mime == response.content_type->Text_0
                && avatar.bytes == response.body,
            Err(e) => defect(response, header_is_mime(response.content_type)) == Some(e),
        },
{
    let mime_ok = match &response.content_type {
        ContentType::Text(text) => mime_parses(text.as_str()),
        _ => false,
    };
    judge_avatar(response, mime_ok)
}

/// Whether two byte strings are the same.
pub fn same_bytes(a: &Vec<u8>, b: &Vec<u8>) -> (same: bool)
    ensures
        same == (a@ == b@),
{
    if a.len() != b.len() {
        return false;
    }
    let mut i: usize = 0;
    while i < a.len()
        invariant
            i <= a.len(),
            a.len() == b.len(),
            forall|k: int| 0 <= k < i ==> a@[k] == b@[k],
        decreases a.len() - i,
    {
        if a[i] != b[i] {
            return false;
        }
        i += 1;
    }
    assert(a@ =~= b@);
    true
}

/// Whether a fetched picture has to be uploaded: not where the identity's
/// current picture is known and holds the same bytes.
pub fn needs_upload(current: &Option<Vec<u8>>, fetched: &Vec<u8>) -> (upload: bool)
    ensures
        upload == !(current is Some && current.unwrap()@ == fetched@),
{
    match current {
        Some(bytes) => !same_bytes(bytes, fetched),
        None => true,
    }
}

} // verus!

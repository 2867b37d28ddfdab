use vstd::prelude::*;
use vstd::string::*;
use vstd::utf8::*;

use crate::text::{text_from_bytes, utf8_lossy};

verus! {

/// A 2xx status: the request succeeded.
pub open spec fn spec_is_success(status: u16) -> bool {
    200 <= status < 300
}

/// A 4xx or 5xx status: the client or the server reported an error.
pub open spec fn spec_is_error(status: u16) -> bool {
    400 <= status < 600
}

/// Whether an HTTP status reports success (200 to 299).
pub fn status_is_success(status: u16) -> (b: bool)
    ensures
        b == spec_is_success(status),
{
    200 <= status && status < 300
}

/// Whether an HTTP status reports an error of the client or of the server
/// (400 to 599), the statuses that a response is turned into an error for.
pub fn status_is_error(status: u16) -> (b: bool)
    ensures
        b == spec_is_error(status),
{
    400 <= status && status < 600
}

/// The body of an answer, read either as text (decoded by the HTTP client
/// after the charset the answer declares) or as raw bytes.
pub enum ResponseBody {
    Text(String),
    Bytes(Vec<u8>),
}

/// The text of a body: as read, or the bytes decoded as UTF-8 with each
/// ill-formed sequence replaced.
pub open spec fn body_text(body: ResponseBody) -> Seq<char> {
    match body {
        ResponseBody::Text(t) => t@,
        ResponseBody::Bytes(b) => utf8_lossy(b@),
    }
}

/// The bytes of a body: as read, or the text encoded in UTF-8.
pub open spec fn body_bytes(body: ResponseBody) -> Seq<u8> {
    match body {
        ResponseBody::Text(t) => encode_utf8(t@),
        ResponseBody::Bytes(b) => b@,
    }
}

impl ResponseBody {
    /// The body as text.
    pub fn into_text(self) -> (t: String)
        ensures
            t@ == body_text(self),
    {
        match self {
            ResponseBody::Text(t) => t,
            ResponseBody::Bytes(b) => text_from_bytes(b.as_slice()),
        }
    }

    /// The body as bytes.
    pub fn into_bytes(self) -> (b: Vec<u8>)
        ensures
            b@ == body_bytes(self),
    {
        match self {
            ResponseBody::Text(t) => t.as_str().as_bytes_vec(),
            ResponseBody::Bytes(b) => b,
        }
    }
}

/// A request to be sent with a JSON body.
pub struct JsonPost {
    pub url: String,
    pub body: String,
}

} // verus!

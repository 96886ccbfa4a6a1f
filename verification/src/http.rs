//! The request as the handler reads it and the response as it hands it back.

use vstd::prelude::*;
use vstd::string::{StrSliceExecFns, StringSliceAdditionalSpecFns};

verus! {

/// What the handler reads of an inbound request.
pub struct Request {
    /// The method, as it stands on the request line (`GET`, `POST`, ...).
    pub method: String,
    /// The path of the request target, without the query.
    pub path: String,
    /// The query of the request target, still percent-encoded, without the
    /// leading `?`; empty where the target has none.
    pub query: String,
}

/// The mathematical value of a [`Request`].
pub ghost struct RequestView {
    pub method: Seq<char>,
    pub path: Seq<char>,
    pub query: Seq<char>,
}

impl View for Request {
    type V = RequestView;

    open spec fn view(&self) -> RequestView {
        RequestView { method: self.method@, path: self.path@, query: self.query@ }
    }
}

/// The status codes that the handler answers with.
#[derive(Clone, Copy, Debug, PartialEq, Eq, Structural)]
pub enum StatusCode {
    Success,
    BadRequest,
    NotFound,
    InternalServerError,
}

impl StatusCode {
    /// The number that goes on the status line.
    pub open spec fn spec_code(self) -> u16 {
        match self {
            StatusCode::Success => 200,
            StatusCode::BadRequest => 400,
            StatusCode::NotFound => 404,
            StatusCode::InternalServerError => 500,
        }
    }

    /// The number that goes on the status line.
    #[verifier::when_used_as_spec(spec_code)]
    pub fn code(self) -> (n: u16)
        ensures
            n == self.spec_code(),
    {
        match self {
            StatusCode::Success => 200,
            StatusCode::BadRequest => 400,
            StatusCode::NotFound => 404,
            StatusCode::InternalServerError => 500,
        }
    }
}

/// The media types of the bodies that the handler sends.
#[derive(Clone, Copy, Debug, PartialEq, Eq, Structural)]
pub enum ContentType {
    TextPlain,
    ImagePng,
}

impl ContentType {
    /// The value of the `Content-Type` header.
    pub open spec fn spec_header_value(self) -> Seq<char> {
        match self {
            ContentType::TextPlain => "text/plain; charset=utf-8"@,
            ContentType::ImagePng => "image/png"@,
        }
    }

    /// The value of the `Content-Type` header.
    pub fn header_value(self) -> (value: &'static str)
        ensures
            value@ == self.spec_header_value(),
    {
        match self {
            ContentType::TextPlain => "text/plain; charset=utf-8",
            ContentType::ImagePng => "image/png",
        }
    }
}

/// A complete response: the caller may send it in one piece or write the
/// body out in parts once the head is on its way.
#[derive(Debug)]
pub struct Response {
    pub status: StatusCode,
    /// `None` where the response has no body to describe.
    pub content_type: Option<ContentType>,
    pub body: Vec<u8>,
}

/// The mathematical value of a [`Response`].
pub ghost struct ResponseView {
    pub status: StatusCode,
    pub content_type: Option<ContentType>,
    pub body: Seq<u8>,
}

impl View for Response {
    type V = ResponseView;

    open spec fn view(&self) -> ResponseView {
        ResponseView { status: self.status, content_type: self.content_type, body: self.body@ }
    }
}

/// A response with a status and nothing else.
pub open spec fn bare(status: StatusCode) -> ResponseView {
    ResponseView { status, content_type: None, body: Seq::empty() }
}

/// A response whose body is `text` as plain text.
pub open spec fn plain_text(status: StatusCode, text: Seq<char>) -> ResponseView {
    ResponseView {
        status,
        content_type: Some(ContentType::TextPlain),
        body: vstd::utf8::encode_utf8(text),
    }
}

/// The response that carries a finished PNG image.
pub open spec fn png_image(bytes: Seq<u8>) -> ResponseView {
    ResponseView { status: StatusCode::Success, content_type: Some(ContentType::ImagePng), body: bytes }
}

impl Response {
    /// A response with a status and nothing else.
    pub fn from_status(status: StatusCode) -> (r: Response)
        ensures
            r@ == bare(status),
    {
        Response { status, content_type: None, body: Vec::new() }
    }

    /// A response whose body is `text` as plain text.
    pub fn with_text(status: StatusCode, text: &str) -> (r: Response)
        ensures
            r@ == plain_text(status, text@),
    {
        Response {
            status,
            content_type: Some(ContentType::TextPlain),
            body: text.as_bytes_vec(),
        }
    }

    /// The response that carries a finished PNG image.
    pub fn with_png(bytes: Vec<u8>) -> (r: Response)
        ensures
            r@ == png_image(bytes@),
    {
        Response { status: StatusCode::Success, content_type: Some(ContentType::ImagePng), body: bytes }
    }
}

} // verus!

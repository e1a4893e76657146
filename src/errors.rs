//! The proxy's errors and their S3 error responses.
use crate::protocol::{headers_view, ResponseBody, S3Response};
use crate::s3::{element, push_element, xml_declaration};
use crate::text::{lemma_escaped_has_no_brackets, lemma_plain_text_escapes_to_itself, xml_escaped};
use vstd::prelude::*;

verus! {

/// A failed storage operation.
#[derive(Debug, Clone)]
pub enum StorageError {
    /// No object at `path`; `message` is the store's own account of it.
    NotFound { path: String, message: String },
    /// Any other failure: throttling, network, permission.
    Other { message: String },
}

/// Everything that can go wrong while serving a request.
#[derive(Debug, Clone)]
pub enum S3ProxyError {
    /// Storage backend operation failed.
    Storage(StorageError),
    /// Configuration error.
    Config(String),
    /// Invalid request.
    InvalidRequest(String),
    /// Object not found.
    NotFound { path: String },
    /// Internal server error.
    Internal(String),
    /// HTTP error.
    Http(String),
    /// I/O error.
    Io(String),
    /// Serialization error.
    Serialization(String),
    /// XML serialization error.
    Xml(String),
}

/// The store's own account of a storage failure.
pub open spec fn storage_error_text(e: StorageError) -> Seq<char> {
    match e {
        StorageError::NotFound { message, .. } => message@,
        StorageError::Other { message } => message@,
    }
}

/// How an error describes itself.
pub open spec fn error_text(e: S3ProxyError) -> Seq<char> {
    match e {
        S3ProxyError::Storage(s) => "Storage error: "@ + storage_error_text(s),
        S3ProxyError::Config(m) => "Configuration error: "@ + m@,
        S3ProxyError::InvalidRequest(m) => "Invalid request: "@ + m@,
        S3ProxyError::NotFound { path } => "Object not found: "@ + path@,
        S3ProxyError::Internal(m) => "Internal error: "@ + m@,
        S3ProxyError::Http(m) => "HTTP error: "@ + m@,
        S3ProxyError::Io(m) => "IO error: "@ + m@,
        S3ProxyError::Serialization(m) => "Serialization error: "@ + m@,
        S3ProxyError::Xml(m) => "XML error: "@ + m@,
    }
}

/// Whether the error means that the object is absent.
pub open spec fn is_missing_object(e: S3ProxyError) -> bool {
    e is NotFound || (e is Storage && e->Storage_0 is NotFound)
}

/// The HTTP status of an error's response.
pub open spec fn error_status(e: S3ProxyError) -> u16 {
    if is_missing_object(e) {
        404
    } else if e is InvalidRequest {
        400
    } else {
        500
    }
}

/// The S3 error code of an error's response.
pub open spec fn error_code(e: S3ProxyError) -> Seq<char> {
    if is_missing_object(e) {
        "NoSuchKey"@
    } else if e is InvalidRequest {
        "InvalidRequest"@
    } else {
        "InternalError"@
    }
}

/// The message of an error's response.
pub open spec fn error_message(e: S3ProxyError) -> Seq<char> {
    match e {
        S3ProxyError::NotFound { path } => "The specified key does not exist: "@ + path@,
        S3ProxyError::InvalidRequest(m) => m@,
        S3ProxyError::Storage(StorageError::NotFound { .. }) => "The specified key does not exist"@,
        S3ProxyError::Storage(StorageError::Other { message }) => "Storage operation failed: "@
            + message@,
        _ => error_text(e),
    }
}

/// The S3 error envelope: code, message, and an empty resource and request id.
pub open spec fn error_envelope(code: Seq<char>, message: Seq<char>) -> Seq<char> {
    xml_declaration() + "\n<Error>\n    "@ + element("Code"@, code) + "\n    "@ + element(
        "Message"@,
        message,
    ) + "\n    <Resource></Resource>\n    <RequestId></RequestId>\n</Error>"@
}

/// `r` is the S3 error response for `e`: its status, an XML content type,
/// and the envelope with its code and message.
pub open spec fn is_error_response(r: S3Response, e: S3ProxyError) -> bool {
    &&& r.status == error_status(e)
    &&& headers_view(r.headers@) == seq![("content-type"@, "application/xml"@)]
    &&& r.body is Xml
    &&& r.body->Xml_0@ == error_envelope(error_code(e), error_message(e))
}

fn prefixed(head: &str, tail: &str) -> (r: String)
    ensures
        r@ == head@ + tail@,
{
    let mut s = String::from_str(head);
    s.append(tail);
    s
}

fn storage_message(e: &StorageError) -> (r: &String)
    ensures
        r@ == storage_error_text(*e),
{
    match e {
        StorageError::NotFound { message, .. } => message,
        StorageError::Other { message } => message,
    }
}

impl S3ProxyError {
    /// How the error describes itself.
    pub fn message(&self) -> (r: String)
        ensures
            r@ == error_text(*self),
    {
        match self {
            S3ProxyError::Storage(s) => prefixed("Storage error: ", storage_message(s).as_str()),
            S3ProxyError::Config(m) => prefixed("Configuration error: ", m.as_str()),
            S3ProxyError::InvalidRequest(m) => prefixed("Invalid request: ", m.as_str()),
            S3ProxyError::NotFound { path } => prefixed("Object not found: ", path.as_str()),
            S3ProxyError::Internal(m) => prefixed("Internal error: ", m.as_str()),
            S3ProxyError::Http(m) => prefixed("HTTP error: ", m.as_str()),
            S3ProxyError::Io(m) => prefixed("IO error: ", m.as_str()),
            S3ProxyError::Serialization(m) => prefixed("Serialization error: ", m.as_str()),
            S3ProxyError::Xml(m) => prefixed("XML error: ", m.as_str()),
        }
    }

    /// The S3 error response: 404 `NoSuchKey` for an absent object, 400
    /// `InvalidRequest` for a bad request, 500 `InternalError` otherwise.
    pub fn into_response(self) -> (r: S3Response)
        ensures
            is_error_response(r, self),
    {
        let (status, code, message): (u16, &str, String) = match &self {
            S3ProxyError::NotFound { path } => (
                404,
                "NoSuchKey",
                prefixed("The specified key does not exist: ", path.as_str()),
            ),
            S3ProxyError::InvalidRequest(m) => (400, "InvalidRequest", m.clone()),
            S3ProxyError::Storage(StorageError::NotFound { .. }) => (
                404,
                "NoSuchKey",
                String::from_str("The specified key does not exist"),
            ),
            S3ProxyError::Storage(StorageError::Other { message }) => (
                500,
                "InternalError",
                prefixed("Storage operation failed: ", message.as_str()),
            ),
            _ => (500, "InternalError", self.message()),
        };
        let body = error_envelope_text(code, message.as_str());
        let mut headers: Vec<(String, String)> = Vec::new();
        headers.push((String::from_str("content-type"), String::from_str("application/xml")));
        assert(headers_view(headers@) =~= seq![("content-type"@, "application/xml"@)]);
        S3Response { status, headers, body: ResponseBody::Xml(body) }
    }
}

/// Writes the S3 error envelope for `code` and `message`.
pub fn error_envelope_text(code: &str, message: &str) -> (r: String)
    ensures
        r@ == error_envelope(code@, message@),
{
    let mut out = String::from_str("<?xml version=\"1.0\" encoding=\"UTF-8\"?>");
    out.append("\n<Error>\n    ");
    push_element(&mut out, "Code", code);
    out.append("\n    ");
    push_element(&mut out, "Message", message);
    out.append("\n    <Resource></Resource>\n    <RequestId></RequestId>\n</Error>");
    assert(out@ =~= error_envelope(code@, message@));
    out
}

/// A request for an absent object is answered with 404 and the code
/// `NoSuchKey`; the error document holds a `Code` element whose text is
/// `NoSuchKey` and a `Message` element whose text is non-empty and, once
/// escaped, holds no markup bracket, so the document reads back as exactly
/// that code and message.
pub proof fn lemma_missing_object_response(e: S3ProxyError)
    requires
        is_missing_object(e),
    ensures
        error_status(e) == 404,
        error_code(e) == "NoSuchKey"@,
        error_message(e).len() > 0,
        error_envelope(error_code(e), error_message(e)) == xml_declaration()
            + "\n<Error>\n    <Code>NoSuchKey</Code>\n    <Message>"@ + xml_escaped(
            error_message(e),
        ) + "</Message>\n    <Resource></Resource>\n    <RequestId></RequestId>\n</Error>"@,
        !xml_escaped(error_message(e)).contains('<'),
        !xml_escaped(error_message(e)).contains('>'),
{
    reveal_strlit("NoSuchKey");
    reveal_strlit("The specified key does not exist: ");
    reveal_strlit("The specified key does not exist");
    reveal_strlit("\n<Error>\n    ");
    reveal_strlit("\n<Error>\n    <Code>NoSuchKey</Code>\n    <Message>");
    reveal_strlit("\n    ");
    reveal_strlit("<");
    reveal_strlit(">");
    reveal_strlit("</");
    reveal_strlit("Code");
    reveal_strlit("Message");
    reveal_strlit("\n    <Resource></Resource>\n    <RequestId></RequestId>\n</Error>");
    reveal_strlit("</Message>\n    <Resource></Resource>\n    <RequestId></RequestId>\n</Error>");
    lemma_plain_text_escapes_to_itself("NoSuchKey"@);
    lemma_escaped_has_no_brackets(error_message(e));
    let m = error_message(e);
    assert(error_envelope(error_code(e), m) =~= xml_declaration()
        + "\n<Error>\n    <Code>NoSuchKey</Code>\n    <Message>"@ + xml_escaped(m)
        + "</Message>\n    <Resource></Resource>\n    <RequestId></RequestId>\n</Error>"@);
}

} // verus!

//! How a handler's error becomes a response.

use crate::message::{Response, ResponseView};
use crate::status::StatusCode;
use vstd::prelude::*;
use vstd::string::StrSliceExecFns;

verus! {

/// The response that reports an error: the given status, no headers, and the
/// UTF-8 bytes of the error's text as the body.
pub open spec fn error_page(status: StatusCode, text: Seq<char>) -> ResponseView {
    ResponseView { status, headers: Seq::empty(), body: vstd::utf8::encode_utf8(text) }
}

/// Why an error could not be turned into a response.
#[derive(Clone, Debug, PartialEq, Eq)]
pub struct RenderError {
    pub reason: String,
}

/// Builds the response that reports an error with `status` and `text`.
pub fn render(status: StatusCode, text: &str) -> (page: Response)
    ensures
        page@ == error_page(status, text@),
{
    let page = Response { status, headers: Vec::new(), body: text.as_bytes_vec() };
    assert(page@.headers =~= Seq::empty());
    page
}

/// An error that a handler can return: it classifies itself with a status
/// code, describes itself in words, and renders itself as a response.
pub trait ResponseError {
    /// The status code of this error. An implementation says which it is;
    /// where it does not, nothing is known of it.
    open spec fn status(&self) -> StatusCode {
        arbitrary()
    }

    /// The words that describe this error. An implementation says which
    /// they are; where it does not, nothing is known of them.
    open spec fn text(&self) -> Seq<char> {
        arbitrary()
    }

    /// Whether this error renders as a response. It does, unless an
    /// implementation that refuses to render says otherwise.
    open spec fn renders(&self) -> bool {
        true
    }

    /// The status code that classifies this error.
    fn status_code(&self) -> (code: StatusCode)
        ensures
            code == self.status(),
    ;

    /// The words that describe this error.
    fn message(&self) -> (words: String)
        ensures
            words@ == self.text(),
    ;

    /// Renders this error as a response. It succeeds on every error that
    /// renders, and the response that it gives has the error's status code
    /// as its status and the error's words as its body; by default it is the
    /// one that [`render`] builds from them.
    fn to_response(&self) -> (r: Result<Response, RenderError>)
        ensures
            self.renders() ==> r is Ok,
            r matches Ok(page) ==> page@.status == self.status() && page@.body
                == vstd::utf8::encode_utf8(self.text()),
    {
        let words = self.message();
        Ok(render(self.status_code(), words.as_str()))
    }
}

/// A failure of the transport or of the wire codec, by its description.
#[derive(Clone, Debug, PartialEq, Eq)]
pub struct TransportError {
    pub description: String,
}

impl TransportError {
    /// The failure that `description` describes.
    pub fn new(description: String) -> (error: Self)
        ensures
            error.description == description,
    {
        TransportError { description }
    }
}

impl ResponseError for TransportError {
    /// A failure of the transport is a fault of the server.
    open spec fn status(&self) -> StatusCode {
        StatusCode::internal_server_error()
    }

    /// The description, word for word.
    open spec fn text(&self) -> Seq<char> {
        self.description@
    }

    /// A failure of the transport always renders.
    open spec fn renders(&self) -> bool {
        true
    }

    /// A failure of the transport is a fault of the server.
    fn status_code(&self) -> (code: StatusCode)
        ensures
            code == StatusCode::internal_server_error(),
            code.value() == 500,
            code.server_fault(),
    {
        StatusCode::internal_server_error()
    }

    /// The description, word for word.
    fn message(&self) -> (words: String)
        ensures
            words@ == self.description@,
    {
        self.description.clone()
    }

    /// Always succeeds: the response reports a fault of the server and
    /// holds the description as its body.
    fn to_response(&self) -> (r: Result<Response, RenderError>)
        ensures
            r matches Ok(page) && page@ == error_page(
                StatusCode::internal_server_error(),
                self.description@,
            ),
            r matches Ok(page) && page@.status.value() == 500 && page@.status.server_fault()
                && page@.body == vstd::utf8::encode_utf8(self.description@),
    {
        Ok(render(self.status_code(), self.description.as_str()))
    }
}

} // verus!

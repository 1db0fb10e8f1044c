//! The envelope of a reply: the result that was asked for, or the error that
//! the service reports in its place.

use crate::api::coords::Coords;
use crate::api::failure::{ErrorCodeView, ErrorResponse, ErrorResponseView};
use crate::api::languages::AvailableLanguages;
use crate::error::{invalid_data, Error};
use crate::json::{contents, parse, parsed, JsonView};
use serde_json::Value;
use vstd::prelude::*;

verus! {

/// A result that the service sends inside a reply.
pub trait Payload: View + Sized {
    /// The result that a document holds, where it holds one.
    spec fn shape(doc: JsonView) -> Option<Self::V>;

    /// Reads the result from a document, where the document holds one.
    fn from_json(doc: &Value) -> (payload: Option<Self>)
        ensures
            crate::api::viewed(payload) == Self::shape(contents(*doc)),
    ;
}

/// A reply of the service, told apart by its shape alone: the wire format
/// carries no tag.
#[derive(Debug)]
pub enum ApiResponse<T> {
    Error { error: ErrorResponse },
    Success(T),
}

impl<T> ApiResponse<T> {
    /// Turns the reply into one outcome: the result as it is, or the error of
    /// the service as an `Api` error.
    pub fn resolve(self) -> (outcome: Result<T, Error>)
        ensures
            match self {
                ApiResponse::Error { error } => outcome == Err::<T, Error>(Error::Api(error)),
                ApiResponse::Success(inner) => outcome == Ok::<T, Error>(inner),
            },
    {
        match self {
            ApiResponse::Error { error } => Err(Error::Api(error)),
            ApiResponse::Success(inner) => Ok(inner),
        }
    }
}

impl<T> From<ApiResponse<T>> for Result<T, Error> {
    fn from(val: ApiResponse<T>) -> (outcome: Self) {
        val.resolve()
    }
}

impl<T> vstd::std_specs::convert::FromSpecImpl<ApiResponse<T>> for Result<T, Error> {
    open spec fn obeys_from_spec() -> bool {
        true
    }

    open spec fn from_spec(val: ApiResponse<T>) -> Self {
        match val {
            ApiResponse::Error { error } => Err(Error::Api(error)),
            ApiResponse::Success(inner) => Ok(inner),
        }
    }
}

impl<T: Payload> ApiResponse<T> {
    /// Whether `reply` is what a document is read as. A document that holds
    /// the result is read as the result, also where it could be read as an
    /// error too; one that holds only an error is read as that error; any
    /// other document is not read at all.
    pub open spec fn reads(doc: JsonView, reply: Option<ApiResponse<T>>) -> bool {
        match reply {
            Some(ApiResponse::Success(inner)) => T::shape(doc) == Some(inner@),
            Some(ApiResponse::Error { error }) => T::shape(doc) is None && ErrorResponse::shape(doc)
                == Some(error@),
            None => T::shape(doc) is None && ErrorResponse::shape(doc) is None,
        }
    }

    /// Reads a reply from a document.
    pub fn from_json(doc: &Value) -> (reply: Option<ApiResponse<T>>)
        ensures
            Self::reads(contents(*doc), reply),
    {
        match T::from_json(doc) {
            Some(inner) => Some(ApiResponse::Success(inner)),
            None => match ErrorResponse::from_json(doc) {
                Some(error) => Some(ApiResponse::Error { error }),
                None => None,
            },
        }
    }

    /// Whether `reply` is what the body of a response is read as: the reply
    /// that its document is read as, or a `Json` error where the body is no
    /// JSON document or its document is not read at all.
    pub open spec fn reads_body(body: Seq<char>, reply: Result<ApiResponse<T>, Error>) -> bool {
        match reply {
            Ok(reply) => parsed(body) is Some && Self::reads(parsed(body)->Some_0, Some(reply)),
            Err(error) => error is Json && (parsed(body) is Some ==> Self::reads(
                parsed(body)->Some_0,
                None,
            )),
        }
    }

    /// Reads a reply from the body of a response.
    pub fn from_body(body: &str) -> (reply: Result<ApiResponse<T>, Error>)
        ensures
            Self::reads_body(body@, reply),
    {
        match parse(body) {
            Ok(doc) => match Self::from_json(&doc) {
                Some(reply) => Ok(reply),
                None => Err(Error::Json(invalid_data("the reply is neither a result nor an error"))),
            },
            Err(cause) => Err(Error::Json(cause)),
        }
    }
}

/// What came back for a request that was sent.
#[derive(Debug)]
pub enum Reply {
    /// Nothing came back: the request did not get through.
    Lost(ureq::Transport),
    /// A response came, whatever its status, but its body could not be had.
    Unread(std::io::Error),
    /// A response came, whatever its status, with this body.
    Body(String),
}

impl Reply {
    /// Reads what came back. A lost request ends in an `HttpTransport` error
    /// and a body that could not be had in a `Json` error, each with its
    /// cause; a body is read whatever the status of its response was.
    pub fn read<T: Payload>(self) -> (reply: Result<ApiResponse<T>, Error>)
        ensures
            match self {
                Reply::Lost(cause) => reply == Err::<ApiResponse<T>, Error>(
                    Error::HttpTransport(cause),
                ),
                Reply::Unread(cause) => reply == Err::<ApiResponse<T>, Error>(Error::Json(cause)),
                Reply::Body(body) => ApiResponse::<T>::reads_body(body@, reply),
            },
    {
        match self {
            Reply::Lost(cause) => Err(Error::HttpTransport(cause)),
            Reply::Unread(cause) => Err(Error::Json(cause)),
            Reply::Body(body) => ApiResponse::from_body(body.as_str()),
        }
    }

    /// Whether `outcome` is what an operation ends in when `self` came back
    /// for its request:
    /// - the result, where the body is a document that holds it;
    /// - an `Api` error with the error of the service, where the body is a
    ///   document that holds an error and not the result;
    /// - a `Json` error, where the body is anything else or could not be had;
    /// - an `HttpTransport` error, where the request was lost.
    pub open spec fn ends_in<T: Payload>(self, outcome: Result<T, Error>) -> bool {
        match self {
            Reply::Lost(cause) => outcome == Err::<T, Error>(Error::HttpTransport(cause)),
            Reply::Unread(cause) => outcome == Err::<T, Error>(Error::Json(cause)),
            Reply::Body(body) => match parsed(body@) {
                None => outcome matches Err(error) && error is Json,
                Some(doc) => match (T::shape(doc), ErrorResponse::shape(doc)) {
                    (Some(held), _) => outcome matches Ok(inner) && inner@ == held,
                    (None, Some(held)) => outcome matches Err(Error::Api(error)) && error@ == held,
                    (None, None) => outcome matches Err(error) && error is Json,
                },
            },
        }
    }

    /// Ends the operation whose request `self` came back for: reads what came
    /// back and resolves it.
    pub fn resolve<T: Payload>(self) -> (outcome: Result<T, Error>)
        ensures
            self.ends_in(outcome),
    {
        match self.read::<T>() {
            Ok(reply) => reply.resolve(),
            Err(error) => Err(error),
        }
    }
}

/// A reply that holds the result is read as the result, even where it holds
/// an error too.
pub proof fn result_comes_first<T: Payload>(doc: JsonView, reply: Option<ApiResponse<T>>)
    requires
        ApiResponse::<T>::reads(doc, reply),
        T::shape(doc) is Some,
    ensures
        reply matches Some(ApiResponse::Success(inner)) && Some(inner@) == T::shape(doc),
{
}

/// An error reply is read as an error whatever its code says, a code that
/// this library does not know included: the code is kept under its own name.
pub proof fn every_code_is_read<T: Payload>(
    doc: JsonView,
    code: Seq<char>,
    message: Seq<char>,
    reply: Option<ApiResponse<T>>,
)
    requires
        doc.text_member("code"@) == Some(code),
        doc.text_member("message"@) == Some(message),
        T::shape(doc) is None,
        ApiResponse::<T>::reads(doc, reply),
    ensures
        reply matches Some(ApiResponse::Error { error }) && error@.message == message
            && error@.code == ErrorCodeView::named(code) && error@.code.name() == code,
{
}

/// A reply that holds a string `code`, a string `message` and nothing else is
/// read as an error by every operation: it is no address record and no list
/// of languages.
pub proof fn bare_error_is_read_by_every_operation(
    doc: JsonView,
    code: Seq<char>,
    message: Seq<char>,
    record: Option<ApiResponse<Coords>>,
    list: Option<ApiResponse<AvailableLanguages>>,
)
    requires
        doc == JsonView::Object(
            map!["code"@ => JsonView::Text(code), "message"@ => JsonView::Text(message)],
        ),
        ApiResponse::<Coords>::reads(doc, record),
        ApiResponse::<AvailableLanguages>::reads(doc, list),
    ensures
        record matches Some(ApiResponse::Error { error }) && error@ == (ErrorResponseView {
            code: ErrorCodeView::named(code),
            message,
        }),
        list matches Some(ApiResponse::Error { error }) && error@ == (ErrorResponseView {
            code: ErrorCodeView::named(code),
            message,
        }),
{
    reveal_strlit("code");
    reveal_strlit("message");
    reveal_strlit("country");
    reveal_strlit("languages");
    assert("code"@.len() == 4);
    assert("message"@.len() == 7 && "message"@[0] == 'm');
    assert("country"@.len() == 7 && "country"@[0] == 'c');
    assert("languages"@.len() == 9);
    assert(doc.member("country"@) is None);
    assert(doc.member("languages"@) is None);
}

/// A body that is no JSON document is read as a `Json` error, whatever result
/// was asked for.
pub proof fn malformed_body_is_json_error<T: Payload>(
    body: Seq<char>,
    reply: Result<ApiResponse<T>, Error>,
)
    requires
        parsed(body) is None,
        ApiResponse::<T>::reads_body(body, reply),
    ensures
        reply matches Err(error) && error is Json,
{
}

} // verus!

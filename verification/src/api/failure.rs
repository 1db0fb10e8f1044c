//! The error that the service reports inside a reply.

use crate::json::{contents, text_member, JsonView};
use crate::text::same_text;
use serde_json::Value;
use vstd::prelude::*;

verus! {

/// The codes by which the service names an error, grouped by the status they
/// come with, and one more for every code that this library does not know.
#[derive(Debug)]
#[non_exhaustive]
pub enum ErrorCode {
    // 400 Bad Request
    BadWords,
    BadCoordinates,
    BadLanguage,
    BadFormat,
    BadClipToPolygon,
    MissingWords,
    MissingInput,
    MissingBoundingBox,
    DuplicateParameter,
    // 401 Unauthorized
    MissingKey,
    InvalidKey,
    // 404 Not Found
    NotFound,
    // 405 Method Not Allowed
    MethodNotAllowed,
    // 500 Internal Server Error
    InternalServerError,
    /// A code outside the list above, kept as the service wrote it.
    Unknown(String),
}

pub enum ErrorCodeView {
    BadWords,
    BadCoordinates,
    BadLanguage,
    BadFormat,
    BadClipToPolygon,
    MissingWords,
    MissingInput,
    MissingBoundingBox,
    DuplicateParameter,
    MissingKey,
    InvalidKey,
    NotFound,
    MethodNotAllowed,
    InternalServerError,
    Unknown(Seq<char>),
}

impl View for ErrorCode {
    type V = ErrorCodeView;

    open spec fn view(&self) -> ErrorCodeView {
        match self {
            ErrorCode::BadWords => ErrorCodeView::BadWords,
            ErrorCode::BadCoordinates => ErrorCodeView::BadCoordinates,
            ErrorCode::BadLanguage => ErrorCodeView::BadLanguage,
            ErrorCode::BadFormat => ErrorCodeView::BadFormat,
            ErrorCode::BadClipToPolygon => ErrorCodeView::BadClipToPolygon,
            ErrorCode::MissingWords => ErrorCodeView::MissingWords,
            ErrorCode::MissingInput => ErrorCodeView::MissingInput,
            ErrorCode::MissingBoundingBox => ErrorCodeView::MissingBoundingBox,
            ErrorCode::DuplicateParameter => ErrorCodeView::DuplicateParameter,
            ErrorCode::MissingKey => ErrorCodeView::MissingKey,
            ErrorCode::InvalidKey => ErrorCodeView::InvalidKey,
            ErrorCode::NotFound => ErrorCodeView::NotFound,
            ErrorCode::MethodNotAllowed => ErrorCodeView::MethodNotAllowed,
            ErrorCode::InternalServerError => ErrorCodeView::InternalServerError,
            ErrorCode::Unknown(name) => ErrorCodeView::Unknown(name@),
        }
    }
}

impl ErrorCodeView {
    /// The code that the service writes as `name`.
    pub open spec fn named(name: Seq<char>) -> ErrorCodeView {
        if name == "BadWords"@ {
            ErrorCodeView::BadWords
        } else if name == "BadCoordinates"@ {
            ErrorCodeView::BadCoordinates
        } else if name == "BadLanguage"@ {
            ErrorCodeView::BadLanguage
        } else if name == "BadFormat"@ {
            ErrorCodeView::BadFormat
        } else if name == "BadClipToPolygon"@ {
            ErrorCodeView::BadClipToPolygon
        } else if name == "MissingWords"@ {
            ErrorCodeView::MissingWords
        } else if name == "MissingInput"@ {
            ErrorCodeView::MissingInput
        } else if name == "MissingBoundingBox"@ {
            ErrorCodeView::MissingBoundingBox
        } else if name == "DuplicateParameter"@ {
            ErrorCodeView::DuplicateParameter
        } else if name == "MissingKey"@ {
            ErrorCodeView::MissingKey
        } else if name == "InvalidKey"@ {
            ErrorCodeView::InvalidKey
        } else if name == "NotFound"@ {
            ErrorCodeView::NotFound
        } else if name == "MethodNotAllowed"@ {
            ErrorCodeView::MethodNotAllowed
        } else if name == "InternalServerError"@ {
            ErrorCodeView::InternalServerError
        } else {
            ErrorCodeView::Unknown(name)
        }
    }

    /// The name under which the service writes the code.
    pub open spec fn name(self) -> Seq<char> {
        match self {
            ErrorCodeView::BadWords => "BadWords"@,
            ErrorCodeView::BadCoordinates => "BadCoordinates"@,
            ErrorCodeView::BadLanguage => "BadLanguage"@,
            ErrorCodeView::BadFormat => "BadFormat"@,
            ErrorCodeView::BadClipToPolygon => "BadClipToPolygon"@,
            ErrorCodeView::MissingWords => "MissingWords"@,
            ErrorCodeView::MissingInput => "MissingInput"@,
            ErrorCodeView::MissingBoundingBox => "MissingBoundingBox"@,
            ErrorCodeView::DuplicateParameter => "DuplicateParameter"@,
            ErrorCodeView::MissingKey => "MissingKey"@,
            ErrorCodeView::InvalidKey => "InvalidKey"@,
            ErrorCodeView::NotFound => "NotFound"@,
            ErrorCodeView::MethodNotAllowed => "MethodNotAllowed"@,
            ErrorCodeView::InternalServerError => "InternalServerError"@,
            ErrorCodeView::Unknown(name) => name,
        }
    }

    /// Whether the code is the one that stands for its name: the catch-all
    /// holds no name from the list.
    pub open spec fn canonical(self) -> bool {
        self matches ErrorCodeView::Unknown(name) ==> ErrorCodeView::named(name) is Unknown
    }
}

impl ErrorCode {
    /// The code that the service writes as `name`. A name outside the list is
    /// kept in the catch-all, so every name has a code.
    pub fn from_name(name: &str) -> (code: ErrorCode)
        ensures
            code@ == ErrorCodeView::named(name@),
    {
        if same_text(name, "BadWords") {
            ErrorCode::BadWords
        } else if same_text(name, "BadCoordinates") {
            ErrorCode::BadCoordinates
        } else if same_text(name, "BadLanguage") {
            ErrorCode::BadLanguage
        } else if same_text(name, "BadFormat") {
            ErrorCode::BadFormat
        } else if same_text(name, "BadClipToPolygon") {
            ErrorCode::BadClipToPolygon
        } else if same_text(name, "MissingWords") {
            ErrorCode::MissingWords
        } else if same_text(name, "MissingInput") {
            ErrorCode::MissingInput
        } else if same_text(name, "MissingBoundingBox") {
            ErrorCode::MissingBoundingBox
        } else if same_text(name, "DuplicateParameter") {
            ErrorCode::DuplicateParameter
        } else if same_text(name, "MissingKey") {
            ErrorCode::MissingKey
        } else if same_text(name, "InvalidKey") {
            ErrorCode::InvalidKey
        } else if same_text(name, "NotFound") {
            ErrorCode::NotFound
        } else if same_text(name, "MethodNotAllowed") {
            ErrorCode::MethodNotAllowed
        } else if same_text(name, "InternalServerError") {
            ErrorCode::InternalServerError
        } else {
            ErrorCode::Unknown(name.to_owned())
        }
    }

    /// The name under which the service writes the code.
    pub fn name(&self) -> (name: String)
        ensures
            name@ == self@.name(),
    {
        match self {
            ErrorCode::BadWords => "BadWords".to_owned(),
            ErrorCode::BadCoordinates => "BadCoordinates".to_owned(),
            ErrorCode::BadLanguage => "BadLanguage".to_owned(),
            ErrorCode::BadFormat => "BadFormat".to_owned(),
            ErrorCode::BadClipToPolygon => "BadClipToPolygon".to_owned(),
            ErrorCode::MissingWords => "MissingWords".to_owned(),
            ErrorCode::MissingInput => "MissingInput".to_owned(),
            ErrorCode::MissingBoundingBox => "MissingBoundingBox".to_owned(),
            ErrorCode::DuplicateParameter => "DuplicateParameter".to_owned(),
            ErrorCode::MissingKey => "MissingKey".to_owned(),
            ErrorCode::InvalidKey => "InvalidKey".to_owned(),
            ErrorCode::NotFound => "NotFound".to_owned(),
            ErrorCode::MethodNotAllowed => "MethodNotAllowed".to_owned(),
            ErrorCode::InternalServerError => "InternalServerError".to_owned(),
            ErrorCode::Unknown(name) => name.clone(),
        }
    }
}

/// Every name stands for a code, and that code is written back as the same
/// name: no code of the service is lost or altered by reading it.
pub proof fn name_survives_reading(name: Seq<char>)
    ensures
        ErrorCodeView::named(name).name() == name,
        ErrorCodeView::named(name).canonical(),
{
}

/// A canonical code is read back from its own name.
pub proof fn code_survives_writing(code: ErrorCodeView)
    requires
        code.canonical(),
    ensures
        ErrorCodeView::named(code.name()) == code,
{
    reveal_strlit("BadWords");
    reveal_strlit("BadCoordinates");
    reveal_strlit("BadLanguage");
    reveal_strlit("BadFormat");
    reveal_strlit("BadClipToPolygon");
    reveal_strlit("MissingWords");
    reveal_strlit("MissingInput");
    reveal_strlit("MissingBoundingBox");
    reveal_strlit("DuplicateParameter");
    reveal_strlit("MissingKey");
    reveal_strlit("InvalidKey");
    reveal_strlit("NotFound");
    reveal_strlit("MethodNotAllowed");
    reveal_strlit("InternalServerError");
    assert("BadWords"@.len() == 8 && "BadWords"@[0] == 'B');
    assert("BadCoordinates"@.len() == 14);
    assert("BadLanguage"@.len() == 11);
    assert("BadFormat"@.len() == 9);
    assert("BadClipToPolygon"@.len() == 16 && "BadClipToPolygon"@[0] == 'B');
    assert("MissingWords"@.len() == 12 && "MissingWords"@[7] == 'W');
    assert("MissingInput"@.len() == 12 && "MissingInput"@[7] == 'I');
    assert("MissingBoundingBox"@.len() == 18 && "MissingBoundingBox"@[0] == 'M');
    assert("DuplicateParameter"@.len() == 18 && "DuplicateParameter"@[0] == 'D');
    assert("MissingKey"@.len() == 10 && "MissingKey"@[0] == 'M');
    assert("InvalidKey"@.len() == 10 && "InvalidKey"@[0] == 'I');
    assert("NotFound"@.len() == 8 && "NotFound"@[0] == 'N');
    assert("MethodNotAllowed"@.len() == 16 && "MethodNotAllowed"@[0] == 'M');
    assert("InternalServerError"@.len() == 19);
}

/// What the service sends in place of a result when it refuses a request.
#[derive(Debug)]
pub struct ErrorResponse {
    pub code: ErrorCode,
    pub message: String,
}

pub struct ErrorResponseView {
    pub code: ErrorCodeView,
    pub message: Seq<char>,
}

impl View for ErrorResponse {
    type V = ErrorResponseView;

    open spec fn view(&self) -> ErrorResponseView {
        ErrorResponseView { code: self.code@, message: self.message@ }
    }
}

impl ErrorResponse {
    /// The error that a document holds: an object with a string `code` and a
    /// string `message`. Whatever the code says, it is read.
    pub open spec fn shape(doc: JsonView) -> Option<ErrorResponseView> {
        match (doc.text_member("code"@), doc.text_member("message"@)) {
            (Some(code), Some(message)) => Some(
                ErrorResponseView { code: ErrorCodeView::named(code), message },
            ),
            _ => None,
        }
    }

    /// Reads an error from a document, where the document holds one.
    pub fn from_json(doc: &Value) -> (error: Option<ErrorResponse>)
        ensures
            crate::api::viewed(error) == Self::shape(contents(*doc)),
    {
        let code = text_member(doc, "code");
        let message = text_member(doc, "message");
        match (code, message) {
            (Some(code), Some(message)) => Some(
                ErrorResponse { code: ErrorCode::from_name(code.as_str()), message },
            ),
            _ => None,
        }
    }
}

} // verus!

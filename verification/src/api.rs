//! The values that the service sends, as this library holds them.

mod coords;
mod envelope;
mod failure;
mod languages;

pub use crate::api::coords::{
    Coords, CoordsView, GeoCoords, GeoCoordsView, Square, SquareView,
};
pub use crate::api::envelope::{
    bare_error_is_read_by_every_operation, every_code_is_read, malformed_body_is_json_error, result_comes_first, ApiResponse, Payload,
    Reply,
};
pub use crate::api::failure::{
    code_survives_writing, name_survives_reading, ErrorCode, ErrorCodeView, ErrorResponse,
    ErrorResponseView,
};
pub use crate::api::languages::{
    AvailableLanguages, AvailableLanguagesView, Language, LanguageView,
};
use vstd::prelude::*;

verus! {

/// The view of a value that may be missing.
pub open spec fn viewed<T: View>(value: Option<T>) -> Option<T::V> {
    match value {
        Some(value) => Some(value@),
        None => None,
    }
}

} // verus!

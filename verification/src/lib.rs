//! A client of the what3words service, which turns positions on the globe
//! into three-word addresses and back.
//!
//! The library makes the request of each operation and reads what comes back
//! for it; sending the request is left to the caller. See [`Client`] for the
//! requests and [`Reply`] for the outcomes.

pub mod api;
pub mod client;
pub mod endpoint;
pub mod error;
pub mod json;
pub mod text;

pub use crate::api::{ApiResponse, AvailableLanguages, Coords, Reply};
pub use crate::client::{Client, Request};
pub use crate::error::Error;

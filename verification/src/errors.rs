//! The library's error type.
use vstd::prelude::*;

verus! {

/// Errors the application reports. The first three carry the message of an
/// I/O, JSON or HTTP failure; the others are raised by the library's logic.
#[derive(Debug, Clone, PartialEq, Eq)]
pub enum AppError {
    Io(String),
    Json(String),
    Http(String),
    GeApi(String),
    Telegram(String),
    NoDataDir,
    Other(String),
}

} // verus!

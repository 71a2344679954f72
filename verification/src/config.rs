//! Settings and their defaults.
use crate::text;
use vstd::prelude::*;

verus! {

/// Where the vector store is found by default.
pub const DEFAULT_QDRANT_URL: &'static str = "http://localhost:6334";

/// Where the dashboard is found by default.
pub const DEFAULT_GRPC_URL: &'static str = "http://127.0.0.1:50051";

/// A setting as given, or its default where it is missing or blank.
pub fn setting_or(raw: Option<String>, default: &str) -> (r: String)
    ensures
        match raw {
            Some(value) => if text::blank(value@) {
                r@ == default@
            } else {
                r == value
            },
            None => r@ == default@,
        },
{
    match raw {
        Some(value) => if text::is_blank(value.as_str()) {
            default.to_owned()
        } else {
            value
        },
        None => default.to_owned(),
    }
}

/// The address of the vector store.
pub fn qdrant_url(raw: Option<String>) -> (r: String)
    ensures
        match raw {
            Some(value) => if text::blank(value@) {
                r@ == DEFAULT_QDRANT_URL@
            } else {
                r == value
            },
            None => r@ == DEFAULT_QDRANT_URL@,
        },
{
    setting_or(raw, DEFAULT_QDRANT_URL)
}

/// The address of the dashboard.
pub fn grpc_url(raw: Option<String>) -> (r: String)
    ensures
        match raw {
            Some(value) => if text::blank(value@) {
                r@ == DEFAULT_GRPC_URL@
            } else {
                r == value
            },
            None => r@ == DEFAULT_GRPC_URL@,
        },
{
    setting_or(raw, DEFAULT_GRPC_URL)
}

} // verus!

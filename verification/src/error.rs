//! The error taxonomy of the library.
//!
//! Parsing a game version never fails (it falls back to a degenerate value),
//! while lookups are strict: an unsatisfiable descriptor or an absent pack is
//! reported as an explicit error, never a panic.

use vstd::prelude::*;

verus! {

/// What went wrong: a mod, version or pack is absent; a loader or
/// release-type token could not be recognised; persisted or API data does not
/// fit the schema; or the transport below the registry client failed.
#[derive(Clone, Copy, Debug, PartialEq, Eq, Structural)]
pub enum ApiErrorKind {
    NotFound,
    InvalidLoader,
    InvalidVersion,
    InvalidData,
    TransportFailure,
}

/// An error surfaced by the registry-facing operations of the library.
#[derive(Clone, Copy, Debug, PartialEq, Eq, Structural)]
pub struct ApiError {
    pub kind: ApiErrorKind,
}

impl ApiError {
    /// A mod, a satisfying release, or a pack is absent.
    pub fn not_found() -> (e: Self)
        ensures
            e.kind == ApiErrorKind::NotFound,
    {
        ApiError { kind: ApiErrorKind::NotFound }
    }

    /// A mod-loader token could not be recognised.
    pub fn invalid_loader() -> (e: Self)
        ensures
            e.kind == ApiErrorKind::InvalidLoader,
    {
        ApiError { kind: ApiErrorKind::InvalidLoader }
    }

    /// A release-type token could not be recognised.
    pub fn invalid_version() -> (e: Self)
        ensures
            e.kind == ApiErrorKind::InvalidVersion,
    {
        ApiError { kind: ApiErrorKind::InvalidVersion }
    }

    /// Persisted or API data does not fit the logical schema.
    pub fn invalid_data() -> (e: Self)
        ensures
            e.kind == ApiErrorKind::InvalidData,
    {
        ApiError { kind: ApiErrorKind::InvalidData }
    }

    /// The transport below the registry client failed.
    pub fn transport_failure() -> (e: Self)
        ensures
            e.kind == ApiErrorKind::TransportFailure,
    {
        ApiError { kind: ApiErrorKind::TransportFailure }
    }

    /// A short description of the error, for callers that print it.
    pub fn message(&self) -> (m: &'static str)
        ensures
            self.kind == ApiErrorKind::NotFound ==> m@ == "NotFound"@,
            self.kind == ApiErrorKind::InvalidLoader ==> m@ == "InvalidLoader"@,
            self.kind == ApiErrorKind::InvalidVersion ==> m@ == "InvalidVersion"@,
            self.kind == ApiErrorKind::InvalidData ==> m@ == "InvalidData"@,
            self.kind == ApiErrorKind::TransportFailure ==> m@ == "TransportFailure"@,
    {
        match self.kind {
            ApiErrorKind::NotFound => "NotFound",
            ApiErrorKind::InvalidLoader => "InvalidLoader",
            ApiErrorKind::InvalidVersion => "InvalidVersion",
            ApiErrorKind::InvalidData => "InvalidData",
            ApiErrorKind::TransportFailure => "TransportFailure",
        }
    }
}

} // verus!

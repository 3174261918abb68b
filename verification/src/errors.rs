//! Error taxonomy of the pipeline.
//!
//! Translation errors (malformed or incomplete payloads, failed
//! point-of-interest resolution) and engine errors are terminal for a
//! request; cache errors never fail the enclosing request.

use vstd::prelude::*;

verus! {

/// Failure reported by the external search collaborator: the request
/// did not come back with a usable point-of-interest detail.
#[derive(Clone, Copy, PartialEq, Eq, Structural, Debug)]
pub struct SearchError {
    /// Collaborator-side failure code.
    pub code: i32,
}

/// Nonzero status returned by the foreign routing engine.
#[derive(Clone, Copy, PartialEq, Eq, Structural, Debug)]
pub struct RouteError {
    /// The engine's status code; never zero.
    pub code: i32,
}

/// Failure of a cache command.  Cache failures are best-effort
/// information: they never fail the route-planning request they
/// accompany.
#[derive(Clone, Copy, PartialEq, Eq, Structural, Debug)]
pub struct CacheError {
    /// Cache-side failure code.
    pub code: i32,
}

/// Why a wire payload could not be turned into a normalized engine
/// request.
#[derive(Clone, Copy, PartialEq, Eq, Structural, Debug)]
pub enum TranslationError {
    /// The payload could not be parsed at all.
    MalformedPayload,
    /// A required field is missing and has no default.
    MissingField,
    /// A numeric field of a resolved point-of-interest detail is not a
    /// decimal number of the expected range.
    BadNumber,
    /// A point-of-interest resolution failed; carries the
    /// collaborator's error.
    PoiResolution(SearchError),
}

/// Terminal failure of the orchestrated `find_path` pipeline.
#[derive(Clone, Copy, PartialEq, Eq, Structural, Debug)]
pub enum OrchestrationError {
    /// The payload never became a normalized engine request.
    Translation(TranslationError),
    /// The engine refused the request with a nonzero status.
    Engine(RouteError),
}

} // verus!

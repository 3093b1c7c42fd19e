//! The failure taxonomy of the fetch pipeline.
//!
//! Every failure inside the pipeline is captured as a typed value carrying
//! the context a log line needs; nothing here panics or aborts. The
//! descriptions mirror the log lines the plugin emits.

use vstd::prelude::*;

verus! {

/// Why a fetch (or a configuration read) failed.
#[derive(Debug, PartialEq, Eq)]
pub enum FetchError {
    /// No username is set, or the one set is empty; no request was made.
    NoIdentity,
    /// The metadata request to the planning service did not complete.
    MetadataTransportFailed(String),
    /// The metadata response body could not be decoded as text.
    MetadataBodyUndecodable(String),
    /// The metadata body is not well-formed JSON.
    MetadataParseFailed(String),
    /// The metadata JSON lacks an expected field of the expected type.
    MetadataMalformed(String),
    /// The service answered with a status other than the success marker;
    /// carries that status verbatim.
    RemoteRequestFailed(String),
    /// The flight-plan download did not complete.
    PlanTransportFailed(String),
    /// The flight-plan body could not be decoded as text.
    PlanBodyUndecodable(String),
    /// The username configuration file could not be read; carries its path
    /// and the cause.
    ConfigError(String, String),
}

/// Outcome of one background fetch: the route text verbatim, or the typed
/// failure.
#[derive(Debug, PartialEq, Eq)]
pub enum FetchOutcome {
    Success(String),
    Failure(FetchError),
}

/// The description `FetchError::message` returns.
pub open spec fn spec_message(e: FetchError) -> Seq<char> {
    match e {
        FetchError::NoIdentity => "No Simbrief username set"@,
        FetchError::MetadataTransportFailed(c) => "Simbrief JSON download failed: "@ + c@,
        FetchError::MetadataBodyUndecodable(c) => "Simbrief JSON is not a string: "@ + c@,
        FetchError::MetadataParseFailed(c) => "Simbrief JSON parsing failed: "@ + c@,
        FetchError::MetadataMalformed(c) => "Simbrief response is malformed: "@ + c@,
        FetchError::RemoteRequestFailed(c) => "Simbrief API request failed with status: "@ + c@,
        FetchError::PlanTransportFailed(c) => "Simbrief flight plan download failed: "@ + c@,
        FetchError::PlanBodyUndecodable(c) => "Simbrief flight plan is not a string: "@ + c@,
        FetchError::ConfigError(path, _) => "Cannot read config file: "@ + path@,
    }
}

/// `prefix` followed by `context`, in one owned string.
pub fn prefixed(prefix: &str, context: &String) -> (r: String)
    ensures
        r@ == prefix@ + context@,
{
    let mut r = String::from_str(prefix);
    r.append(context.as_str());
    r
}

impl FetchError {
    /// A log-ready description of the failure.
    pub fn message(&self) -> (r: String)
        ensures
            r@ == spec_message(*self),
    {
        match self {
            FetchError::NoIdentity => String::from_str("No Simbrief username set"),
            FetchError::MetadataTransportFailed(c) => prefixed("Simbrief JSON download failed: ", c),
            FetchError::MetadataBodyUndecodable(c) => prefixed("Simbrief JSON is not a string: ", c),
            FetchError::MetadataParseFailed(c) => prefixed("Simbrief JSON parsing failed: ", c),
            FetchError::MetadataMalformed(c) => prefixed("Simbrief response is malformed: ", c),
            FetchError::RemoteRequestFailed(c) => prefixed(
                "Simbrief API request failed with status: ",
                c,
            ),
            FetchError::PlanTransportFailed(c) => prefixed(
                "Simbrief flight plan download failed: ",
                c,
            ),
            FetchError::PlanBodyUndecodable(c) => prefixed(
                "Simbrief flight plan is not a string: ",
                c,
            ),
            FetchError::ConfigError(path, _) => prefixed("Cannot read config file: ", path),
        }
    }
}

} // verus!

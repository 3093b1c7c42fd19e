//! Decisions of the fetch pipeline, from trigger to handoff.
//!
//! The pipeline's outside work — the two HTTP requests — is done by the I/O
//! side, which reports each exchange back as an [`HttpEvent`]. Everything
//! decided on those events is here and verified: which request is owed for
//! which username, which typed error each failure becomes, and what the
//! polling side does with a collected outcome.

use vstd::prelude::*;

use crate::errors::{spec_message, FetchError, FetchOutcome};
use crate::metadata::{metadata_decision, metadata_url, metadata_url_spec, plan_request_from_metadata};

verus! {

/// One HTTP exchange's outcome, as the I/O side reports it: the body text,
/// or the failure at transport or at decoding, with its description.
#[derive(Debug, PartialEq, Eq)]
pub enum HttpEvent {
    Received(String),
    TransportFailed(String),
    BodyUndecodable(String),
}

/// Decide how a triggered fetch starts: with no username set, or an empty
/// one, it fails at once with `NoIdentity` and no request is owed; else the
/// metadata request for that username is owed.
pub fn begin_fetch(username: &Option<String>) -> (r: Result<String, FetchError>)
    ensures
        *username is None ==> r matches Err(FetchError::NoIdentity),
        *username matches Some(u) ==> if u@.len() == 0 {
            r matches Err(FetchError::NoIdentity)
        } else {
            r matches Ok(url) && url@ == metadata_url_spec(u@)
        },
{
    match username {
        None => Err(FetchError::NoIdentity),
        Some(u) => {
            if u.as_str().is_empty() {
                Err(FetchError::NoIdentity)
            } else {
                Ok(metadata_url(u.as_str()))
            }
        },
    }
}

/// Decide on the metadata exchange: a transport failure or an undecodable
/// body becomes the matching typed error, untouched by any parsing; a
/// received body is interpreted as `metadata_decision` states, yielding
/// either the plan request or its typed error.
pub fn on_metadata_event(event: HttpEvent) -> (r: Result<String, FetchError>)
    ensures
        event matches HttpEvent::TransportFailed(c) ==> (r matches Err(
            FetchError::MetadataTransportFailed(d),
        ) && d == c),
        event matches HttpEvent::BodyUndecodable(c) ==> (r matches Err(
            FetchError::MetadataBodyUndecodable(d),
        ) && d == c),
        event matches HttpEvent::Received(body) ==> metadata_decision(body@, r),
{
    match event {
        HttpEvent::TransportFailed(c) => Err(FetchError::MetadataTransportFailed(c)),
        HttpEvent::BodyUndecodable(c) => Err(FetchError::MetadataBodyUndecodable(c)),
        HttpEvent::Received(body) => plan_request_from_metadata(body.as_str()),
    }
}

/// Decide on the plan exchange: a received body is the fetched route text,
/// verbatim; a failure becomes the matching typed error.
pub fn on_plan_event(event: HttpEvent) -> (r: FetchOutcome)
    ensures
        event matches HttpEvent::Received(text) ==> (r matches FetchOutcome::Success(t) && t
            == text),
        event matches HttpEvent::TransportFailed(c) ==> (r matches FetchOutcome::Failure(
            FetchError::PlanTransportFailed(d),
        ) && d == c),
        event matches HttpEvent::BodyUndecodable(c) ==> (r matches FetchOutcome::Failure(
            FetchError::PlanBodyUndecodable(d),
        ) && d == c),
{
    match event {
        HttpEvent::Received(text) => FetchOutcome::Success(text),
        HttpEvent::TransportFailed(c) => FetchOutcome::Failure(FetchError::PlanTransportFailed(c)),
        HttpEvent::BodyUndecodable(c) => FetchOutcome::Failure(FetchError::PlanBodyUndecodable(c)),
    }
}

/// What the polling side does with a collected outcome.
#[derive(Debug, PartialEq, Eq)]
pub enum PollAction {
    /// Hand this route text to the host's loading entry point, on the
    /// polling thread.
    LoadRoute(String),
    /// Emit this diagnostic line; nothing is retried.
    Report(String),
}

/// Decide what a collected outcome leads to: a fetched route is loaded,
/// verbatim; a failure is reported with the plugin's log prefix and the
/// failure's own description.
pub fn completion_action(outcome: FetchOutcome) -> (r: PollAction)
    ensures
        outcome matches FetchOutcome::Success(t) ==> (r matches PollAction::LoadRoute(u) && u
            == t),
        outcome matches FetchOutcome::Failure(e) ==> (r matches PollAction::Report(m) && m@
            == "flightstream_rs: Error requesting data from simbrief: "@ + spec_message(e)),
{
    match outcome {
        FetchOutcome::Success(t) => PollAction::LoadRoute(t),
        FetchOutcome::Failure(e) => {
            let description = e.message();
            PollAction::Report(
                crate::errors::prefixed(
                    "flightstream_rs: Error requesting data from simbrief: ",
                    &description,
                ),
            )
        },
    }
}

} // verus!

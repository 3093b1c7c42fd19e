use flightstream_rs::client::{
    begin_fetch, completion_action, on_metadata_event, on_plan_event, HttpEvent, PollAction,
};
use flightstream_rs::errors::{FetchError, FetchOutcome};
use flightstream_rs::metadata::{metadata_url, plan_request_from_metadata};
use flightstream_rs::text::strip_quotes;

#[test]
fn successful_metadata_yields_plan_url() {
    let body = r#"{"fetch":{"status":"Success"},"fms_downloads":{"xpe":{"link":"abc123"}}}"#;
    let r = plan_request_from_metadata(body);
    assert_eq!(
        r,
        Ok(String::from("https://www.simbrief.com/ofp/flightplans/abc123"))
    );
    let outcome = on_plan_event(HttpEvent::Received(String::from("PLANDATA")));
    assert_eq!(outcome, FetchOutcome::Success(String::from("PLANDATA")));
}

#[test]
fn failure_status_is_the_services_own_failure() {
    let body = r#"{"fetch":{"status":"NotFound"}}"#;
    let r = plan_request_from_metadata(body);
    assert_eq!(
        r,
        Err(FetchError::RemoteRequestFailed(String::from("NotFound")))
    );
}

#[test]
fn missing_status_is_malformed() {
    let body = r#"{"fetch":{}}"#;
    let r = plan_request_from_metadata(body);
    assert_eq!(
        r,
        Err(FetchError::MetadataMalformed(String::from(
            "fetch/status key is not a string,"
        )))
    );
}

#[test]
fn non_string_status_is_malformed() {
    let body = r#"{"fetch":{"status":7}}"#;
    let r = plan_request_from_metadata(body);
    assert_eq!(
        r,
        Err(FetchError::MetadataMalformed(String::from(
            "fetch/status key is not a string,"
        )))
    );
}

#[test]
fn missing_link_is_malformed() {
    let body = r#"{"fetch":{"status":"Success"}}"#;
    let r = plan_request_from_metadata(body);
    assert_eq!(
        r,
        Err(FetchError::MetadataMalformed(String::from(
            "fms_downloads/xpe/link key is not a string"
        )))
    );
}

#[test]
fn ill_formed_json_is_a_parse_failure() {
    let r = plan_request_from_metadata("{not json");
    assert!(matches!(r, Err(FetchError::MetadataParseFailed(_))));
}

#[test]
fn quoting_artifacts_are_stripped_from_the_link() {
    let body = r#"{"fetch":{"status":"Success"},"fms_downloads":{"xpe":{"link":"\"abc123\""}}}"#;
    let r = plan_request_from_metadata(body);
    assert_eq!(
        r,
        Ok(String::from("https://www.simbrief.com/ofp/flightplans/abc123"))
    );
}

#[test]
fn strip_quotes_removes_every_double_quote() {
    assert_eq!(strip_quotes("\"abc\"12\"3\""), String::from("abc123"));
    assert_eq!(strip_quotes("abc123"), String::from("abc123"));
    assert_eq!(strip_quotes("\"\""), String::from(""));
    assert_eq!(strip_quotes(""), String::from(""));
}

#[test]
fn no_username_fails_before_any_request() {
    assert_eq!(begin_fetch(&None), Err(FetchError::NoIdentity));
}

#[test]
fn empty_username_fails_before_any_request() {
    assert_eq!(
        begin_fetch(&Some(String::from(""))),
        Err(FetchError::NoIdentity)
    );
}

#[test]
fn set_username_leads_to_its_metadata_request() {
    let r = begin_fetch(&Some(String::from("alice123")));
    assert_eq!(
        r,
        Ok(String::from(
            "https://www.simbrief.com/api/xml.fetcher.php?username=alice123&json=1"
        ))
    );
}

#[test]
fn metadata_url_is_exact() {
    assert_eq!(
        metadata_url("bob"),
        String::from("https://www.simbrief.com/api/xml.fetcher.php?username=bob&json=1")
    );
}

#[test]
fn metadata_transport_failure_is_not_a_parse_error() {
    let r = on_metadata_event(HttpEvent::TransportFailed(String::from(
        "connection refused",
    )));
    assert_eq!(
        r,
        Err(FetchError::MetadataTransportFailed(String::from(
            "connection refused"
        )))
    );
}

#[test]
fn metadata_undecodable_body_is_typed() {
    let r = on_metadata_event(HttpEvent::BodyUndecodable(String::from("bad encoding")));
    assert_eq!(
        r,
        Err(FetchError::MetadataBodyUndecodable(String::from(
            "bad encoding"
        )))
    );
}

#[test]
fn received_metadata_goes_through_interpretation() {
    let body = r#"{"fetch":{"status":"NotFound"}}"#;
    let r = on_metadata_event(HttpEvent::Received(String::from(body)));
    assert_eq!(
        r,
        Err(FetchError::RemoteRequestFailed(String::from("NotFound")))
    );
}

#[test]
fn plan_transport_failure_is_typed() {
    let outcome = on_plan_event(HttpEvent::TransportFailed(String::from("timed out")));
    assert_eq!(
        outcome,
        FetchOutcome::Failure(FetchError::PlanTransportFailed(String::from("timed out")))
    );
}

#[test]
fn plan_undecodable_body_is_typed() {
    let outcome = on_plan_event(HttpEvent::BodyUndecodable(String::from("bad encoding")));
    assert_eq!(
        outcome,
        FetchOutcome::Failure(FetchError::PlanBodyUndecodable(String::from(
            "bad encoding"
        )))
    );
}

#[test]
fn successful_outcome_is_loaded_verbatim() {
    let action = completion_action(FetchOutcome::Success(String::from("PLANDATA")));
    assert_eq!(action, PollAction::LoadRoute(String::from("PLANDATA")));
}

#[test]
fn failed_outcome_is_reported_with_the_log_prefix() {
    let action = completion_action(FetchOutcome::Failure(FetchError::NoIdentity));
    assert_eq!(
        action,
        PollAction::Report(String::from(
            "flightstream_rs: Error requesting data from simbrief: No Simbrief username set"
        ))
    );
}

#[test]
fn error_messages_carry_their_context() {
    assert_eq!(
        FetchError::RemoteRequestFailed(String::from("NotFound")).message(),
        String::from("Simbrief API request failed with status: NotFound")
    );
    assert_eq!(
        FetchError::MetadataTransportFailed(String::from("dns failure")).message(),
        String::from("Simbrief JSON download failed: dns failure")
    );
    assert_eq!(
        FetchError::MetadataMalformed(String::from("fetch/status key is not a string,")).message(),
        String::from("Simbrief response is malformed: fetch/status key is not a string,")
    );
    assert_eq!(
        FetchError::PlanTransportFailed(String::from("timed out")).message(),
        String::from("Simbrief flight plan download failed: timed out")
    );
    assert_eq!(
        FetchError::PlanBodyUndecodable(String::from("bad encoding")).message(),
        String::from("Simbrief flight plan is not a string: bad encoding")
    );
    assert_eq!(
        FetchError::MetadataBodyUndecodable(String::from("bad encoding")).message(),
        String::from("Simbrief JSON is not a string: bad encoding")
    );
    assert_eq!(
        FetchError::MetadataParseFailed(String::from("expected value at line 1")).message(),
        String::from("Simbrief JSON parsing failed: expected value at line 1")
    );
    assert_eq!(
        FetchError::ConfigError(String::from("/sim/username.txt"), String::from("not found"))
            .message(),
        String::from("Cannot read config file: /sim/username.txt")
    );
}

use pbar::response::conclude;
use pbar::response::log_header;
use pbar::response::log_record;
use pbar::response::respond;
use pbar::response::Outcome;
use pbar::response::OutcomeClass;
use pbar::response::Severity;
use pbar::response::ValidationError;

#[test]
fn an_image_is_answered_with_200() {
    let response = respond(Outcome::Rendered("<svg/>".to_string()));
    assert_eq!(response.status, 200);
    assert_eq!(response.content_type, "image/svg+xml; charset=utf-8");
    assert_eq!(response.body, "<svg/>");
}

#[test]
fn a_render_failure_is_answered_with_400() {
    let response = respond(Outcome::RenderFailed("{\"progress\": 1.0}".to_string()));
    assert_eq!(response.status, 400);
    assert_eq!(response.content_type, "text/plain; charset=utf-8");
    assert_eq!(
        response.body,
        "Failed to construct progress bar with parameters: {\"progress\": 1.0}"
    );
}

#[test]
fn a_missing_template_is_answered_with_500() {
    let response = respond(Outcome::TemplateMissing("template not found".to_string()));
    assert_eq!(response.status, 500);
    assert_eq!(response.content_type, "text/plain; charset=utf-8");
    assert_eq!(
        response.body,
        "Failed to find template. It probably a bug. Please report it to the Developer. template not found"
    );
}

#[test]
fn a_missing_progress_is_answered_with_400() {
    let response = respond(Outcome::Invalid(ValidationError::MissingProgress));
    assert_eq!(response.status, 400);
    assert_eq!(response.content_type, "text/plain; charset=utf-8");
    assert_eq!(response.body, "Missing required query parameter: progress");
    assert_eq!(
        ValidationError::MissingProgress.message(),
        "Missing required query parameter: progress"
    );
}

#[test]
fn outcomes_fall_into_three_classes() {
    assert_eq!(Outcome::Rendered(String::new()).class(), OutcomeClass::Success);
    assert_eq!(Outcome::RenderFailed(String::new()).class(), OutcomeClass::ClientError);
    assert_eq!(
        Outcome::Invalid(ValidationError::MissingProgress).class(),
        OutcomeClass::ClientError
    );
    assert_eq!(Outcome::TemplateMissing(String::new()).class(), OutcomeClass::ServerError);
}

#[test]
fn the_header_names_peer_and_target() {
    assert_eq!(
        log_header(Some("10.0.0.7"), "/?progress=50"),
        "request from 10.0.0.7 with query /?progress=50"
    );
}

#[test]
fn an_unknown_peer_gets_the_sentinel() {
    assert_eq!(log_header(None, "/"), "request from <UNKNOWN> with query /");
}

#[test]
fn a_success_is_logged_as_information() {
    let record = log_record("request from a with query /", &Outcome::Rendered("x".to_string()));
    assert_eq!(record.severity, Severity::Info);
    assert_eq!(record.message, "request from a with query / - OK");
}

#[test]
fn failures_are_logged_as_errors() {
    let record = log_record("h", &Outcome::RenderFailed("p".to_string()));
    assert_eq!(record.severity, Severity::Error);
    assert_eq!(record.message, "h - Failed. Probably bad query parameters");

    let record = log_record("h", &Outcome::TemplateMissing("gone".to_string()));
    assert_eq!(record.severity, Severity::Error);
    assert_eq!(
        record.message,
        "h -> Failed to find template. It probably a bug. Please report it to the Developer. gone"
    );

    let record = log_record("h", &Outcome::Invalid(ValidationError::MissingProgress));
    assert_eq!(record.severity, Severity::Error);
    assert_eq!(record.message, "h - Refused. Missing required query parameter: progress");
}

#[test]
fn conclude_gives_response_and_record_together() {
    let served = conclude("h", Outcome::Rendered("<svg/>".to_string()));
    assert_eq!(served.response.status, 200);
    assert_eq!(served.response.body, "<svg/>");
    assert_eq!(served.record.severity, Severity::Info);
    assert_eq!(served.record.message, "h - OK");
}

#[test]
fn an_unreadable_query_is_answered_with_400() {
    let error = ValidationError::Unreadable("no number".to_string());
    assert_eq!(error.message(), "Failed to read the query parameters: no number");
    let outcome = Outcome::Invalid(ValidationError::Unreadable("no number".to_string()));
    assert_eq!(outcome.class(), OutcomeClass::ClientError);
    let response = respond(outcome);
    assert_eq!(response.status, 400);
    assert_eq!(response.content_type, "text/plain; charset=utf-8");
    assert_eq!(response.body, "Failed to read the query parameters: no number");
}

//! What a request comes to, and the response and log record that follow
//! from it.

use vstd::prelude::*;
use vstd::string::*;

verus! {

pub const STATUS_OK: u16 = 200;

pub const STATUS_BAD_REQUEST: u16 = 400;

pub const STATUS_INTERNAL_SERVER_ERROR: u16 = 500;

pub const SVG_CONTENT_TYPE: &'static str = "image/svg+xml; charset=utf-8";

pub const TEXT_CONTENT_TYPE: &'static str = "text/plain; charset=utf-8";

pub const MISSING_PROGRESS_MESSAGE: &'static str = "Missing required query parameter: progress";

pub const UNREADABLE_QUERY_MESSAGE: &'static str = "Failed to read the query parameters: ";

pub const RENDER_FAILURE_MESSAGE: &'static str =
    "Failed to construct progress bar with parameters: ";

pub const TEMPLATE_MISSING_MESSAGE: &'static str =
    "Failed to find template. It probably a bug. Please report it to the Developer. ";

/// Stands in the log for a request whose source address is not known.
pub const UNKNOWN_PEER: &'static str = "<UNKNOWN>";

/// Why the arguments of a request were refused.
#[derive(Debug)]
pub enum ValidationError {
    /// The request names no `progress`.
    MissingProgress,
    /// The query could not be read, as where a number is no number; the
    /// text is the reader's report, which names what it stumbled on.
    Unreadable(String),
}

/// A `ValidationError` with its text as a sequence of characters.
pub enum ValidationErrorView {
    MissingProgress,
    Unreadable(Seq<char>),
}

impl View for ValidationError {
    type V = ValidationErrorView;

    open spec fn view(&self) -> ValidationErrorView {
        match self {
            ValidationError::MissingProgress => ValidationErrorView::MissingProgress,
            ValidationError::Unreadable(report) => ValidationErrorView::Unreadable(report@),
        }
    }
}

/// How the handling of one request ended.
#[derive(Debug)]
pub enum Outcome {
    /// The template rendered to this image.
    Rendered(String),
    /// The arguments were refused before anything was derived.
    Invalid(ValidationError),
    /// The store holds no template under the expected name; the text is
    /// the engine's report.
    TemplateMissing(String),
    /// The template could not be rendered with these parameters.
    RenderFailed(String),
}

/// An `Outcome` with its texts as sequences of characters.
pub enum OutcomeView {
    Rendered(Seq<char>),
    Invalid(ValidationErrorView),
    TemplateMissing(Seq<char>),
    RenderFailed(Seq<char>),
}

impl View for Outcome {
    type V = OutcomeView;

    open spec fn view(&self) -> OutcomeView {
        match self {
            Outcome::Rendered(image) => OutcomeView::Rendered(image@),
            Outcome::Invalid(error) => OutcomeView::Invalid(error@),
            Outcome::TemplateMissing(report) => OutcomeView::TemplateMissing(report@),
            Outcome::RenderFailed(parameters) => OutcomeView::RenderFailed(parameters@),
        }
    }
}

/// Status, content type and body of an HTTP response.
#[derive(Debug)]
pub struct Response {
    pub status: u16,
    pub content_type: String,
    pub body: String,
}

pub struct ResponseView {
    pub status: u16,
    pub content_type: Seq<char>,
    pub body: Seq<char>,
}

impl View for Response {
    type V = ResponseView;

    open spec fn view(&self) -> ResponseView {
        ResponseView { status: self.status, content_type: self.content_type@, body: self.body@ }
    }
}

#[derive(Clone, Copy, Debug, PartialEq, Eq, Structural)]
pub enum Severity {
    Info,
    Error,
}

/// The one log record of a request.
#[derive(Debug)]
pub struct LogRecord {
    pub severity: Severity,
    pub message: String,
}

pub struct LogRecordView {
    pub severity: Severity,
    pub message: Seq<char>,
}

impl View for LogRecord {
    type V = LogRecordView;

    open spec fn view(&self) -> LogRecordView {
        LogRecordView { severity: self.severity, message: self.message@ }
    }
}

/// A response and the log record that goes with it.
#[derive(Debug)]
pub struct Served {
    pub response: Response,
    pub record: LogRecord,
}

/// Success, a fault of the client, or a fault of the server.
#[derive(Clone, Copy, Debug, PartialEq, Eq, Structural)]
pub enum OutcomeClass {
    Success,
    ClientError,
    ServerError,
}

impl OutcomeView {
    pub open spec fn class(self) -> OutcomeClass {
        match self {
            OutcomeView::Rendered(_) => OutcomeClass::Success,
            OutcomeView::Invalid(_) => OutcomeClass::ClientError,
            OutcomeView::TemplateMissing(_) => OutcomeClass::ServerError,
            OutcomeView::RenderFailed(_) => OutcomeClass::ClientError,
        }
    }
}

pub open spec fn validation_message(error: ValidationErrorView) -> Seq<char> {
    match error {
        ValidationErrorView::MissingProgress => MISSING_PROGRESS_MESSAGE@,
        ValidationErrorView::Unreadable(report) => UNREADABLE_QUERY_MESSAGE@ + report,
    }
}

/// The response that an outcome is answered with: the image with status
/// 200, or a diagnostic text with status 400 for a fault of the client and
/// 500 for a missing template.
pub open spec fn response_for(outcome: OutcomeView) -> ResponseView {
    match outcome {
        OutcomeView::Rendered(image) => ResponseView {
            status: STATUS_OK,
            content_type: SVG_CONTENT_TYPE@,
            body: image,
        },
        OutcomeView::Invalid(error) => ResponseView {
            status: STATUS_BAD_REQUEST,
            content_type: TEXT_CONTENT_TYPE@,
            body: validation_message(error),
        },
        OutcomeView::TemplateMissing(report) => ResponseView {
            status: STATUS_INTERNAL_SERVER_ERROR,
            content_type: TEXT_CONTENT_TYPE@,
            body: TEMPLATE_MISSING_MESSAGE@ + report,
        },
        OutcomeView::RenderFailed(parameters) => ResponseView {
            status: STATUS_BAD_REQUEST,
            content_type: TEXT_CONTENT_TYPE@,
            body: RENDER_FAILURE_MESSAGE@ + parameters,
        },
    }
}

/// Who asked for what: the start of every log message.
pub open spec fn log_header_text(peer: Option<Seq<char>>, target: Seq<char>) -> Seq<char> {
    let source = match peer {
        Some(address) => address,
        None => UNKNOWN_PEER@,
    };
    "request from "@ + source + " with query "@ + target
}

pub open spec fn log_detail(outcome: OutcomeView) -> Seq<char> {
    match outcome {
        OutcomeView::Rendered(_) => " - OK"@,
        OutcomeView::Invalid(error) => " - Refused. "@ + validation_message(error),
        OutcomeView::TemplateMissing(report) => " -> "@ + TEMPLATE_MISSING_MESSAGE@ + report,
        OutcomeView::RenderFailed(_) => " - Failed. Probably bad query parameters"@,
    }
}

/// The log record of an outcome: informational for a success, an error
/// otherwise, the message made of the header and what happened.
pub open spec fn record_for(header: Seq<char>, outcome: OutcomeView) -> LogRecordView {
    LogRecordView {
        severity: if outcome.class() == OutcomeClass::Success {
            Severity::Info
        } else {
            Severity::Error
        },
        message: header + log_detail(outcome),
    }
}

impl ValidationError {
    pub fn message(&self) -> (text: String)
        ensures
            text@ == validation_message(self@),
    {
        match self {
            ValidationError::MissingProgress => MISSING_PROGRESS_MESSAGE.to_owned(),
            ValidationError::Unreadable(report) => {
                let mut text = UNREADABLE_QUERY_MESSAGE.to_owned();
                text.append(report.as_str());
                text
            },
        }
    }
}

impl Outcome {
    pub fn class(&self) -> (class: OutcomeClass)
        ensures
            class == self@.class(),
    {
        match self {
            Outcome::Rendered(_) => OutcomeClass::Success,
            Outcome::Invalid(_) => OutcomeClass::ClientError,
            Outcome::TemplateMissing(_) => OutcomeClass::ServerError,
            Outcome::RenderFailed(_) => OutcomeClass::ClientError,
        }
    }
}

/// The start of the log message of a request from `peer` for `target`.
pub fn log_header(peer: Option<&str>, target: &str) -> (header: String)
    ensures
        header@ == log_header_text(
            match peer {
                Some(address) => Some(address@),
                None => None,
            },
            target@,
        ),
{
    let mut header = "request from ".to_owned();
    match peer {
        Some(address) => header.append(address),
        None => header.append(UNKNOWN_PEER),
    }
    header.append(" with query ");
    header.append(target);
    header
}

/// The log record of `outcome` under the header of its request.
pub fn log_record(header: &str, outcome: &Outcome) -> (record: LogRecord)
    ensures
        record@ == record_for(header@, outcome@),
{
    let mut message = header.to_owned();
    match outcome {
        Outcome::Rendered(_) => {
            message.append(" - OK");
        },
        Outcome::Invalid(error) => {
            let mut detail = " - Refused. ".to_owned();
            detail.append(error.message().as_str());
            message.append(detail.as_str());
        },
        Outcome::TemplateMissing(report) => {
            let mut detail = " -> ".to_owned();
            detail.append(TEMPLATE_MISSING_MESSAGE);
            detail.append(report.as_str());
            message.append(detail.as_str());
        },
        Outcome::RenderFailed(_) => {
            message.append(" - Failed. Probably bad query parameters");
        },
    }
    let severity = match outcome {
        Outcome::Rendered(_) => Severity::Info,
        _ => Severity::Error,
    };
    LogRecord { severity, message }
}

/// The response to `outcome`.
pub fn respond(outcome: Outcome) -> (response: Response)
    ensures
        response@ == response_for(outcome@),
{
    match outcome {
        Outcome::Rendered(image) => Response {
            status: STATUS_OK,
            content_type: SVG_CONTENT_TYPE.to_owned(),
            body: image,
        },
        Outcome::Invalid(error) => Response {
            status: STATUS_BAD_REQUEST,
            content_type: TEXT_CONTENT_TYPE.to_owned(),
            body: error.message(),
        },
        Outcome::TemplateMissing(report) => {
            let mut body = TEMPLATE_MISSING_MESSAGE.to_owned();
            body.append(report.as_str());
            Response {
                status: STATUS_INTERNAL_SERVER_ERROR,
                content_type: TEXT_CONTENT_TYPE.to_owned(),
                body,
            }
        },
        Outcome::RenderFailed(parameters) => {
            let mut body = RENDER_FAILURE_MESSAGE.to_owned();
            body.append(parameters.as_str());
            Response {
                status: STATUS_BAD_REQUEST,
                content_type: TEXT_CONTENT_TYPE.to_owned(),
                body,
            }
        },
    }
}

/// Response and log record of `outcome` for the request that `header`
/// describes.
pub fn conclude(header: &str, outcome: Outcome) -> (served: Served)
    ensures
        served.response@ == response_for(outcome@),
        served.record@ == record_for(header@, outcome@),
{
    let record = log_record(header, &outcome);
    Served { response: respond(outcome), record }
}

/// Every outcome has one status, and the status tells its class: 200 for a
/// success, 400 for a fault of the client, 500 for a fault of the server.
/// Only a success is an image, and only a success is logged as information.
pub proof fn lemma_status_tells_the_class(header: Seq<char>, outcome: OutcomeView)
    ensures
        outcome.class() == OutcomeClass::Success <==> response_for(outcome).status == STATUS_OK,
        outcome.class() == OutcomeClass::ClientError <==> response_for(outcome).status
            == STATUS_BAD_REQUEST,
        outcome.class() == OutcomeClass::ServerError <==> response_for(outcome).status
            == STATUS_INTERNAL_SERVER_ERROR,
        response_for(outcome).content_type == if outcome.class() == OutcomeClass::Success {
            SVG_CONTENT_TYPE@
        } else {
            TEXT_CONTENT_TYPE@
        },
        record_for(header, outcome).severity == Severity::Info <==> outcome.class()
            == OutcomeClass::Success,
{
}

} // verus!

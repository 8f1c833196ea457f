//! The handling of one request: validate, derive the fields, render, and
//! answer. Whatever fails ends the handling with the answer for that failure.

use vstd::prelude::*;
use crate::fields::derived_fields;
use crate::fields::extract_template_fields;
use crate::fields::field_entries;
use crate::fields::fields_view;
use crate::fields::Field;
use crate::fields::RenderContext;
use crate::fields::RenderContextView;
use crate::request::reading_view;
use crate::request::validate;
use crate::request::validated;
use crate::request::RawQueryArgs;
use crate::request::RawQueryArgsView;
use crate::response::conclude;
use crate::response::record_for;
use crate::response::response_for;
use crate::response::Outcome;
use crate::response::OutcomeView;
use crate::response::Served;
use crate::response::ValidationError;
use crate::response::ValidationErrorView;
use crate::response::STATUS_BAD_REQUEST;
use crate::response::STATUS_OK;
use crate::response::TEXT_CONTENT_TYPE;
use crate::response::UNREADABLE_QUERY_MESSAGE;
use crate::store::TemplateStore;

verus! {

/// What the first half of the handling comes to: the fields to render, or
/// the outcome that ends the handling.
pub open spec fn prepared(query: Result<RawQueryArgsView, Seq<char>>) -> Result<
    RenderContextView,
    OutcomeView,
> {
    match query {
        Ok(raw) => match validated(raw) {
            Ok(query) => Ok(derived_fields(query)),
            Err(error) => Err(OutcomeView::Invalid(error)),
        },
        Err(report) => Err(OutcomeView::Invalid(ValidationErrorView::Unreadable(report))),
    }
}

/// `served` is the answer to `outcome` for the request that `header`
/// describes.
pub open spec fn answers(served: Served, header: Seq<char>, outcome: OutcomeView) -> bool {
    &&& served.response@ == response_for(outcome)
    &&& served.record@ == record_for(header, outcome)
}

/// Validates the arguments and derives the fields to render. A request
/// whose query could not be read, or which names no `progress`, is answered
/// at once.
pub fn prepare(query: Result<RawQueryArgs, String>, header: &str) -> (result: Result<
    RenderContext,
    Served,
>)
    ensures
        match prepared(reading_view(query)) {
            Ok(fields) => result is Ok && result->Ok_0@ == fields,
            Err(outcome) => result is Err && answers(result->Err_0, header@, outcome),
        },
{
    let validation = match query {
        Ok(raw) => validate(raw),
        Err(report) => Err(ValidationError::Unreadable(report)),
    };
    match validation {
        Ok(query) => Ok(extract_template_fields(query)),
        Err(error) => Err(conclude(header, Outcome::Invalid(error))),
    }
}

/// What a request that was not refused is answered with, where `encode`
/// made `value` of its `fields`: the answer to what the rendering of the
/// stored template with `value` comes to.
pub open spec fn renders<F: FnOnce(Vec<Field>) -> minijinja::value::Value>(
    served: Served,
    store: TemplateStore,
    header: Seq<char>,
    encode: F,
    context: RenderContextView,
    fields: Vec<Field>,
    value: minijinja::value::Value,
) -> bool {
    &&& fields_view(fields@) == field_entries(context)
    &&& encode.ensures((fields,), value)
    &&& answers(served, header, store.outcome_for(value))
}

/// Handles one request. `query` holds the arguments as they were read,
/// or the reader's report where they could not be read. The arguments are
/// validated and completed to the fields, `encode` makes of the named fields
/// a value of the engine, the stored template is rendered with it, and the
/// answer is the image or the failure to render. A request whose query could
/// not be read, or which names no `progress`, is answered at once, with
/// status 400: nothing is encoded and nothing rendered.
pub fn serve_progress_svg_image<F: FnOnce(Vec<Field>) -> minijinja::value::Value>(
    store: &TemplateStore,
    query: Result<RawQueryArgs, String>,
    header: &str,
    encode: F,
) -> (served: Served)
    requires
        forall|fields: Vec<Field>| encode.requires((fields,)),
    ensures
        match prepared(reading_view(query)) {
            Err(outcome) => answers(served, header@, outcome),
            Ok(context) => exists|fields: Vec<Field>, value: minijinja::value::Value| #[trigger]
                renders(served, *store, header@, encode, context, fields, value),
        },
        query is Err || query->Ok_0.progress is None ==> served.response.status
            == STATUS_BAD_REQUEST,
        served.response.status == STATUS_OK || served.response.status == STATUS_BAD_REQUEST,
{
    match prepare(query, header) {
        Ok(context) => {
            let ghost derived = context@;
            let fields = context.entries();
            let ghost given = fields;
            let value = encode(fields);
            let outcome = store.render(&value);
            let served = conclude(header, outcome);
            assert(renders(served, *store, header@, encode, derived, given, value));
            served
        },
        Err(served) => served,
    }
}

/// A request without `progress` is answered with status 400 and a plain
/// text, whatever else it names.
pub proof fn lemma_missing_progress_is_a_bad_request(raw: RawQueryArgsView)
    requires
        raw.progress is None,
    ensures
        prepared(Ok(raw)) == Err::<RenderContextView, OutcomeView>(
            OutcomeView::Invalid(ValidationErrorView::MissingProgress),
        ),
        response_for(prepared(Ok(raw))->Err_0).status == STATUS_BAD_REQUEST,
        response_for(prepared(Ok(raw))->Err_0).content_type == TEXT_CONTENT_TYPE@,
{
}

/// A request whose query could not be read is answered with status 400
/// and a plain text that holds the reader's report.
pub proof fn lemma_unreadable_query_is_a_bad_request(report: Seq<char>)
    ensures
        prepared(Err(report)) == Err::<RenderContextView, OutcomeView>(
            OutcomeView::Invalid(ValidationErrorView::Unreadable(report)),
        ),
        response_for(prepared(Err(report))->Err_0).status == STATUS_BAD_REQUEST,
        response_for(prepared(Err(report))->Err_0).content_type == TEXT_CONTENT_TYPE@,
        response_for(prepared(Err(report))->Err_0).body == UNREADABLE_QUERY_MESSAGE@ + report,
{
}

/// A request that was read and names a `progress` is never refused: its
/// fields are derived.
pub proof fn lemma_progress_is_enough(raw: RawQueryArgsView)
    requires
        raw.progress is Some,
    ensures
        prepared(Ok(raw)) is Ok,
        prepared(Ok(raw))->Ok_0.progress == raw.progress->Some_0,
{
}

/// Two requests with equal queries are answered alike, byte for byte,
/// whoever sent them: a refusal depends on the query alone, and an answer
/// with a rendering on the stored template and on the value that was made of
/// the fields. Said of requests for whose equal fields equal values were made.
pub proof fn lemma_equal_queries_are_answered_alike<F: FnOnce(Vec<Field>) -> minijinja::value::Value>(
    store: TemplateStore,
    query: Result<RawQueryArgsView, Seq<char>>,
    encode: F,
    first: Served,
    first_header: Seq<char>,
    second: Served,
    second_header: Seq<char>,
    fields: Vec<Field>,
    value: minijinja::value::Value,
)
    requires
        match prepared(query) {
            Err(outcome) => answers(first, first_header, outcome) && answers(
                second,
                second_header,
                outcome,
            ),
            Ok(context) => renders(first, store, first_header, encode, context, fields, value)
                && renders(second, store, second_header, encode, context, fields, value),
        },
    ensures
        first.response@ == second.response@,
{
}

} // verus!

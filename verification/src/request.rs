//! The arguments of a request as they arrive, and the one rule that admits
//! them: `progress` is required.

use vstd::prelude::*;
use crate::fields::text_view;
use crate::fields::QueryArgs;
use crate::fields::QueryArgsView;
use crate::number::Number;
use crate::response::ValidationError;
use crate::response::ValidationErrorView;

verus! {

/// The arguments of a request before validation: every one may be absent.
#[derive(Debug)]
pub struct RawQueryArgs {
    pub title: Option<String>,
    pub title_width: Option<i32>,
    pub title_color: Option<String>,
    pub scale: Option<Number>,
    pub progress: Option<Number>,
    pub progress_width: Option<i32>,
    pub progress_color: Option<String>,
    pub suffix: Option<String>,
}

/// A `RawQueryArgs` with its texts as sequences of characters.
pub struct RawQueryArgsView {
    pub title: Option<Seq<char>>,
    pub title_width: Option<i32>,
    pub title_color: Option<Seq<char>>,
    pub scale: Option<Number>,
    pub progress: Option<Number>,
    pub progress_width: Option<i32>,
    pub progress_color: Option<Seq<char>>,
    pub suffix: Option<Seq<char>>,
}

impl View for RawQueryArgs {
    type V = RawQueryArgsView;

    open spec fn view(&self) -> RawQueryArgsView {
        RawQueryArgsView {
            title: text_view(self.title),
            title_width: self.title_width,
            title_color: text_view(self.title_color),
            scale: self.scale,
            progress: self.progress,
            progress_width: self.progress_width,
            progress_color: text_view(self.progress_color),
            suffix: text_view(self.suffix),
        }
    }
}

/// The arguments that validation admits: those of a request with a
/// `progress`, unchanged.
pub open spec fn validated(raw: RawQueryArgsView) -> Result<QueryArgsView, ValidationErrorView> {
    match raw.progress {
        Some(progress) => Ok(
            QueryArgsView {
                title: raw.title,
                title_width: raw.title_width,
                title_color: raw.title_color,
                scale: raw.scale,
                progress,
                progress_width: raw.progress_width,
                progress_color: raw.progress_color,
                suffix: raw.suffix,
            },
        ),
        None => Err(ValidationErrorView::MissingProgress),
    }
}

pub open spec fn validation_view(result: Result<QueryArgs, ValidationError>) -> Result<
    QueryArgsView,
    ValidationErrorView,
> {
    match result {
        Ok(query) => Ok(query@),
        Err(error) => Err(error@),
    }
}

/// The arguments of a request as they were read, or the reader's report
/// where they could not be read, with texts as sequences of characters.
pub open spec fn reading_view(query: Result<RawQueryArgs, String>) -> Result<
    RawQueryArgsView,
    Seq<char>,
> {
    match query {
        Ok(raw) => Ok(raw@),
        Err(report) => Err(report@),
    }
}

/// Admits a request that names a `progress` and refuses any other.
pub fn validate(raw: RawQueryArgs) -> (result: Result<QueryArgs, ValidationError>)
    ensures
        validation_view(result) == validated(raw@),
{
    match raw.progress {
        Some(progress) => Ok(
            QueryArgs {
                title: raw.title,
                title_width: raw.title_width,
                title_color: raw.title_color,
                scale: raw.scale,
                progress,
                progress_width: raw.progress_width,
                progress_color: raw.progress_color,
                suffix: raw.suffix,
            },
        ),
        None => Err(ValidationError::MissingProgress),
    }
}

} // verus!

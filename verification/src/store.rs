//! The template store: one template, loaded once under a fixed name into a
//! minijinja environment and rendered for every request.

use vstd::prelude::*;
use crate::response::Outcome;
use crate::response::OutcomeView;
use crate::template::is_supported;
use crate::template::supported;

verus! {

/// The name under which the store keeps its template.
pub const TEMPLATE_NAME: &'static str = "pbar_template";

/// The built-in template: a bar of `progress_width` beside a title of
/// `title_width`, filled in `progress_color` up to `progress / scale`. It
/// needs a filter `int` that truncates a number to an integer.
pub const DEFAULT_TEMPLATE: &'static str = "<?xml version=\"1.0\" encoding=\"UTF-8\"?>
<svg xmlns=\"http://www.w3.org/2000/svg\" width=\"{{ title_width + progress_width }}\" height=\"20\" version=\"1.1\" preserveAspectRatio=\"xMidYMid\">
  <linearGradient id=\"shade\" x2=\"0\" y2=\"100%\">
    <stop offset=\"0\" stop-color=\"#bbb\" stop-opacity=\".1\"/>
    <stop offset=\"1\" stop-opacity=\".1\"/>
  </linearGradient>
  <rect rx=\"4\" x=\"0\" width=\"{{ title_width + progress_width }}\" height=\"20\" fill=\"{{ title_color }}\"/>
  <rect rx=\"4\" x=\"{{ title_width }}\" width=\"{{ progress_width }}\" height=\"20\" fill=\"#555\"/>
  <rect rx=\"4\" x=\"{{ title_width }}\" width=\"{{ (progress / scale * progress_width) | int }}\" height=\"20\" fill=\"{{ progress_color }}\"/>
{%- if title %}
  <path fill=\"{{ progress_color }}\" d=\"M{{ title_width }} 0h4v20h-4z\"/>
{%- endif %}
  <rect rx=\"4\" width=\"{{ title_width + progress_width }}\" height=\"20\" fill=\"url(#shade)\"/>
{%- if title %}
  <g fill=\"#fff\" text-anchor=\"start\" font-family=\"DejaVu Sans,Verdana,Geneva,sans-serif\" font-size=\"11\">
    <text x=\"4\" y=\"15\" fill=\"#010101\" fill-opacity=\".3\">{{ title }}</text>
    <text x=\"4\" y=\"14\">{{ title }}</text>
  </g>
{%- endif %}
  <g fill=\"#fff\" text-anchor=\"middle\" font-family=\"DejaVu Sans,Verdana,Geneva,sans-serif\" font-size=\"11\">
    <text x=\"{{ (progress_width / 2 + title_width) | int }}\" y=\"15\" fill=\"#010101\" fill-opacity=\".3\">{{ progress | int }}{{ suffix }}</text>
    <text x=\"{{ (progress_width / 2 + title_width) | int }}\" y=\"14\">{{ progress | int }}{{ suffix }}</text>
  </g>
</svg>
";

/// `minijinja::Environment`: filters, functions and templates of the
/// engine. Nothing is known of what it holds but through
/// `environment_templates`.
#[verifier::external_type_specification]
#[verifier::external_body]
pub struct ExEnvironment<'source>(minijinja::Environment<'source>);

/// `minijinja::Source`: templates that own their text. Nothing is known of
/// what it holds but through `source_templates`.
#[verifier::external_type_specification]
#[verifier::external_body]
pub struct ExSource(minijinja::Source);

/// `minijinja::Template`: a handle to a template in an environment.
#[verifier::external_type_specification]
#[verifier::external_body]
pub struct ExTemplate<'env>(minijinja::Template<'env>);

/// `minijinja::value::Value`: a value of the engine, here the fields of a
/// request. It is carried to the engine unread.
#[verifier::external_type_specification]
#[verifier::external_body]
pub struct ExValue(minijinja::value::Value);

/// `minijinja::Error`: the engine's report of a failure.
#[verifier::external_type_specification]
#[verifier::external_body]
pub struct ExError(minijinja::Error);

/// The names of the templates that were added to a source and not removed.
pub uninterp spec fn source_templates(source: minijinja::Source) -> Set<Seq<char>>;

/// Every text that a lookup in a source can give: the texts of the
/// templates it holds, and every text whatsoever where it loads on demand.
pub uninterp spec fn source_texts(source: minijinja::Source) -> Set<Seq<char>>;

/// The names of the templates that an environment has from its source.
pub uninterp spec fn environment_templates(environment: minijinja::Environment<'static>) -> Set<
    Seq<char>,
>;

/// Every text that a lookup in an environment can give: the texts of the
/// templates it holds, and every text whatsoever where its source loads on
/// demand.
pub uninterp spec fn environment_texts(environment: minijinja::Environment<'static>) -> Set<
    Seq<char>,
>;

/// Every text that the rendering of a template can reach: its own and
/// those of the templates it may include, which are the texts that a lookup
/// in its environment can give.
pub uninterp spec fn template_texts(template: minijinja::Template<'_>) -> Set<Seq<char>>;

/// `minijinja::Source::new`: a source that holds no template.
#[verifier::external_body]
fn empty_source() -> (source: minijinja::Source)
    ensures
        source_templates(source) == Set::<Seq<char>>::empty(),
        source_texts(source) == Set::<Seq<char>>::empty(),
{
    minijinja::Source::new()
}

/// What rendering the template that an environment holds under a name
/// gives for a value: the rendered text, or nothing where the rendering
/// fails. The engine renders the same text from the same template, filters
/// and value; the name claims as much of the filters and of the values that
/// the caller brings.
pub uninterp spec fn rendering(
    environment: minijinja::Environment<'static>,
    name: Seq<char>,
    value: minijinja::value::Value,
) -> Option<Seq<char>>;

/// What rendering a template gives for a value: the rendered text, or
/// nothing where the rendering fails.
pub uninterp spec fn template_rendering(
    template: minijinja::Template<'_>,
    value: minijinja::value::Value,
) -> Option<Seq<char>>;

/// The text that `Display` gives for a value of the engine.
pub uninterp spec fn displayed(value: minijinja::value::Value) -> Seq<char>;

/// The text that `Display` gives for an error of the engine.
pub uninterp spec fn reported(error: minijinja::Error) -> Seq<char>;

/// What the engine reports where it does not compile `text` as the
/// template `name`: the kind of the error, what it stumbled on, and the line.
pub uninterp spec fn compile_report(name: Seq<char>, text: Seq<char>) -> Seq<char>;

/// Whether minijinja compiles `text` as the template `name`: it has no
/// syntax error. Compiling reads the name and the text and nothing else.
pub uninterp spec fn template_compiles(name: Seq<char>, text: Seq<char>) -> bool;

/// `minijinja::Source::add_template`: compiles `text` and, where that
/// succeeds, keeps it under `name`, in place of what the name stood for; a
/// text that does not compile leaves the source as it was and gives the
/// compiler's error. The text has to
/// be one the store takes: the compiler descends once for every operator of
/// an expression, and such a text has none longer than a block may be.
#[verifier::external_body]
fn add_template(source: &mut minijinja::Source, name: &str, text: String) -> (result: Result<
    (),
    minijinja::Error,
>)
    requires
        supported(text@),
    ensures
        result is Ok <==> template_compiles(name@, text@),
        result is Ok ==> source_templates(*final(source)) == source_templates(*old(source)).insert(
            name@,
        ),
        result is Ok ==> source_texts(*final(source)).subset_of(
            source_texts(*old(source)).insert(text@),
        ),
        result is Err ==> source_templates(*final(source)) == source_templates(*old(source)),
        result is Err ==> source_texts(*final(source)) == source_texts(*old(source)),
        result matches Err(error) ==> reported(error) == compile_report(name@, text@),
{
    source.add_template(name, text)
}

/// `minijinja::Environment::set_source`: the environment's templates
/// become those of `source`.
#[verifier::external_body]
fn set_source(environment: &mut minijinja::Environment<'static>, source: minijinja::Source)
    ensures
        environment_templates(*final(environment)) == source_templates(source),
        environment_texts(*final(environment)) == source_texts(source),
{
    environment.set_source(source)
}

/// `minijinja::Environment::get_template`: a template that the environment
/// has from its source is found, what its rendering can reach is what a
/// lookup in the environment can give, and it renders as the template held
/// under `name` does. Nothing is claimed of whether other names are found.
#[verifier::external_body]
fn get_template<'a>(environment: &'a minijinja::Environment<'static>, name: &str) -> (result:
    Result<minijinja::Template<'a>, minijinja::Error>)
    ensures
        environment_templates(*environment).contains(name@) ==> result is Ok,
        result matches Ok(template) ==> template_texts(template) == environment_texts(
            *environment,
        ),
        result matches Ok(template) ==> forall|value: minijinja::value::Value| #[trigger]
            template_rendering(template, value) == rendering(*environment, name@, value),
{
    environment.get_template(name)
}

/// `minijinja::Template::render`, with a value as the context: the text
/// that the rendering of the template gives for the value, or the engine's
/// error where it gives none. Every text within reach has to be one the store
/// takes: the engine's whole-number division and the `cycle` of its loops do
/// not return for some operands, and such texts hold neither, nor an
/// expression longer than a block may be.
#[verifier::external_body]
fn render_template(template: &minijinja::Template<'_>, context: &minijinja::value::Value) -> (result:
    Result<String, minijinja::Error>)
    requires
        forall|text: Seq<char>| #[trigger] template_texts(*template).contains(text) ==> supported(text),
    ensures
        match result {
            Ok(text) => template_rendering(*template, *context) == Some(text@),
            Err(_) => template_rendering(*template, *context) is None,
        },
{
    template.render(context)
}

/// The text that `Display` of `minijinja::Error` gives.
#[verifier::external_body]
fn error_text(error: &minijinja::Error) -> (text: String)
    ensures
        text@ == reported(*error),
{
    format!("{}", error)
}

/// The text that `Display` of `minijinja::value::Value` gives.
#[verifier::external_body]
fn value_text(value: &minijinja::value::Value) -> (text: String)
    ensures
        text@ == displayed(*value),
{
    format!("{}", value)
}

/// Why no store could be made.
#[derive(Debug)]
pub enum StartupError {
    /// The template's text holds what the store does not take.
    UnsupportedTemplate,
    /// The template's text does not compile; the text is the engine's report.
    MalformedTemplate(String),
}

/// What a rendering comes to: the image where the engine gave one, else
/// the failure to render, with the parameters it was tried with.
pub open spec fn outcome_of_rendering(
    rendered: Result<String, minijinja::Error>,
    parameters: Seq<char>,
) -> OutcomeView {
    match rendered {
        Ok(image) => OutcomeView::Rendered(image@),
        Err(_) => OutcomeView::RenderFailed(parameters),
    }
}

/// The outcome of a rendering that gave `rendered`, tried with
/// `parameters`. The engine's report of a failure is not kept.
pub fn rendering_outcome(rendered: Result<String, minijinja::Error>, parameters: String) -> (outcome:
    Outcome)
    ensures
        outcome@ == outcome_of_rendering(rendered, parameters@),
{
    match rendered {
        Ok(image) => Outcome::Rendered(image),
        Err(_) => Outcome::RenderFailed(parameters),
    }
}

/// An environment that holds the service's template under `TEMPLATE_NAME`,
/// and no text but such as the store takes.
pub struct TemplateStore {
    environment: minijinja::Environment<'static>,
}

impl TemplateStore {
    #[verifier::type_invariant]
    spec fn holds_template(self) -> bool {
        &&& environment_templates(self.environment).contains(TEMPLATE_NAME@)
        &&& forall|text: Seq<char>| #[trigger]
            environment_texts(self.environment).contains(text) ==> supported(text)
    }

    /// Makes the store from an environment that brings the filters the
    /// template uses, and from the template's text. Templates that the
    /// environment held before are dropped. A text that the store does not
    /// take is refused before the engine sees it.
    pub fn load(environment: minijinja::Environment<'static>, text: String) -> (result: Result<
        TemplateStore,
        StartupError,
    >)
        ensures
            result is Ok <==> supported(text@) && template_compiles(TEMPLATE_NAME@, text@),
            !supported(text@) ==> result matches Err(StartupError::UnsupportedTemplate),
            supported(text@) && !template_compiles(TEMPLATE_NAME@, text@) ==> (result matches Err(
                StartupError::MalformedTemplate(report),
            ) && report@ == compile_report(TEMPLATE_NAME@, text@)),
    {
        if !is_supported(text.as_str()) {
            return Err(StartupError::UnsupportedTemplate);
        }
        let mut environment = environment;
        let mut source = empty_source();
        match add_template(&mut source, TEMPLATE_NAME, text) {
            Ok(()) => {
                set_source(&mut environment, source);
                Ok(TemplateStore { environment })
            },
            Err(error) => Err(StartupError::MalformedTemplate(error_text(&error))),
        }
    }

    /// What the rendering of the stored template with `value` comes to:
    /// the image where the engine renders one, else the failure to render
    /// with the value as the engine displays it.
    pub closed spec fn outcome_for(&self, value: minijinja::value::Value) -> OutcomeView {
        match rendering(self.environment, TEMPLATE_NAME@, value) {
            Some(image) => OutcomeView::Rendered(image),
            None => OutcomeView::RenderFailed(displayed(value)),
        }
    }

    /// Renders the template with `context`. The template is always found.
    pub fn render(&self, context: &minijinja::value::Value) -> (outcome: Outcome)
        ensures
            outcome@ == self.outcome_for(*context),
            outcome is Rendered || outcome is RenderFailed,
    {
        proof {
            use_type_invariant(self);
        }
        match get_template(&self.environment, TEMPLATE_NAME) {
            Ok(template) => {
                let parameters = value_text(context);
                let rendered = render_template(&template, context);
                rendering_outcome(rendered, parameters)
            },
            Err(error) => Outcome::TemplateMissing(error_text(&error)),
        }
    }

    /// The rendering of the stored template comes to an image or to a
    /// failure to render, never to a missing template.
    pub proof fn lemma_outcome_is_of_rendering(&self, value: minijinja::value::Value)
        ensures
            self.outcome_for(value) is Rendered || self.outcome_for(value) is RenderFailed,
    {
    }
}

} // verus!

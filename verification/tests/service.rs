use std::collections::BTreeMap;

use minijinja::value::Value;
use minijinja::Environment;
use pbar::fields::extract_template_fields;
use pbar::fields::Field;
use pbar::fields::FieldValue;
use pbar::handler::serve_progress_svg_image;
use pbar::number::Number;
use pbar::request::RawQueryArgs;
use pbar::response::Outcome;
use pbar::response::Served;
use pbar::response::Severity;
use pbar::store::rendering_outcome;
use pbar::store::StartupError;
use pbar::store::TemplateStore;
use pbar::store::DEFAULT_TEMPLATE;
use pbar::store::TEMPLATE_NAME;

fn number(value: f32) -> Number {
    Number::from_bits(value.to_bits())
}

fn float_value(number: Number) -> Value {
    Value::from_serializable(&serde_json::Value::from(f32::from_bits(number.to_bits())))
}

fn environment() -> Environment<'static> {
    let mut environment = Environment::new();
    environment.add_filter("int", |x: f32| Number::from_bits(x.to_bits()).truncate());
    environment
}

fn store_of(text: &str) -> TemplateStore {
    TemplateStore::load(environment(), text.to_string()).unwrap()
}

fn to_value(fields: Vec<Field>) -> Value {
    let mut entries: BTreeMap<String, Value> = BTreeMap::new();
    for field in fields {
        let value = match field.value {
            FieldValue::Text(text) => Value::from(text),
            FieldValue::Integer(whole) => match i64::try_from(whole) {
                Ok(small) => Value::from(small),
                Err(_) => Value::from(whole),
            },
            FieldValue::Number(number) => float_value(number),
        };
        entries.insert(field.name, value);
    }
    Value::from(entries)
}

fn request(progress: Option<f32>) -> RawQueryArgs {
    RawQueryArgs {
        title: None,
        title_width: None,
        title_color: None,
        scale: None,
        progress: progress.map(number),
        progress_width: None,
        progress_color: None,
        suffix: None,
    }
}

fn handle(store: &TemplateStore, raw: RawQueryArgs) -> Served {
    serve_progress_svg_image(store, Ok(raw), "request from 127.0.0.1 with query /", to_value)
}

const FIELDS: &str = "{{ title }}|{{ title_width }}|{{ title_color }}|{{ scale }}|{{ progress }}|{{ progress_width }}|{{ progress_color }}|{{ suffix }}";

#[test]
fn the_template_name_is_fixed() {
    assert_eq!(TEMPLATE_NAME, "pbar_template");
}

#[test]
fn a_template_that_compiles_is_loaded() {
    assert!(TemplateStore::load(environment(), "{{ progress }}".to_string()).is_ok());
    assert!(TemplateStore::load(environment(), DEFAULT_TEMPLATE.to_string()).is_ok());
    assert!(TemplateStore::load(environment(), String::new()).is_ok());
}

#[test]
fn a_malformed_template_is_a_startup_error() {
    match TemplateStore::load(environment(), "{% if %}".to_string()) {
        Err(StartupError::MalformedTemplate(report)) => {
            assert!(report.starts_with("syntax error: "), "{}", report);
            assert!(report.ends_with("(in pbar_template:1)"), "{}", report);
        },
        Err(StartupError::UnsupportedTemplate) => panic!("the template was not taken"),
        Ok(_) => panic!("a malformed template was loaded"),
    }
    assert!(TemplateStore::load(environment(), "{{ progress".to_string()).is_err());
}

#[test]
fn loading_replaces_what_the_environment_held() {
    let mut before = environment();
    before.add_template(TEMPLATE_NAME, "old").unwrap();
    let store = TemplateStore::load(before, "new".to_string()).unwrap();
    match store.render(&Value::from(())) {
        Outcome::Rendered(text) => assert_eq!(text, "new"),
        other => panic!("unexpected outcome {:?}", other),
    }
}

#[test]
fn the_stored_template_is_found_and_rendered() {
    let store = store_of("progress is {{ progress }}{{ suffix }}");
    let context = extract_template_fields(pbar::request::validate(request(Some(50.0))).unwrap());
    match store.render(&to_value(context.entries())) {
        Outcome::Rendered(text) => assert_eq!(text, "progress is 50.0%"),
        other => panic!("unexpected outcome {:?}", other),
    }
}

#[test]
fn a_render_failure_reports_the_parameters() {
    let store = store_of("{{ progress | int }}");
    let mut fields: BTreeMap<String, Value> = BTreeMap::new();
    fields.insert("progress".to_string(), Value::from("many"));
    match store.render(&Value::from(fields)) {
        Outcome::RenderFailed(parameters) => assert_eq!(parameters, "{\"progress\": \"many\"}"),
        other => panic!("unexpected outcome {:?}", other),
    }
}

#[test]
fn progress_alone_is_served_with_its_defaults() {
    let served = handle(&store_of(FIELDS), request(Some(50.0)));
    assert_eq!(served.response.status, 200);
    assert_eq!(served.response.content_type, "image/svg+xml; charset=utf-8");
    assert_eq!(served.response.body, "|0|#428bca|100.0|50.0|90|#f0ad4e|%");
    assert_eq!(served.record.severity, Severity::Info);
    assert_eq!(served.record.message, "request from 127.0.0.1 with query / - OK");
}

#[test]
fn a_low_progress_is_served_in_the_low_colour() {
    let served = handle(&store_of(FIELDS), request(Some(20.0)));
    assert_eq!(served.response.status, 200);
    assert_eq!(served.response.body, "|0|#428bca|100.0|20.0|90|#d9534f|%");
}

#[test]
fn a_titled_request_is_served_with_room_for_the_title() {
    let mut raw = request(Some(90.0));
    raw.title = Some("Build".to_string());
    let served = handle(&store_of(FIELDS), raw);
    assert_eq!(served.response.status, 200);
    assert_eq!(served.response.body, "Build|40|#428bca|100.0|90.0|60|#5cb85c|%");
}

#[test]
fn a_request_without_progress_is_answered_with_400() {
    let served = handle(&store_of(FIELDS), request(None));
    assert_eq!(served.response.status, 400);
    assert_eq!(served.response.content_type, "text/plain; charset=utf-8");
    assert_eq!(served.response.body, "Missing required query parameter: progress");
    assert_eq!(served.record.severity, Severity::Error);
    assert_eq!(
        served.record.message,
        "request from 127.0.0.1 with query / - Refused. Missing required query parameter: progress"
    );
}

#[test]
fn an_explicit_colour_is_served_as_given() {
    let mut raw = request(Some(80.0));
    raw.progress_color = Some("#000000".to_string());
    let served = handle(&store_of(FIELDS), raw);
    assert_eq!(served.response.status, 200);
    assert_eq!(served.response.body, "|0|#428bca|100.0|80.0|90|#000000|%");
}

#[test]
fn a_zero_scale_is_served_in_the_high_colour() {
    let mut raw = request(Some(50.0));
    raw.scale = Some(number(0.0));
    let served = handle(&store_of(FIELDS), raw);
    assert_eq!(served.response.status, 200);
    assert_eq!(served.response.body, "|0|#428bca|0.0|50.0|90|#5cb85c|%");

    let mut raw = request(Some(50.0));
    raw.scale = Some(number(0.0));
    let served = handle(&store_of(DEFAULT_TEMPLATE), raw);
    assert_eq!(served.response.status, 200);
    assert!(served.response.body.contains("width=\"2147483647\" height=\"20\" fill=\"#5cb85c\""));
}

#[test]
fn a_progress_that_is_not_a_number_cannot_be_rendered() {
    let served = handle(&store_of(DEFAULT_TEMPLATE), request(Some(f32::NAN)));
    assert_eq!(served.response.status, 400);
    assert_eq!(served.response.content_type, "text/plain; charset=utf-8");
    assert!(served
        .response
        .body
        .starts_with("Failed to construct progress bar with parameters: {"));
    assert!(served.response.body.contains("\"progress\": None"));
    assert_eq!(served.record.severity, Severity::Error);
    assert_eq!(
        served.record.message,
        "request from 127.0.0.1 with query / - Failed. Probably bad query parameters"
    );
}

#[test]
fn a_template_that_applies_an_unknown_filter_fails_to_render() {
    let served = handle(&store_of("{{ progress | suffix }}"), request(Some(1.0)));
    assert_eq!(served.response.status, 400);
}

#[test]
fn a_request_without_progress_is_refused_before_anything_is_encoded() {
    let store = store_of(FIELDS);
    let served = serve_progress_svg_image(&store, Ok(request(None)), "h", |_| {
        panic!("the fields of a refused request were encoded")
    });
    assert_eq!(served.response.status, 400);
    assert_eq!(served.response.body, "Missing required query parameter: progress");
    assert_eq!(served.record.message, "h - Refused. Missing required query parameter: progress");
}

#[test]
fn a_request_without_progress_is_refused_whatever_else_it_names() {
    let mut raw = request(None);
    raw.title = Some("Build".to_string());
    raw.scale = Some(number(10.0));
    raw.progress_color = Some("#000000".to_string());
    let served = handle(&store_of("{{ progress_width }}"), raw);
    assert_eq!(served.response.status, 400);
    assert_eq!(served.response.content_type, "text/plain; charset=utf-8");
}

#[test]
fn a_template_with_whole_number_division_is_not_taken() {
    for text in [
        "{{ (2 ** 126 + 2 ** 126) // -1 }}",
        "{{ title_width // progress_width }}",
        "{% if progress // scale %}x{% endif %}",
    ] {
        assert!(matches!(
            TemplateStore::load(environment(), text.to_string()),
            Err(StartupError::UnsupportedTemplate)
        ));
    }
}

#[test]
fn a_template_with_other_constructs_is_not_taken() {
    for text in [
        "{% for x in title %}{{ loop.cycle() }}{% endfor %}",
        "{{ -title_width }}",
        "{{ title_width - 1 }}",
        "{{ range(10) }}",
        "{{ title | abs }}",
        "{{ title | replace('a', 'b') }}",
        "{% raw %}{{ x }}{% endraw %}",
        "{% include \"other\" %}",
        "{{ progress % 2 }}",
        "{% if title }}x{% endif %}",
    ] {
        assert!(
            matches!(
                TemplateStore::load(environment(), text.to_string()),
                Err(StartupError::UnsupportedTemplate)
            ),
            "{}",
            text
        );
    }
}

#[test]
fn free_text_may_hold_anything() {
    let store = store_of("<a href=\"http://example.org//x\">{{ progress | int }}</a> // - % } {");
    let served = handle(&store, request(Some(7.9)));
    assert_eq!(served.response.status, 200);
    assert_eq!(
        served.response.body,
        "<a href=\"http://example.org//x\">7</a> // - % } {"
    );
}

#[test]
fn arithmetic_that_the_store_takes_is_rendered() {
    let store = store_of("{{- (progress_width / 2 + title_width) | int }}|{{ 2 ** 3 * 2 -}}  |{% if title %}t{% elif suffix %}s{% else %}n{% endif %}");
    let served = handle(&store, request(Some(7.9)));
    assert_eq!(served.response.status, 200);
    assert_eq!(served.response.body, "45|16|s");
}

#[test]
fn the_built_in_template_draws_the_bar() {
    let served = handle(&store_of(DEFAULT_TEMPLATE), request(Some(50.0)));
    assert_eq!(served.response.status, 200);
    let body = served.response.body;
    assert!(body.starts_with("<?xml version=\"1.0\" encoding=\"UTF-8\"?>\n<svg "));
    assert!(body.ends_with("</svg>"));
    assert!(body.contains("width=\"90\" height=\"20\" version=\"1.1\""));
    assert!(body.contains("<rect rx=\"4\" x=\"0\" width=\"90\" height=\"20\" fill=\"#428bca\"/>"));
    assert!(body.contains("<rect rx=\"4\" x=\"0\" width=\"45\" height=\"20\" fill=\"#f0ad4e\"/>"));
    assert!(body.contains("<text x=\"45\" y=\"14\">50%</text>"));
    assert!(!body.contains("<path"));
}

#[test]
fn the_built_in_template_draws_the_title() {
    let mut raw = request(Some(90.0));
    raw.title = Some("Build".to_string());
    raw.suffix = Some(" pts".to_string());
    let served = handle(&store_of(DEFAULT_TEMPLATE), raw);
    assert_eq!(served.response.status, 200);
    let body = served.response.body;
    assert!(body.contains("width=\"100\" height=\"20\" version=\"1.1\""));
    assert!(body.contains("<rect rx=\"4\" x=\"40\" width=\"54\" height=\"20\" fill=\"#5cb85c\"/>"));
    assert!(body.contains("<path fill=\"#5cb85c\" d=\"M40 0h4v20h-4z\"/>"));
    assert!(body.contains("<text x=\"4\" y=\"14\">Build</text>"));
    assert!(body.contains("<text x=\"70\" y=\"14\">90 pts</text>"));
}

#[test]
fn the_same_request_is_served_the_same_bytes() {
    let store = store_of(DEFAULT_TEMPLATE);
    let make = || {
        let mut raw = request(Some(42.5));
        raw.title = Some("Tests".to_string());
        raw.scale = Some(number(60.0));
        raw
    };
    let first = handle(&store, make());
    let second = handle(&store, make());
    assert_eq!(first.response.status, second.response.status);
    assert_eq!(first.response.content_type, second.response.content_type);
    assert_eq!(first.response.body, second.response.body);
    assert_eq!(first.record.message, second.record.message);
}

#[test]
fn a_rendering_that_gave_an_image_is_rendered() {
    match rendering_outcome(Ok("<svg/>".to_string()), "{}".to_string()) {
        Outcome::Rendered(image) => assert_eq!(image, "<svg/>"),
        other => panic!("unexpected outcome {:?}", other),
    }
}

#[test]
fn a_rendering_that_failed_keeps_the_parameters() {
    let failure = minijinja::Error::new(minijinja::ErrorKind::InvalidOperation, "no");
    match rendering_outcome(Err(failure), "{\"progress\": 1.0}".to_string()) {
        Outcome::RenderFailed(parameters) => assert_eq!(parameters, "{\"progress\": 1.0}"),
        other => panic!("unexpected outcome {:?}", other),
    }
}

#[test]
fn a_query_that_could_not_be_read_is_answered_with_400() {
    let store = store_of(FIELDS);
    let report = "invalid digit found in string".to_string();
    let served = serve_progress_svg_image(&store, Err(report), "h", |_| {
        panic!("the fields of a refused request were encoded")
    });
    assert_eq!(served.response.status, 400);
    assert_eq!(served.response.content_type, "text/plain; charset=utf-8");
    assert_eq!(
        served.response.body,
        "Failed to read the query parameters: invalid digit found in string"
    );
    assert_eq!(served.record.severity, Severity::Error);
    assert_eq!(
        served.record.message,
        "h - Refused. Failed to read the query parameters: invalid digit found in string"
    );
}

#[test]
fn what_the_store_takes_is_rendered_as_the_engine_renders_it() {
    let store = store_of(
        "{# a comment #}{{ title | default('none') | upper }}|{{ 'a' ~ suffix }}|{% if progress >= 50 and not title %}half{% elif progress < 50 %}less{% else %}more{% endif %}|{{ suffix | length }}|{{ (progress / 3) | round }}|{{ 1 == 1.0 }}",
    );
    let served = handle(&store, request(Some(50.0)));
    assert_eq!(served.response.status, 200);
    assert_eq!(served.response.body, "NONE|a%|half|1|17.0|true");
}

#[test]
fn a_filter_that_cannot_take_its_argument_fails_to_render() {
    for text in ["{{ progress | upper | round }}", "{{ none | length }}", "{{ 'x' * 2 }}"] {
        let served = handle(&store_of(text), request(Some(1.0)));
        assert_eq!(served.response.status, 400, "{}", text);
    }
}

//! From the arguments of a request to the complete set of fields that the
//! template reads.

use vstd::prelude::*;
use vstd::string::*;
use crate::color::band_color;
use crate::color::band_of;
use crate::color::get_progress_color;
use crate::number::Number;
use crate::template::is_name;

verus! {

/// Bit pattern of `100.0`, the scale of a request that names none.
pub const DEFAULT_SCALE: u32 = 0x42c8_0000;

/// Colour behind the title where the request names none.
pub const DEFAULT_TITLE_COLOR: &'static str = "#428bca";

/// Text after the progress value where the request names none.
pub const DEFAULT_SUFFIX: &'static str = "%";

/// Width of the bar beside a title, and alone.
pub const TITLED_PROGRESS_WIDTH: i32 = 60;

pub const UNTITLED_PROGRESS_WIDTH: i32 = 90;

/// The arguments of a request. Only `progress` is required.
#[derive(Debug)]
pub struct QueryArgs {
    pub title: Option<String>,
    pub title_width: Option<i32>,
    pub title_color: Option<String>,
    pub scale: Option<Number>,
    pub progress: Number,
    pub progress_width: Option<i32>,
    pub progress_color: Option<String>,
    pub suffix: Option<String>,
}

/// A `QueryArgs` with its texts as sequences of characters.
pub struct QueryArgsView {
    pub title: Option<Seq<char>>,
    pub title_width: Option<i32>,
    pub title_color: Option<Seq<char>>,
    pub scale: Option<Number>,
    pub progress: Number,
    pub progress_width: Option<i32>,
    pub progress_color: Option<Seq<char>>,
    pub suffix: Option<Seq<char>>,
}

/// Every field the template reads; `title` only where the request had one.
/// `title_width` is wide enough for the width reserved for any title.
#[derive(Debug)]
pub struct RenderContext {
    pub title: Option<String>,
    pub title_width: i128,
    pub title_color: String,
    pub scale: Number,
    pub progress: Number,
    pub progress_width: i32,
    pub progress_color: String,
    pub suffix: String,
}

/// A `RenderContext` with its texts as sequences of characters.
pub struct RenderContextView {
    pub title: Option<Seq<char>>,
    pub title_width: int,
    pub title_color: Seq<char>,
    pub scale: Number,
    pub progress: Number,
    pub progress_width: int,
    pub progress_color: Seq<char>,
    pub suffix: Seq<char>,
}

pub open spec fn text_view(text: Option<String>) -> Option<Seq<char>> {
    match text {
        Some(t) => Some(t@),
        None => None,
    }
}

impl View for QueryArgs {
    type V = QueryArgsView;

    open spec fn view(&self) -> QueryArgsView {
        QueryArgsView {
            title: text_view(self.title),
            title_width: self.title_width,
            title_color: text_view(self.title_color),
            scale: self.scale,
            progress: self.progress,
            progress_width: self.progress_width,
            progress_color: text_view(self.progress_color),
            suffix: text_view(self.suffix),
        }
    }
}

impl View for RenderContext {
    type V = RenderContextView;

    open spec fn view(&self) -> RenderContextView {
        RenderContextView {
            title: text_view(self.title),
            title_width: self.title_width as int,
            title_color: self.title_color@,
            scale: self.scale,
            progress: self.progress,
            progress_width: self.progress_width as int,
            progress_color: self.progress_color@,
            suffix: self.suffix@,
        }
    }
}

impl QueryArgsView {
    /// The scale that `progress` is measured against.
    pub open spec fn final_scale(self) -> Number {
        match self.scale {
            Some(scale) => scale,
            None => Number { bits: DEFAULT_SCALE },
        }
    }

    /// The width kept for a title: ten, and six for each of its characters.
    pub open spec fn default_title_width(self) -> int {
        match self.title {
            Some(title) => 10 + 6 * (title.len() as int),
            None => 0,
        }
    }

    pub open spec fn default_progress_width(self) -> int {
        if self.title is Some {
            TITLED_PROGRESS_WIDTH as int
        } else {
            UNTITLED_PROGRESS_WIDTH as int
        }
    }

    /// The colour of the band that `progress` falls in on the final scale.
    pub open spec fn default_progress_color(self) -> Seq<char> {
        band_color(band_of(self.progress, self.final_scale()))
    }
}

/// The fields derived from a request: each value the request gives is
/// kept, each one it leaves out gets its default.
pub open spec fn derived_fields(query: QueryArgsView) -> RenderContextView {
    RenderContextView {
        title: query.title,
        title_width: match query.title_width {
            Some(width) => width as int,
            None => query.default_title_width(),
        },
        title_color: match query.title_color {
            Some(color) => color,
            None => DEFAULT_TITLE_COLOR@,
        },
        scale: query.final_scale(),
        progress: query.progress,
        progress_width: match query.progress_width {
            Some(width) => width as int,
            None => query.default_progress_width(),
        },
        progress_color: match query.progress_color {
            Some(color) => color,
            None => query.default_progress_color(),
        },
        suffix: match query.suffix {
            Some(suffix) => suffix,
            None => DEFAULT_SUFFIX@,
        },
    }
}

/// Derives the complete set of template fields from a request.
pub fn extract_template_fields(query: QueryArgs) -> (context: RenderContext)
    ensures
        context@ == derived_fields(query@),
{
    let title_width: i128 = match query.title_width {
        Some(width) => width as i128,
        None => match &query.title {
            Some(title) => 10 + 6 * (title.as_str().unicode_len() as i128),
            None => 0,
        },
    };
    let progress_width: i32 = match query.progress_width {
        Some(width) => width,
        None => if query.title.is_some() {
            TITLED_PROGRESS_WIDTH
        } else {
            UNTITLED_PROGRESS_WIDTH
        },
    };
    let scale = match query.scale {
        Some(scale) => scale,
        None => Number::from_bits(DEFAULT_SCALE),
    };
    let progress_color = match query.progress_color {
        Some(color) => color,
        None => get_progress_color(query.progress, scale).to_owned(),
    };
    let title_color = match query.title_color {
        Some(color) => color,
        None => DEFAULT_TITLE_COLOR.to_owned(),
    };
    let suffix = match query.suffix {
        Some(suffix) => suffix,
        None => DEFAULT_SUFFIX.to_owned(),
    };
    RenderContext {
        title: query.title,
        title_width,
        title_color,
        scale,
        progress: query.progress,
        progress_width,
        progress_color,
        suffix,
    }
}

/// The value of a field as a template sees it: a text, a whole number or
/// a number.
#[derive(Debug)]
pub enum FieldValue {
    Text(String),
    Integer(i128),
    Number(Number),
}

/// A `FieldValue` with its text as a sequence of characters.
pub enum FieldValueView {
    Text(Seq<char>),
    Integer(int),
    Number(Number),
}

impl View for FieldValue {
    type V = FieldValueView;

    open spec fn view(&self) -> FieldValueView {
        match self {
            FieldValue::Text(text) => FieldValueView::Text(text@),
            FieldValue::Integer(whole) => FieldValueView::Integer(*whole as int),
            FieldValue::Number(number) => FieldValueView::Number(*number),
        }
    }
}

/// A field under the name by which a template reads it.
#[derive(Debug)]
pub struct Field {
    pub name: String,
    pub value: FieldValue,
}

pub struct FieldView {
    pub name: Seq<char>,
    pub value: FieldValueView,
}

impl View for Field {
    type V = FieldView;

    open spec fn view(&self) -> FieldView {
        FieldView { name: self.name@, value: self.value@ }
    }
}

pub open spec fn fields_view(fields: Seq<Field>) -> Seq<FieldView> {
    fields.map_values(|field: Field| field@)
}

/// The fields that every template is given, under their names.
pub open spec fn constant_entries(context: RenderContextView) -> Seq<FieldView> {
    seq![
        FieldView { name: "title_width"@, value: FieldValueView::Integer(context.title_width) },
        FieldView { name: "title_color"@, value: FieldValueView::Text(context.title_color) },
        FieldView { name: "scale"@, value: FieldValueView::Number(context.scale) },
        FieldView { name: "progress"@, value: FieldValueView::Number(context.progress) },
        FieldView {
            name: "progress_width"@,
            value: FieldValueView::Integer(context.progress_width),
        },
        FieldView { name: "progress_color"@, value: FieldValueView::Text(context.progress_color) },
        FieldView { name: "suffix"@, value: FieldValueView::Text(context.suffix) },
    ]
}

/// The fields that a template is given, under their names: the title
/// first where there is one, then the seven that are always there.
pub open spec fn field_entries(context: RenderContextView) -> Seq<FieldView> {
    match context.title {
        Some(title) => seq![FieldView { name: "title"@, value: FieldValueView::Text(title) }]
            + constant_entries(context),
        None => constant_entries(context),
    }
}

impl RenderContext {
    /// The fields under the names by which a template reads them.
    pub fn entries(self) -> (fields: Vec<Field>)
        ensures
            fields_view(fields@) == field_entries(self@),
    {
        let mut fields: Vec<Field> = Vec::new();
        let ghost view = self@;
        match self.title {
            Some(title) => {
                fields.push(Field { name: "title".to_owned(), value: FieldValue::Text(title) });
            },
            None => {},
        }
        let ghost first = fields_view(fields@);
        assert(first == match view.title {
            Some(title) => seq![FieldView { name: "title"@, value: FieldValueView::Text(title) }],
            None => Seq::<FieldView>::empty(),
        });
        fields.push(
            Field { name: "title_width".to_owned(), value: FieldValue::Integer(self.title_width) },
        );
        fields.push(
            Field { name: "title_color".to_owned(), value: FieldValue::Text(self.title_color) },
        );
        fields.push(Field { name: "scale".to_owned(), value: FieldValue::Number(self.scale) });
        fields.push(
            Field { name: "progress".to_owned(), value: FieldValue::Number(self.progress) },
        );
        fields.push(
            Field {
                name: "progress_width".to_owned(),
                value: FieldValue::Integer(self.progress_width as i128),
            },
        );
        fields.push(
            Field {
                name: "progress_color".to_owned(),
                value: FieldValue::Text(self.progress_color),
            },
        );
        fields.push(Field { name: "suffix".to_owned(), value: FieldValue::Text(self.suffix) });
        assert(fields_view(fields@) =~= first + constant_entries(view));
        fields
    }
}

/// Every field is given under a name that a template may use.
pub proof fn lemma_fields_have_template_names(context: RenderContextView, at: int)
    requires
        0 <= at < field_entries(context).len(),
    ensures
        is_name(field_entries(context)[at].name),
{
    reveal_strlit("title");
    reveal_strlit("title_width");
    reveal_strlit("title_color");
    reveal_strlit("scale");
    reveal_strlit("progress");
    reveal_strlit("progress_width");
    reveal_strlit("progress_color");
    reveal_strlit("suffix");
    assert("title"@ =~= seq!['t', 'i', 't', 'l', 'e']);
    assert("title_width"@ =~= seq!['t', 'i', 't', 'l', 'e', '_', 'w', 'i', 'd', 't', 'h']);
    assert("title_color"@ =~= seq!['t', 'i', 't', 'l', 'e', '_', 'c', 'o', 'l', 'o', 'r']);
    assert("scale"@ =~= seq!['s', 'c', 'a', 'l', 'e']);
    assert("progress"@ =~= seq!['p', 'r', 'o', 'g', 'r', 'e', 's', 's']);
    assert("progress_width"@ =~= seq![
        'p',
        'r',
        'o',
        'g',
        'r',
        'e',
        's',
        's',
        '_',
        'w',
        'i',
        'd',
        't',
        'h',
    ]);
    assert("progress_color"@ =~= seq![
        'p',
        'r',
        'o',
        'g',
        'r',
        'e',
        's',
        's',
        '_',
        'c',
        'o',
        'l',
        'o',
        'r',
    ]);
    assert("suffix"@ =~= seq!['s', 'u', 'f', 'f', 'i', 'x']);
}

/// A title colour, progress colour, progress width, title width, suffix or
/// scale that the request gives is the derived one, never a default; title
/// and progress pass through.
pub proof fn lemma_explicit_values_are_kept(query: QueryArgsView)
    ensures
        query.title_color matches Some(color) ==> derived_fields(query).title_color == color,
        query.progress_color matches Some(color) ==> derived_fields(query).progress_color
            == color,
        query.progress_width matches Some(width) ==> derived_fields(query).progress_width
            == width,
        query.title_width matches Some(width) ==> derived_fields(query).title_width == width,
        query.suffix matches Some(suffix) ==> derived_fields(query).suffix == suffix,
        query.scale matches Some(scale) ==> derived_fields(query).scale == scale,
        derived_fields(query).progress == query.progress,
        derived_fields(query).title == query.title,
{
}

/// A request with a title of `n` characters and no width of its own gets a
/// title width of `10 + 6 * n` and a progress width of 60.
pub proof fn lemma_title_sizes_the_bar(query: QueryArgsView, title: Seq<char>)
    requires
        query.title == Some(title),
    ensures
        query.title_width is None ==> derived_fields(query).title_width == 10 + 6 * title.len(),
        query.progress_width is None ==> derived_fields(query).progress_width == 60,
{
}

/// A request with neither a title nor a width of its own gets a title
/// width of 0 and a progress width of 90.
pub proof fn lemma_untitled_bar_is_wide(query: QueryArgsView)
    requires
        query.title is None,
    ensures
        query.title_width is None ==> derived_fields(query).title_width == 0,
        query.progress_width is None ==> derived_fields(query).progress_width == 90,
{
}

/// Without colours of its own a request gets the default title colour and
/// the colour of the band of its progress on the final scale.
pub proof fn lemma_default_colors(query: QueryArgsView)
    ensures
        query.title_color is None ==> derived_fields(query).title_color == DEFAULT_TITLE_COLOR@,
        query.progress_color is None ==> derived_fields(query).progress_color == band_color(
            band_of(query.progress, derived_fields(query).scale),
        ),
        query.scale is None ==> derived_fields(query).scale == (Number { bits: DEFAULT_SCALE }),
        query.suffix is None ==> derived_fields(query).suffix == DEFAULT_SUFFIX@,
{
}

} // verus!

//! The templates that the store takes.
//!
//! Outside `{{ .. }}` and `{% .. %}` a template is free text, with comments
//! in `{# .. #}`. Inside, it may name the fields of a request, write numbers,
//! texts in quotes and `true`, `false` and `none`, add, multiply, divide,
//! raise to a power and join with `~`, compare, say `not`, `and` and `or`,
//! group with parentheses, apply the filter `int` and the engine's filters on
//! texts, and branch with `if`, `elif`, `else` and `endif`. Whole-number
//! division, subtraction, negation, loops, calls of built-in functions and
//! every other construct of the engine are left out, and with them every
//! operation of the engine that does not return for some operands. A block
//! has fewer than `MAX_BLOCK_LENGTH` characters and a template no more than
//! `MAX_ELIF_COUNT` times `elif`, which bounds how deep the engine descends
//! when it compiles and renders one.

use vstd::prelude::*;
use vstd::string::*;

verus! {

/// Fewer characters than this may stand between the opening of a block and
/// its closing.
pub const MAX_BLOCK_LENGTH: usize = 256;

/// The most times that `elif` may stand in a template.
pub const MAX_ELIF_COUNT: usize = 100;

/// Where a reader of a template stands: in free text, inside `{{ .. }}` or
/// inside `{% .. %}`.
#[derive(Clone, Copy, Debug, PartialEq, Eq, Structural)]
pub enum Mode {
    Data,
    Variable,
    Tag,
}

pub open spec fn is_blank(c: char) -> bool {
    c == ' ' || c == '\t' || c == '\n' || c == '\r'
}

pub open spec fn is_digit(c: char) -> bool {
    '0' <= c <= '9'
}

pub open spec fn is_word_char(c: char) -> bool {
    ('a' <= c <= 'z') || ('A' <= c <= 'Z') || is_digit(c) || c == '_'
}

/// The operators that may stand alone: addition, multiplication (twice
/// for a power), joining, attribute access, filter application, separation of
/// arguments, parentheses and the two strict comparisons.
pub open spec fn is_operator(c: char) -> bool {
    c == '+' || c == '*' || c == '~' || c == '.' || c == '|' || c == ',' || c == '(' || c == ')'
        || c == '<' || c == '>'
}

/// A character that, with `=` after it, makes a comparison.
pub open spec fn starts_comparison(c: char) -> bool {
    c == '=' || c == '!' || c == '<' || c == '>'
}

pub open spec fn is_quote(c: char) -> bool {
    c == '\'' || c == '"'
}

/// The character that, followed by `}`, closes the block of `mode`.
pub open spec fn closer(mode: Mode) -> char {
    if mode == Mode::Tag {
        '%'
    } else {
        '}'
    }
}

/// Where the word that starts at `from` ends.
pub open spec fn word_end(text: Seq<char>, from: int) -> int
    decreases text.len() - from,
{
    if 0 <= from < text.len() && is_word_char(text[from]) {
        word_end(text, from + 1)
    } else {
        from
    }
}

/// Where the first `#}` at or after `from` begins; the length of the text
/// where there is none.
pub open spec fn comment_close(text: Seq<char>, from: int) -> int
    decreases text.len() - from,
{
    if from < 0 || from + 1 >= text.len() {
        text.len() as int
    } else if text[from] == '#' && text[from + 1] == '}' {
        from
    } else {
        comment_close(text, from + 1)
    }
}

/// Where the first `quote` at or after `from` stands; the length of the
/// text where there is none.
pub open spec fn quote_close(text: Seq<char>, from: int, quote: char) -> int
    decreases text.len() - from,
{
    if from < 0 || from >= text.len() {
        text.len() as int
    } else if text[from] == quote {
        from
    } else {
        quote_close(text, from + 1, quote)
    }
}

/// No backslash stands from `from` up to `to`.
pub open spec fn is_plain(text: Seq<char>, from: int, to: int) -> bool {
    forall|k: int| from <= k < to ==> #[trigger] text[k] != '\\'
}

pub open spec fn is_number(word: Seq<char>) -> bool {
    forall|k: int| 0 <= k < word.len() ==> is_digit(#[trigger] word[k])
}

/// A field of a request, or the filter `int`.
pub open spec fn is_name(word: Seq<char>) -> bool {
    ||| word == seq!['t', 'i', 't', 'l', 'e']
    ||| word == seq!['t', 'i', 't', 'l', 'e', '_', 'w', 'i', 'd', 't', 'h']
    ||| word == seq!['t', 'i', 't', 'l', 'e', '_', 'c', 'o', 'l', 'o', 'r']
    ||| word == seq!['s', 'c', 'a', 'l', 'e']
    ||| word == seq!['p', 'r', 'o', 'g', 'r', 'e', 's', 's']
    ||| word == seq!['p', 'r', 'o', 'g', 'r', 'e', 's', 's', '_', 'w', 'i', 'd', 't', 'h']
    ||| word == seq!['p', 'r', 'o', 'g', 'r', 'e', 's', 's', '_', 'c', 'o', 'l', 'o', 'r']
    ||| word == seq!['s', 'u', 'f', 'f', 'i', 'x']
    ||| word == seq!['i', 'n', 't']
}

/// A word of a branch: `if`, `elif`, `else` or `endif`.
pub open spec fn is_branch_word(word: Seq<char>) -> bool {
    ||| word == seq!['i', 'f']
    ||| is_elif(word)
    ||| word == seq!['e', 'l', 's', 'e']
    ||| word == seq!['e', 'n', 'd', 'i', 'f']
}

pub open spec fn is_elif(word: Seq<char>) -> bool {
    word == seq!['e', 'l', 'i', 'f']
}

/// A word of logic or a constant: `not`, `and`, `or`, `true`, `false`,
/// `none`.
pub open spec fn is_logic_word(word: Seq<char>) -> bool {
    ||| word == seq!['n', 'o', 't']
    ||| word == seq!['a', 'n', 'd']
    ||| word == seq!['o', 'r']
    ||| word == seq!['t', 'r', 'u', 'e']
    ||| word == seq!['f', 'a', 'l', 's', 'e']
    ||| word == seq!['n', 'o', 'n', 'e']
}

/// One of the engine's filters that only read their argument and always
/// return: `upper`, `lower`, `capitalize`, `trim`, `length`, `count`,
/// `default`, `d`, `round`, `bool`, `safe`, `escape`, `e`. (`title` is a
/// field's name as well.)
pub open spec fn is_filter_word(word: Seq<char>) -> bool {
    ||| word == seq!['u', 'p', 'p', 'e', 'r']
    ||| word == seq!['l', 'o', 'w', 'e', 'r']
    ||| word == seq!['c', 'a', 'p', 'i', 't', 'a', 'l', 'i', 'z', 'e']
    ||| word == seq!['t', 'r', 'i', 'm']
    ||| word == seq!['l', 'e', 'n', 'g', 't', 'h']
    ||| word == seq!['c', 'o', 'u', 'n', 't']
    ||| word == seq!['d', 'e', 'f', 'a', 'u', 'l', 't']
    ||| word == seq!['d']
    ||| word == seq!['r', 'o', 'u', 'n', 'd']
    ||| word == seq!['b', 'o', 'o', 'l']
    ||| word == seq!['s', 'a', 'f', 'e']
    ||| word == seq!['e', 's', 'c', 'a', 'p', 'e']
    ||| word == seq!['e']
}

/// The words that may stand inside a block.
pub open spec fn is_allowed_word(word: Seq<char>) -> bool {
    is_number(word) || is_name(word) || is_branch_word(word) || is_logic_word(word)
        || is_filter_word(word)
}

/// Whether the rest of `text` from `from` on, read in `mode`, holds only
/// what the store takes. Inside a block, `opened` is where its content
/// began; `elifs` counts the `elif` read so far. A block, comment or quoted
/// text that the rest leaves open is passed: the engine does not compile it.
pub open spec fn accepts(text: Seq<char>, from: int, mode: Mode, opened: int, elifs: int) -> bool
    decreases text.len() - from,
{
    if from < 0 || from >= text.len() {
        true
    } else if mode == Mode::Data {
        if text[from] == '{' && from + 1 < text.len() && text[from + 1] == '#' {
            let close = comment_close(text, from + 1);
            if from < close && close + 1 < text.len() {
                accepts(text, close + 2, Mode::Data, 0, elifs)
            } else {
                true
            }
        } else if text[from] == '{' && from + 1 < text.len() && (text[from + 1] == '{'
            || text[from + 1] == '%') {
            let inside = if text[from + 1] == '{' {
                Mode::Variable
            } else {
                Mode::Tag
            };
            if from + 2 < text.len() && text[from + 2] == '-' {
                accepts(text, from + 3, inside, from + 3, elifs)
            } else {
                accepts(text, from + 2, inside, from + 2, elifs)
            }
        } else {
            accepts(text, from + 1, Mode::Data, 0, elifs)
        }
    } else if from - opened >= MAX_BLOCK_LENGTH {
        false
    } else {
        let c = text[from];
        if c == closer(mode) {
            from + 1 < text.len() && text[from + 1] == '}' && accepts(
                text,
                from + 2,
                Mode::Data,
                0,
                elifs,
            )
        } else if c == '-' {
            from + 2 < text.len() && text[from + 1] == closer(mode) && text[from + 2] == '}'
                && accepts(text, from + 3, Mode::Data, 0, elifs)
        } else if c == '/' {
            !(from + 1 < text.len() && text[from + 1] == '/') && accepts(
                text,
                from + 1,
                mode,
                opened,
                elifs,
            )
        } else if c == '=' {
            ((from >= 1 && starts_comparison(text[from - 1])) || (from + 1 < text.len() && text[from
                + 1] == '=')) && accepts(text, from + 1, mode, opened, elifs)
        } else if c == '!' {
            from + 1 < text.len() && text[from + 1] == '=' && accepts(
                text,
                from + 1,
                mode,
                opened,
                elifs,
            )
        } else if is_quote(c) {
            let close = quote_close(text, from + 1, c);
            if from < close < text.len() {
                is_plain(text, from + 1, close) && accepts(text, close + 1, mode, opened, elifs)
            } else {
                true
            }
        } else if is_blank(c) || is_operator(c) {
            accepts(text, from + 1, mode, opened, elifs)
        } else if is_word_char(c) {
            let end = word_end(text, from);
            let word = text.subrange(from, end);
            let count = if is_elif(word) {
                elifs + 1
            } else {
                elifs
            };
            if from < end <= text.len() {
                is_allowed_word(word) && count <= MAX_ELIF_COUNT && accepts(
                    text,
                    end,
                    mode,
                    opened,
                    count,
                )
            } else {
                false
            }
        } else {
            false
        }
    }
}

/// Whether the store takes `text` as its template.
pub open spec fn supported(text: Seq<char>) -> bool {
    accepts(text, 0, Mode::Data, 0, 0)
}

fn it_is_blank(c: char) -> (r: bool)
    ensures
        r == is_blank(c),
{
    c == ' ' || c == '\t' || c == '\n' || c == '\r'
}

fn it_is_digit(c: char) -> (r: bool)
    ensures
        r == is_digit(c),
{
    '0' <= c && c <= '9'
}

fn it_is_word_char(c: char) -> (r: bool)
    ensures
        r == is_word_char(c),
{
    ('a' <= c && c <= 'z') || ('A' <= c && c <= 'Z') || it_is_digit(c) || c == '_'
}

fn it_is_operator(c: char) -> (r: bool)
    ensures
        r == is_operator(c),
{
    c == '+' || c == '*' || c == '~' || c == '.' || c == '|' || c == ',' || c == '(' || c == ')'
        || c == '<' || c == '>'
}

fn it_starts_comparison(c: char) -> (r: bool)
    ensures
        r == starts_comparison(c),
{
    c == '=' || c == '!' || c == '<' || c == '>'
}

/// The characters of `text`.
fn characters(text: &str) -> (chars: Vec<char>)
    ensures
        chars@ == text@,
{
    broadcast use axiom_spec_iter;

    let mut chars: Vec<char> = Vec::new();
    for c in it: text.chars()
        invariant
            chars@ == it.seq().take(it.index() as int),
            it.seq() == text@,
    {
        chars.push(c);
    }
    chars
}

/// Whether the characters from `from` up to `to` spell `word`.
fn spells(chars: &Vec<char>, from: usize, to: usize, word: &Vec<char>) -> (r: bool)
    requires
        from <= to <= chars@.len(),
    ensures
        r == (chars@.subrange(from as int, to as int) == word@),
{
    if to - from != word.len() {
        return false;
    }
    let mut k: usize = 0;
    while k < word.len()
        invariant
            from <= to <= chars@.len(),
            to - from == word@.len(),
            k <= word@.len(),
            forall|j: int| 0 <= j < k ==> chars@[from + j] == word@[j],
        decreases word@.len() - k,
    {
        if chars[from + k] != word[k] {
            assert(chars@.subrange(from as int, to as int)[k as int] != word@[k as int]);
            return false;
        }
        k = k + 1;
    }
    assert(chars@.subrange(from as int, to as int) =~= word@);
    true
}

/// Whether the characters from `from` up to `to` are the one `letter`.
fn is_letter(chars: &Vec<char>, from: usize, to: usize, letter: char) -> (r: bool)
    requires
        from <= to <= chars@.len(),
    ensures
        r == (chars@.subrange(from as int, to as int) == seq![letter]),
{
    if to - from == 1 && chars[from] == letter {
        assert(chars@.subrange(from as int, to as int) =~= seq![letter]);
        true
    } else {
        assert(seq![letter].len() == 1 && seq![letter][0] == letter);
        assert(chars@.subrange(from as int, to as int).len() == to - from);
        if to - from == 1 {
            assert(chars@.subrange(from as int, to as int)[0] == chars@[from as int]);
        }
        false
    }
}

fn all_digits(chars: &Vec<char>, from: usize, to: usize) -> (r: bool)
    requires
        from <= to <= chars@.len(),
    ensures
        r == is_number(chars@.subrange(from as int, to as int)),
{
    let mut k: usize = from;
    while k < to
        invariant
            from <= k <= to <= chars@.len(),
            forall|j: int| from <= j < k ==> is_digit(chars@[j]),
        decreases to - k,
    {
        if !it_is_digit(chars[k]) {
            assert(!is_digit(chars@.subrange(from as int, to as int)[k - from]));
            return false;
        }
        k = k + 1;
    }
    assert forall|j: int| 0 <= j < to - from implies is_digit(
        #[trigger] chars@.subrange(from as int, to as int)[j],
    ) by {
        assert(is_digit(chars@[from + j]));
    }
    true
}

fn names_a_field_or_filter(chars: &Vec<char>, from: usize, to: usize) -> (r: bool)
    requires
        from <= to <= chars@.len(),
    ensures
        r == is_name(chars@.subrange(from as int, to as int)),
{
    spells(chars, from, to, &vec!['t', 'i', 't', 'l', 'e'])
        || spells(chars, from, to, &vec!['t', 'i', 't', 'l', 'e', '_', 'w', 'i', 'd', 't', 'h'])
        || spells(chars, from, to, &vec!['t', 'i', 't', 'l', 'e', '_', 'c', 'o', 'l', 'o', 'r'])
        || spells(chars, from, to, &vec!['s', 'c', 'a', 'l', 'e'])
        || spells(chars, from, to, &vec!['p', 'r', 'o', 'g', 'r', 'e', 's', 's'])
        || spells(
        chars,
        from,
        to,
        &vec!['p', 'r', 'o', 'g', 'r', 'e', 's', 's', '_', 'w', 'i', 'd', 't', 'h'],
    ) || spells(
        chars,
        from,
        to,
        &vec!['p', 'r', 'o', 'g', 'r', 'e', 's', 's', '_', 'c', 'o', 'l', 'o', 'r'],
    ) || spells(chars, from, to, &vec!['s', 'u', 'f', 'f', 'i', 'x']) || spells(
        chars,
        from,
        to,
        &vec!['i', 'n', 't'],
    )
}

fn names_a_branch(chars: &Vec<char>, from: usize, to: usize) -> (r: bool)
    requires
        from <= to <= chars@.len(),
    ensures
        r == is_branch_word(chars@.subrange(from as int, to as int)),
{
    spells(chars, from, to, &vec!['i', 'f']) || spells(chars, from, to, &vec!['e', 'l', 'i', 'f'])
        || spells(chars, from, to, &vec!['e', 'l', 's', 'e']) || spells(
        chars,
        from,
        to,
        &vec!['e', 'n', 'd', 'i', 'f'],
    )
}

fn names_logic(chars: &Vec<char>, from: usize, to: usize) -> (r: bool)
    requires
        from <= to <= chars@.len(),
    ensures
        r == is_logic_word(chars@.subrange(from as int, to as int)),
{
    spells(chars, from, to, &vec!['n', 'o', 't']) || spells(chars, from, to, &vec!['a', 'n', 'd'])
        || spells(chars, from, to, &vec!['o', 'r']) || spells(
        chars,
        from,
        to,
        &vec!['t', 'r', 'u', 'e'],
    ) || spells(chars, from, to, &vec!['f', 'a', 'l', 's', 'e']) || spells(
        chars,
        from,
        to,
        &vec!['n', 'o', 'n', 'e'],
    )
}

fn names_a_filter(chars: &Vec<char>, from: usize, to: usize) -> (r: bool)
    requires
        from <= to <= chars@.len(),
    ensures
        r == is_filter_word(chars@.subrange(from as int, to as int)),
{
    let case = spells(chars, from, to, &vec!['u', 'p', 'p', 'e', 'r']) || spells(
        chars,
        from,
        to,
        &vec!['l', 'o', 'w', 'e', 'r'],
    ) || spells(chars, from, to, &vec!['c', 'a', 'p', 'i', 't', 'a', 'l', 'i', 'z', 'e'])
        || spells(chars, from, to, &vec!['t', 'r', 'i', 'm']);
    let size = spells(chars, from, to, &vec!['l', 'e', 'n', 'g', 't', 'h']) || spells(
        chars,
        from,
        to,
        &vec!['c', 'o', 'u', 'n', 't'],
    );
    let fallback = spells(chars, from, to, &vec!['d', 'e', 'f', 'a', 'u', 'l', 't'])
        || is_letter(chars, from, to, 'd');
    let number = spells(chars, from, to, &vec!['r', 'o', 'u', 'n', 'd']) || spells(
        chars,
        from,
        to,
        &vec!['b', 'o', 'o', 'l'],
    );
    let escaping = spells(chars, from, to, &vec!['s', 'a', 'f', 'e']) || spells(
        chars,
        from,
        to,
        &vec!['e', 's', 'c', 'a', 'p', 'e'],
    ) || is_letter(chars, from, to, 'e');
    case || size || fallback || number || escaping
}

/// Where the first `#}` at or after `from` begins.
fn find_comment_close(chars: &Vec<char>, from: usize) -> (close: usize)
    requires
        from <= chars@.len(),
    ensures
        close == comment_close(chars@, from as int),
        from <= close <= chars@.len(),
{
    let n = chars.len();
    let mut at: usize = from;
    while n - at > 1
        invariant
            n == chars@.len(),
            from <= at <= n,
            comment_close(chars@, from as int) == comment_close(chars@, at as int),
        decreases n - at,
    {
        if chars[at] == '#' && chars[at + 1] == '}' {
            return at;
        }
        at = at + 1;
    }
    n
}

/// Where the first `quote` at or after `from` stands, and whether no
/// backslash stands before it.
fn find_quote_close(chars: &Vec<char>, from: usize, quote: char) -> (r: (usize, bool))
    requires
        from <= chars@.len(),
    ensures
        r.0 == quote_close(chars@, from as int, quote),
        from <= r.0 <= chars@.len(),
        r.1 == is_plain(chars@, from as int, r.0 as int),
{
    let n = chars.len();
    let mut at: usize = from;
    let mut plain = true;
    while at < n
        invariant
            n == chars@.len(),
            from <= at <= n,
            quote_close(chars@, from as int, quote) == quote_close(chars@, at as int, quote),
            plain == is_plain(chars@, from as int, at as int),
        decreases n - at,
    {
        if chars[at] == quote {
            return (at, plain);
        }
        if chars[at] == '\\' {
            plain = false;
        }
        at = at + 1;
    }
    (n, plain)
}

/// The end of the word that starts at `from`.
fn end_of_word(chars: &Vec<char>, from: usize) -> (end: usize)
    requires
        from <= chars@.len(),
    ensures
        end == word_end(chars@, from as int),
        from <= end <= chars@.len(),
        from < chars@.len() && is_word_char(chars@[from as int]) ==> from < end,
{
    let mut end: usize = from;
    while end < chars.len() && it_is_word_char(chars[end])
        invariant
            from <= end <= chars@.len(),
            word_end(chars@, from as int) == word_end(chars@, end as int),
        decreases chars@.len() - end,
    {
        end = end + 1;
    }
    end
}

/// Whether the store takes `text` as its template.
pub fn is_supported(text: &str) -> (r: bool)
    ensures
        r == supported(text@),
{
    let chars = characters(text);
    let n = chars.len();
    let mut at: usize = 0;
    let mut mode = Mode::Data;
    let mut opened: usize = 0;
    let mut elifs: usize = 0;
    while at < n
        invariant
            n == chars@.len(),
            chars@ == text@,
            at <= n,
            elifs <= MAX_ELIF_COUNT,
            mode == Mode::Data ==> opened == 0,
            mode != Mode::Data ==> 2 <= opened <= at,
            supported(chars@) == accepts(chars@, at as int, mode, opened as int, elifs as int),
        decreases n - at,
    {
        let c = chars[at];
        match mode {
            Mode::Data => {
                if c == '{' && at + 1 < n && chars[at + 1] == '#' {
                    let close = find_comment_close(&chars, at + 1);
                    if n - close > 1 {
                        at = close + 2;
                    } else {
                        return true;
                    }
                } else if c == '{' && at + 1 < n && (chars[at + 1] == '{' || chars[at + 1] == '%') {
                    mode = if chars[at + 1] == '{' {
                        Mode::Variable
                    } else {
                        Mode::Tag
                    };
                    at = if n - at > 2 && chars[at + 2] == '-' {
                        at + 3
                    } else {
                        at + 2
                    };
                    opened = at;
                } else {
                    at = at + 1;
                }
            },
            _ => {
                if at - opened >= MAX_BLOCK_LENGTH {
                    return false;
                }
                let closing = if mode == Mode::Tag {
                    '%'
                } else {
                    '}'
                };
                if c == closing {
                    if at + 1 < n && chars[at + 1] == '}' {
                        mode = Mode::Data;
                        at = at + 2;
                        opened = 0;
                    } else {
                        return false;
                    }
                } else if c == '-' {
                    if n - at > 2 && chars[at + 1] == closing && chars[at + 2] == '}' {
                        mode = Mode::Data;
                        at = at + 3;
                        opened = 0;
                    } else {
                        return false;
                    }
                } else if c == '/' {
                    if at + 1 < n && chars[at + 1] == '/' {
                        return false;
                    }
                    at = at + 1;
                } else if c == '=' {
                    if !(it_starts_comparison(chars[at - 1]) || (at + 1 < n && chars[at + 1]
                        == '=')) {
                        return false;
                    }
                    at = at + 1;
                } else if c == '!' {
                    if !(at + 1 < n && chars[at + 1] == '=') {
                        return false;
                    }
                    at = at + 1;
                } else if c == '\'' || c == '"' {
                    let (close, plain) = find_quote_close(&chars, at + 1, c);
                    if close < n {
                        if !plain {
                            return false;
                        }
                        at = close + 1;
                    } else {
                        return true;
                    }
                } else if it_is_blank(c) || it_is_operator(c) {
                    at = at + 1;
                } else if it_is_word_char(c) {
                    let end = end_of_word(&chars, at);
                    let allowed = all_digits(&chars, at, end) || names_a_field_or_filter(
                        &chars,
                        at,
                        end,
                    ) || names_a_branch(&chars, at, end) || names_logic(&chars, at, end)
                        || names_a_filter(&chars, at, end);
                    if !allowed {
                        return false;
                    }
                    if spells(&chars, at, end, &vec!['e', 'l', 'i', 'f']) {
                        if elifs >= MAX_ELIF_COUNT {
                            return false;
                        }
                        elifs = elifs + 1;
                    }
                    at = end;
                } else {
                    return false;
                }
            },
        }
    }
    true
}

} // verus!

//! The reading of a syntax descriptor, such as `<length>+` or
//! `auto | <number>`, into a syntax tree.
//!
//! The grammar, with optional blanks around every component:
//!
//! ```text
//! keyword      := custom-ident-start custom-ident*
//! data-type    := '<' data-type-name '>'
//! component    := data-type '{' digit+ ',' digit+ '}' | data-type '+'
//!               | data-type '#' | data-type | keyword | ','
//! group        := '(' expression ')' | component
//! alternatives := group ('|' group)*
//! expression   := alternatives+
//! syntax       := '*' | expression
//! ```
//!
//! Choices are ordered and the longest run is taken. After `<`, anything but
//! a known data-type name and `>` makes the whole descriptor invalid, and so
//! does a repeat bound that does not fit the machine's word. What follows the
//! last step of the expression is not looked at.

use vstd::prelude::*;
use crate::details::{ParseError, ParseErrorKind, SourceLocation};
use crate::syntax::{
    lemma_alternatives_list_view, lemma_group_expression_view, DataType, ParsedPropertySyntax,
    ParsedPropertySyntaxView, SyntaxAlternatives, SyntaxAlternativesView, SyntaxComponent,
    SyntaxComponentView, SyntaxGroup, SyntaxGroupView,
};
use crate::text::lemma_deep_view_push;

verus! {

/// What reading one construct at one place gives: the construct and the place
/// after it; nothing, so that another construct can be tried at the same
/// place; or the verdict that the whole descriptor is invalid.
pub enum Parsed<T> {
    Match(T, int),
    Mismatch,
    Failure,
}

/// [`Parsed`], as executable code holds it.
pub enum Outcome<T> {
    Match(T, usize),
    Mismatch,
    Failure,
}

impl DeepView for DataType {
    type V = DataType;

    open spec fn deep_view(&self) -> DataType {
        *self
    }
}

impl<T: DeepView> Outcome<T> {
    /// The mathematical value of the outcome.
    pub open spec fn parsed(self) -> Parsed<T::V> {
        match self {
            Outcome::Match(item, next) => Parsed::Match(item.deep_view(), next as int),
            Outcome::Mismatch => Parsed::Mismatch,
            Outcome::Failure => Parsed::Failure,
        }
    }
}

/// Whether a keyword can start with the character.
pub open spec fn is_custom_ident_start(c: char) -> bool {
    let code = c as u32;
    ||| 'a' <= c <= 'z'
    ||| 'A' <= c <= 'Z'
    ||| c == '_'
    ||| code == 0xB7
    ||| 0xCD <= code <= 0xD7
    ||| 0xD8 <= code <= 0xF6
    ||| 0xF8 <= code <= 0x37D
    ||| 0x37F <= code <= 0x1FFF
    ||| code == 0x200C
    ||| code == 0x200D
    ||| code == 0x203F
    ||| code == 0x2040
    ||| 0x2070 <= code <= 0x218F
    ||| 0x2C00 <= code <= 0x2FEF
    ||| 0x3001 <= code <= 0xD7FF
    ||| 0xF900 <= code <= 0xFDCF
    ||| 0xFDF0 <= code <= 0xFFFD
    ||| 0x10000 <= code <= 0x10FFFF
}

/// Whether the character is a decimal digit.
pub open spec fn is_digit(c: char) -> bool {
    '0' <= c <= '9'
}

/// Whether a keyword can go on with the character.
pub open spec fn is_custom_ident(c: char) -> bool {
    is_custom_ident_start(c) || is_digit(c) || c == '-'
}

/// Whether the character is a blank.
pub open spec fn is_blank(c: char) -> bool {
    c == ' ' || c == '\t'
}

/// Whether the text holds the character `c` at `at`.
pub open spec fn has_char(text: Seq<char>, at: int, c: char) -> bool {
    0 <= at < text.len() && text[at] == c
}

/// The first place from `at` on that holds no blank.
pub open spec fn after_blanks(text: Seq<char>, at: int) -> int
    decreases text.len() - at,
{
    if 0 <= at < text.len() && is_blank(text[at]) {
        after_blanks(text, at + 1)
    } else {
        at
    }
}

/// The first place from `at` on that holds no character of a keyword.
pub open spec fn after_ident(text: Seq<char>, at: int) -> int
    decreases text.len() - at,
{
    if 0 <= at < text.len() && is_custom_ident(text[at]) {
        after_ident(text, at + 1)
    } else {
        at
    }
}

/// The first place from `at` on that holds no digit.
pub open spec fn after_digits(text: Seq<char>, at: int) -> int
    decreases text.len() - at,
{
    if 0 <= at < text.len() && is_digit(text[at]) {
        after_digits(text, at + 1)
    } else {
        at
    }
}

/// The number that the digits from `from` up to `to` write in base ten.
pub open spec fn decimal_value(text: Seq<char>, from: int, to: int) -> nat
    decreases to - from,
{
    if to <= from || to > text.len() || from < 0 {
        0
    } else {
        decimal_value(text, from, to - 1) * 10 + (text[to - 1] as u32 - '0' as u32) as nat
    }
}

/// Whether the text holds `word` at `at`.
pub open spec fn has_word(text: Seq<char>, at: int, word: Seq<char>) -> bool {
    0 <= at && at + word.len() <= text.len() && text.subrange(at, at + word.len()) == word
}

/// The data type whose name stands at `at`, and the place after the name.
/// Of two names that fit, the one listed first decides.
pub open spec fn data_type_name_at(text: Seq<char>, at: int) -> Option<(DataType, int)> {
    if has_word(text, at, "length-percentage"@) {
        Some((DataType::LengthPercentage, at + "length-percentage"@.len()))
    } else if has_word(text, at, "length"@) {
        Some((DataType::Length, at + "length"@.len()))
    } else if has_word(text, at, "number"@) {
        Some((DataType::Number, at + "number"@.len()))
    } else if has_word(text, at, "percentage"@) {
        Some((DataType::Percentage, at + "percentage"@.len()))
    } else if has_word(text, at, "string"@) {
        Some((DataType::String, at + "string"@.len()))
    } else if has_word(text, at, "color"@) {
        Some((DataType::Color, at + "color"@.len()))
    } else if has_word(text, at, "url"@) {
        Some((DataType::Url, at + "url"@.len()))
    } else if has_word(text, at, "integer"@) {
        Some((DataType::Integer, at + "integer"@.len()))
    } else if has_word(text, at, "angle"@) {
        Some((DataType::Angle, at + "angle"@.len()))
    } else if has_word(text, at, "time"@) {
        Some((DataType::Time, at + "time"@.len()))
    } else if has_word(text, at, "resolution"@) {
        Some((DataType::Resolution, at + "resolution"@.len()))
    } else if has_word(text, at, "transform-function"@) {
        Some((DataType::TransformFunction, at + "transform-function"@.len()))
    } else if has_word(text, at, "custom-ident"@) {
        Some((DataType::CustomIdent, at + "custom-ident"@.len()))
    } else {
        None
    }
}

/// A data type in angle brackets at `at`. Once `<` is read there is no way
/// back: an unknown name or a missing `>` is a failure.
pub open spec fn data_type_at(text: Seq<char>, at: int) -> Parsed<DataType> {
    if !has_char(text, at, '<') {
        Parsed::Mismatch
    } else {
        match data_type_name_at(text, at + 1) {
            None => Parsed::Failure,
            Some((data_type, next)) => if has_char(text, next, '>') {
                Parsed::Match(data_type, next + 1)
            } else {
                Parsed::Failure
            },
        }
    }
}

/// A number of at least one digit at `at`. One that does not fit the
/// machine's word is a failure.
pub open spec fn bound_at(text: Seq<char>, at: int) -> Parsed<usize> {
    let end = after_digits(text, at);
    if end <= at {
        Parsed::Mismatch
    } else if decimal_value(text, at, end) > usize::MAX {
        Parsed::Failure
    } else {
        Parsed::Match(decimal_value(text, at, end) as usize, end)
    }
}

/// The bounds of a repeat at `at`: `{`, a number, `,`, a number, `}`.
pub open spec fn repeat_bounds_at(text: Seq<char>, at: int) -> Parsed<(usize, usize)> {
    if !has_char(text, at, '{') {
        Parsed::Mismatch
    } else {
        match bound_at(text, at + 1) {
            Parsed::Mismatch => Parsed::Mismatch,
            Parsed::Failure => Parsed::Failure,
            Parsed::Match(minimum, comma) => if !has_char(text, comma, ',') {
                Parsed::Mismatch
            } else {
                match bound_at(text, comma + 1) {
                    Parsed::Mismatch => Parsed::Mismatch,
                    Parsed::Failure => Parsed::Failure,
                    Parsed::Match(maximum, close) => if has_char(text, close, '}') {
                        Parsed::Match((minimum, maximum), close + 1)
                    } else {
                        Parsed::Mismatch
                    },
                }
            },
        }
    }
}

/// A keyword at `at`.
pub open spec fn keyword_at(text: Seq<char>, at: int) -> Parsed<SyntaxComponentView> {
    if 0 <= at < text.len() && is_custom_ident_start(text[at]) {
        Parsed::Match(
            SyntaxComponentView::Keyword(text.subrange(at, after_ident(text, at + 1))),
            after_ident(text, at + 1),
        )
    } else {
        Parsed::Mismatch
    }
}

/// A component at `at`, with no blanks around it.
pub open spec fn bare_component_at(text: Seq<char>, at: int) -> Parsed<SyntaxComponentView> {
    match data_type_at(text, at) {
        Parsed::Failure => Parsed::Failure,
        Parsed::Match(data_type, next) => match repeat_bounds_at(text, next) {
            Parsed::Failure => Parsed::Failure,
            Parsed::Match((minimum, maximum), end) => Parsed::Match(
                SyntaxComponentView::Repeat { data_type, minimum, maximum },
                end,
            ),
            Parsed::Mismatch => if has_char(text, next, '+') {
                Parsed::Match(SyntaxComponentView::SpaceSeparatedList(data_type), next + 1)
            } else if has_char(text, next, '#') {
                Parsed::Match(SyntaxComponentView::CommaSeparatedList(data_type), next + 1)
            } else {
                Parsed::Match(SyntaxComponentView::DataType(data_type), next)
            },
        },
        Parsed::Mismatch => match keyword_at(text, at) {
            Parsed::Match(keyword, next) => Parsed::Match(keyword, next),
            _ => if has_char(text, at, ',') {
                Parsed::Match(SyntaxComponentView::Comma, at + 1)
            } else {
                Parsed::Mismatch
            },
        },
    }
}

/// A component at `at`, with the blanks around it.
pub open spec fn component_at(text: Seq<char>, at: int) -> Parsed<SyntaxComponentView> {
    match bare_component_at(text, after_blanks(text, at)) {
        Parsed::Match(component, next) => Parsed::Match(component, after_blanks(text, next)),
        Parsed::Mismatch => Parsed::Mismatch,
        Parsed::Failure => Parsed::Failure,
    }
}

/// What reading as many constructs as there are, one after the other, gives:
/// the constructs, the place after the last, and whether reading failed.
pub struct Run<T> {
    pub items: Seq<T>,
    pub end: int,
    pub failed: bool,
}

/// A group at `at`: an expression in parentheses, or a component.
pub open spec fn group_at(text: Seq<char>, at: int) -> Parsed<SyntaxGroupView>
    decreases text.len() - at, 1nat,
{
    let open = after_blanks(text, at);
    if has_char(text, open, '(') {
        if at < after_blanks(text, open + 1) <= text.len() {
            match expression_at(text, after_blanks(text, open + 1)) {
                Parsed::Match(steps, next) => if has_char(text, after_blanks(text, next), ')') {
                    Parsed::Match(
                        SyntaxGroupView::Expression(steps),
                        after_blanks(text, after_blanks(text, next) + 1),
                    )
                } else {
                    Parsed::Mismatch
                },
                Parsed::Mismatch => Parsed::Mismatch,
                Parsed::Failure => Parsed::Failure,
            }
        } else {
            Parsed::Mismatch
        }
    } else {
        match component_at(text, at) {
            Parsed::Match(component, next) => Parsed::Match(
                SyntaxGroupView::Component(component),
                next,
            ),
            Parsed::Mismatch => Parsed::Mismatch,
            Parsed::Failure => Parsed::Failure,
        }
    }
}

/// The groups that follow the first group of a choice, each after a `|`.
pub open spec fn more_groups_at(text: Seq<char>, at: int) -> Run<SyntaxGroupView>
    decreases text.len() - at, 2nat,
{
    if has_char(text, at, '|') {
        match group_at(text, at + 1) {
            Parsed::Match(group, next) => if at < next <= text.len() {
                let rest = more_groups_at(text, next);
                Run { items: seq![group] + rest.items, end: rest.end, failed: rest.failed }
            } else {
                Run { items: Seq::empty(), end: at, failed: false }
            },
            Parsed::Mismatch => Run { items: Seq::empty(), end: at, failed: false },
            Parsed::Failure => Run { items: Seq::empty(), end: at, failed: true },
        }
    } else {
        Run { items: Seq::empty(), end: at, failed: false }
    }
}

/// One step of an expression at `at`: a group, or a choice of groups.
pub open spec fn alternatives_at(text: Seq<char>, at: int) -> Parsed<SyntaxAlternativesView>
    decreases text.len() - at, 3nat,
{
    match group_at(text, at) {
        Parsed::Match(group, next) => {
            let more = if at <= next <= text.len() {
                more_groups_at(text, next)
            } else {
                Run { items: Seq::empty(), end: next, failed: false }
            };
            if more.failed {
                Parsed::Failure
            } else if more.items.len() > 0 {
                Parsed::Match(
                    SyntaxAlternativesView::Alternatives(seq![group] + more.items),
                    more.end,
                )
            } else {
                match group {
                    SyntaxGroupView::Component(component) => Parsed::Match(
                        SyntaxAlternativesView::Component(component),
                        next,
                    ),
                    _ => Parsed::Match(SyntaxAlternativesView::Group(group), next),
                }
            }
        },
        Parsed::Mismatch => Parsed::Mismatch,
        Parsed::Failure => Parsed::Failure,
    }
}

/// The steps of an expression from `at` on, as many as there are.
pub open spec fn steps_at(text: Seq<char>, at: int) -> Run<SyntaxAlternativesView>
    decreases text.len() - at, 4nat,
{
    match alternatives_at(text, at) {
        Parsed::Match(step, next) => if at < next <= text.len() {
            let rest = steps_at(text, next);
            Run { items: seq![step] + rest.items, end: rest.end, failed: rest.failed }
        } else {
            Run { items: Seq::empty(), end: at, failed: false }
        },
        Parsed::Mismatch => Run { items: Seq::empty(), end: at, failed: false },
        Parsed::Failure => Run { items: Seq::empty(), end: at, failed: true },
    }
}

/// An expression at `at`: one step or more.
pub open spec fn expression_at(text: Seq<char>, at: int) -> Parsed<Seq<SyntaxAlternativesView>>
    decreases text.len() - at, 5nat,
{
    let run = steps_at(text, at);
    if run.failed {
        Parsed::Failure
    } else if run.items.len() == 0 {
        Parsed::Mismatch
    } else {
        Parsed::Match(run.items, run.end)
    }
}

/// The syntax that a descriptor writes, if it writes one: `*` alone is the
/// universal syntax, anything else has to start with an expression.
pub open spec fn syntax_of(text: Seq<char>) -> Option<ParsedPropertySyntaxView> {
    if has_char(text, after_blanks(text, 0), '*') {
        Some(ParsedPropertySyntaxView::Universal)
    } else {
        match expression_at(text, 0) {
            Parsed::Match(steps, _) => Some(ParsedPropertySyntaxView::Expression(steps)),
            _ => None,
        }
    }
}

} // verus!

verus! {

/// Digits end at or after the place where they start, within the text.
pub proof fn lemma_after_digits_bounds(text: Seq<char>, at: int)
    requires
        0 <= at <= text.len(),
    ensures
        at <= after_digits(text, at) <= text.len(),
    decreases text.len() - at,
{
    if at < text.len() && is_digit(text[at]) {
        lemma_after_digits_bounds(text, at + 1);
    }
}

/// More digits write no smaller a number.
pub proof fn lemma_decimal_value_grows(text: Seq<char>, from: int, mid: int, to: int)
    requires
        0 <= from <= mid <= to <= text.len(),
    ensures
        decimal_value(text, from, mid) <= decimal_value(text, from, to),
    decreases to - mid,
{
    if mid < to {
        lemma_decimal_value_grows(text, from, mid, to - 1);
    }
}

/// Whether a keyword can start with the character.
pub fn custom_ident_start(c: char) -> (yes: bool)
    ensures
        yes == is_custom_ident_start(c),
{
    let code: u32 = c as u32;
    ('a' <= c && c <= 'z') || ('A' <= c && c <= 'Z') || c == '_' || code == 0xB7 || (0xCD <= code
        && code <= 0xD7) || (0xD8 <= code && code <= 0xF6) || (0xF8 <= code && code <= 0x37D) || (
    0x37F <= code && code <= 0x1FFF) || code == 0x200C || code == 0x200D || code == 0x203F || code
        == 0x2040 || (0x2070 <= code && code <= 0x218F) || (0x2C00 <= code && code <= 0x2FEF) || (
    0x3001 <= code && code <= 0xD7FF) || (0xF900 <= code && code <= 0xFDCF) || (0xFDF0 <= code
        && code <= 0xFFFD) || (0x10000 <= code && code <= 0x10FFFF)
}

/// Whether a keyword can go on with the character.
pub fn custom_ident(c: char) -> (yes: bool)
    ensures
        yes == is_custom_ident(c),
{
    custom_ident_start(c) || ('0' <= c && c <= '9') || c == '-'
}

/// Whether the text holds `c` at `at`.
fn char_is(text: &str, length: usize, at: usize, c: char) -> (yes: bool)
    requires
        length == text@.len(),
    ensures
        yes == has_char(text@, at as int, c),
{
    at < length && text.get_char(at) == c
}

/// The first place from `at` on that holds no blank.
fn skip_blanks(text: &str, length: usize, at: usize) -> (next: usize)
    requires
        length == text@.len(),
        at <= length,
    ensures
        next == after_blanks(text@, at as int),
        at <= next <= length,
{
    let mut next: usize = at;
    while next < length && (text.get_char(next) == ' ' || text.get_char(next) == '\t')
        invariant
            length == text@.len(),
            at <= next <= length,
            after_blanks(text@, at as int) == after_blanks(text@, next as int),
        decreases length - next,
    {
        next += 1;
    }
    next
}

/// Whether the text holds `word` at `at`.
fn word_is(text: &str, length: usize, at: usize, word: &str) -> (yes: bool)
    requires
        length == text@.len(),
        at <= length,
    ensures
        yes == has_word(text@, at as int, word@),
{
    let size = word.unicode_len();
    if size > length - at {
        return false;
    }
    let mut k: usize = 0;
    while k < size
        invariant
            length == text@.len(),
            size == word@.len(),
            at + size <= length,
            k <= size,
            forall|j: int| 0 <= j < k ==> text@[at + j] == word@[j],
        decreases size - k,
    {
        if text.get_char(at + k) != word.get_char(k) {
            assert(text@.subrange(at as int, at + size)[k as int] != word@[k as int]);
            return false;
        }
        k += 1;
    }
    assert(text@.subrange(at as int, at + size) =~= word@);
    true
}

/// Reads the name of a data type at `at`.
fn data_type_name(text: &str, length: usize, at: usize) -> (found: Option<(DataType, usize)>)
    requires
        length == text@.len(),
        at <= length,
    ensures
        match found {
            Some((data_type, next)) => data_type_name_at(text@, at as int) == Some(
                (data_type, next as int),
            ),
            None => data_type_name_at(text@, at as int) is None,
        },
        found matches Some((_, next)) ==> at < next <= length,
{
    let names: [(&str, DataType); 13] = [
        ("length-percentage", DataType::LengthPercentage),
        ("length", DataType::Length),
        ("number", DataType::Number),
        ("percentage", DataType::Percentage),
        ("string", DataType::String),
        ("color", DataType::Color),
        ("url", DataType::Url),
        ("integer", DataType::Integer),
        ("angle", DataType::Angle),
        ("time", DataType::Time),
        ("resolution", DataType::Resolution),
        ("transform-function", DataType::TransformFunction),
        ("custom-ident", DataType::CustomIdent),
    ];
    proof {
        reveal_strlit("length-percentage");
        reveal_strlit("length");
        reveal_strlit("number");
        reveal_strlit("percentage");
        reveal_strlit("string");
        reveal_strlit("color");
        reveal_strlit("url");
        reveal_strlit("integer");
        reveal_strlit("angle");
        reveal_strlit("time");
        reveal_strlit("resolution");
        reveal_strlit("transform-function");
        reveal_strlit("custom-ident");
    }
    let mut k: usize = 0;
    while k < 13
        invariant
            length == text@.len(),
            at <= length,
            k <= 13,
            names[0] == ("length-percentage", DataType::LengthPercentage),
            names[1] == ("length", DataType::Length),
            names[2] == ("number", DataType::Number),
            names[3] == ("percentage", DataType::Percentage),
            names[4] == ("string", DataType::String),
            names[5] == ("color", DataType::Color),
            names[6] == ("url", DataType::Url),
            names[7] == ("integer", DataType::Integer),
            names[8] == ("angle", DataType::Angle),
            names[9] == ("time", DataType::Time),
            names[10] == ("resolution", DataType::Resolution),
            names[11] == ("transform-function", DataType::TransformFunction),
            names[12] == ("custom-ident", DataType::CustomIdent),
            forall|j: int| 0 <= j < k ==> !has_word(text@, at as int, (#[trigger] names[j]).0@),
            forall|j: int| 0 <= j < 13 ==> 0 < (#[trigger] names[j]).0@.len(),
        decreases 13 - k,
    {
        let name = names[k].0;
        if word_is(text, length, at, name) {
            let size = name.unicode_len();
            return Some((names[k].1, at + size));
        }
        k += 1;
    }
    None
}

} // verus!

verus! {

/// Reads a data type in angle brackets at `at`.
fn data_type(text: &str, length: usize, at: usize) -> (outcome: Outcome<DataType>)
    requires
        length == text@.len(),
        at <= length,
    ensures
        outcome.parsed() == data_type_at(text@, at as int),
        outcome matches Outcome::Match(_, next) ==> at < next <= length,
{
    if !char_is(text, length, at, '<') {
        return Outcome::Mismatch;
    }
    match data_type_name(text, length, at + 1) {
        None => Outcome::Failure,
        Some((data_type, next)) => {
            if char_is(text, length, next, '>') {
                Outcome::Match(data_type, next + 1)
            } else {
                Outcome::Failure
            }
        },
    }
}

/// Reads a bound of a repeat at `at`: a number of at least one digit.
fn bound(text: &str, length: usize, at: usize) -> (outcome: Outcome<usize>)
    requires
        length == text@.len(),
        at <= length,
    ensures
        outcome.parsed() == bound_at(text@, at as int),
        outcome matches Outcome::Match(_, next) ==> at < next <= length,
{
    let mut value: usize = 0;
    let mut next: usize = at;
    while next < length && '0' <= text.get_char(next) && text.get_char(next) <= '9'
        invariant
            length == text@.len(),
            at <= next <= length,
            after_digits(text@, at as int) == after_digits(text@, next as int),
            value == decimal_value(text@, at as int, next as int),
        decreases length - next,
    {
        let digit: usize = (text.get_char(next) as u32 - '0' as u32) as usize;
        if value > (usize::MAX - digit) / 10 {
            proof {
                lemma_after_digits_bounds(text@, next as int + 1);
                lemma_decimal_value_grows(
                    text@,
                    at as int,
                    next as int + 1,
                    after_digits(text@, at as int),
                );
                assert(value * 10 + digit > usize::MAX) by (nonlinear_arith)
                    requires
                        value > (usize::MAX - digit) / 10,
                        0 <= digit <= 9,
                ;
            }
            return Outcome::Failure;
        }
        value = value * 10 + digit;
        next += 1;
    }
    if next == at {
        Outcome::Mismatch
    } else {
        Outcome::Match(value, next)
    }
}

/// Reads the bounds of a repeat at `at`.
fn repeat_bounds(text: &str, length: usize, at: usize) -> (outcome: Outcome<(usize, usize)>)
    requires
        length == text@.len(),
        at <= length,
    ensures
        outcome.parsed() == repeat_bounds_at(text@, at as int),
        outcome matches Outcome::Match(_, next) ==> at < next <= length,
{
    if !char_is(text, length, at, '{') {
        return Outcome::Mismatch;
    }
    match bound(text, length, at + 1) {
        Outcome::Mismatch => Outcome::Mismatch,
        Outcome::Failure => Outcome::Failure,
        Outcome::Match(minimum, comma) => {
            if !char_is(text, length, comma, ',') {
                return Outcome::Mismatch;
            }
            match bound(text, length, comma + 1) {
                Outcome::Mismatch => Outcome::Mismatch,
                Outcome::Failure => Outcome::Failure,
                Outcome::Match(maximum, close) => {
                    if char_is(text, length, close, '}') {
                        Outcome::Match((minimum, maximum), close + 1)
                    } else {
                        Outcome::Mismatch
                    }
                },
            }
        },
    }
}

/// Reads a keyword at `at`.
fn keyword(text: &str, length: usize, at: usize) -> (outcome: Outcome<SyntaxComponent>)
    requires
        length == text@.len(),
        at <= length,
    ensures
        outcome.parsed() == keyword_at(text@, at as int),
        outcome matches Outcome::Match(_, next) ==> at < next <= length,
{
    if at >= length || !custom_ident_start(text.get_char(at)) {
        return Outcome::Mismatch;
    }
    let mut next: usize = at + 1;
    while next < length && custom_ident(text.get_char(next))
        invariant
            length == text@.len(),
            at < next <= length,
            after_ident(text@, at as int + 1) == after_ident(text@, next as int),
        decreases length - next,
    {
        next += 1;
    }
    let word = text.substring_char(at, next).to_owned();
    Outcome::Match(SyntaxComponent::Keyword(word), next)
}

/// Reads a component at `at`, with no blanks around it: a repeat, a list, a
/// data type, a keyword or a comma.
fn bare_component(text: &str, length: usize, at: usize) -> (outcome: Outcome<SyntaxComponent>)
    requires
        length == text@.len(),
        at <= length,
    ensures
        outcome.parsed() == bare_component_at(text@, at as int),
        outcome matches Outcome::Match(_, next) ==> at < next <= length,
{
    match data_type(text, length, at) {
        Outcome::Failure => Outcome::Failure,
        Outcome::Match(data_type, next) => match repeat_bounds(text, length, next) {
            Outcome::Failure => Outcome::Failure,
            Outcome::Match((minimum, maximum), end) => Outcome::Match(
                SyntaxComponent::Repeat { data_type, minimum, maximum },
                end,
            ),
            Outcome::Mismatch => {
                if char_is(text, length, next, '+') {
                    Outcome::Match(SyntaxComponent::SpaceSeparatedList(data_type), next + 1)
                } else if char_is(text, length, next, '#') {
                    Outcome::Match(SyntaxComponent::CommaSeparatedList(data_type), next + 1)
                } else {
                    Outcome::Match(SyntaxComponent::DataType(data_type), next)
                }
            },
        },
        Outcome::Mismatch => match keyword(text, length, at) {
            Outcome::Match(word, next) => Outcome::Match(word, next),
            _ => {
                if char_is(text, length, at, ',') {
                    Outcome::Match(SyntaxComponent::Comma, at + 1)
                } else {
                    Outcome::Mismatch
                }
            },
        },
    }
}

/// Reads a component at `at`, with the blanks around it.
fn component(text: &str, length: usize, at: usize) -> (outcome: Outcome<SyntaxComponent>)
    requires
        length == text@.len(),
        at <= length,
    ensures
        outcome.parsed() == component_at(text@, at as int),
        outcome matches Outcome::Match(_, next) ==> at < next <= length,
{
    let start = skip_blanks(text, length, at);
    match bare_component(text, length, start) {
        Outcome::Match(found, next) => Outcome::Match(found, skip_blanks(text, length, next)),
        Outcome::Mismatch => Outcome::Mismatch,
        Outcome::Failure => Outcome::Failure,
    }
}

/// Reads a group at `at`: an expression in parentheses, or a component.
fn group(text: &str, length: usize, at: usize) -> (outcome: Outcome<SyntaxGroup>)
    requires
        length == text@.len(),
        at <= length,
    ensures
        outcome.parsed() == group_at(text@, at as int),
        outcome matches Outcome::Match(_, next) ==> at < next <= length,
    decreases length - at, 1nat,
{
    let open = skip_blanks(text, length, at);
    if char_is(text, length, open, '(') {
        let inner = skip_blanks(text, length, open + 1);
        match expression(text, length, inner) {
            Outcome::Match(steps, next) => {
                let close = skip_blanks(text, length, next);
                if char_is(text, length, close, ')') {
                    proof {
                        lemma_group_expression_view(steps);
                    }
                    Outcome::Match(
                        SyntaxGroup::Expression(steps),
                        skip_blanks(text, length, close + 1),
                    )
                } else {
                    Outcome::Mismatch
                }
            },
            Outcome::Mismatch => Outcome::Mismatch,
            Outcome::Failure => Outcome::Failure,
        }
    } else {
        match component(text, length, at) {
            Outcome::Match(found, next) => Outcome::Match(SyntaxGroup::Component(found), next),
            Outcome::Mismatch => Outcome::Mismatch,
            Outcome::Failure => Outcome::Failure,
        }
    }
}

/// Reads one step of an expression at `at`: a group, or a choice of groups
/// with `|` between them.
fn alternatives(text: &str, length: usize, at: usize) -> (outcome: Outcome<SyntaxAlternatives>)
    requires
        length == text@.len(),
        at <= length,
    ensures
        outcome.parsed() == alternatives_at(text@, at as int),
        outcome matches Outcome::Match(_, next) ==> at < next <= length,
    decreases length - at, 3nat,
{
    let (first, after_first) = match group(text, length, at) {
        Outcome::Match(first, next) => (first, next),
        Outcome::Mismatch => {
            return Outcome::Mismatch;
        },
        Outcome::Failure => {
            return Outcome::Failure;
        },
    };
    let ghost first_view = first.deep_view();
    let mut groups: Vec<SyntaxGroup> = Vec::new();
    let mut end: usize = after_first;
    let mut single: Option<SyntaxGroup> = Some(first);
    loop
        invariant
            length == text@.len(),
            at < after_first <= end <= length,
            group_at(text@, at as int) == Parsed::Match(first_view, after_first as int),
            match single {
                Some(group) => groups.len() == 0 && group.deep_view() == first_view && end
                    == after_first,
                None => groups.len() > 1,
            },
            ({
                let rest = more_groups_at(text@, end as int);
                let all = more_groups_at(text@, after_first as int);
                &&& all.failed == rest.failed
                &&& all.end == rest.end
                &&& seq![first_view] + all.items == (if single is Some {
                    seq![first_view]
                } else {
                    groups.deep_view()
                }) + rest.items
            }),
        ensures
            !more_groups_at(text@, end as int).failed,
            more_groups_at(text@, end as int).items.len() == 0,
            more_groups_at(text@, end as int).end == end,
        decreases length - end,
    {
        if !char_is(text, length, end, '|') {
            break ;
        }
        match group(text, length, end + 1) {
            Outcome::Match(next_group, next) => {
                if next <= end {
                    break ;
                }
                let ghost before = groups;
                let ghost rest = more_groups_at(text@, end as int);
                let ghost later = more_groups_at(text@, next as int);
                proof {
                    assert(rest.items == seq![next_group.deep_view()] + later.items);
                }
                match single {
                    Some(group) => {
                        groups.push(group);
                        proof {
                            lemma_deep_view_push(before, groups, group);
                            assert(groups.deep_view() =~= seq![first_view]);
                        }
                        single = None;
                    },
                    None => {},
                }
                let ghost middle = groups;
                groups.push(next_group);
                proof {
                    lemma_deep_view_push(middle, groups, next_group);
                    assert(groups.deep_view() + later.items =~= middle.deep_view() + rest.items);
                }
                end = next;
            },
            Outcome::Mismatch => {
                break ;
            },
            Outcome::Failure => {
                return Outcome::Failure;
            },
        }
    }
    match single {
        Some(group) => {
            proof {
                let all = more_groups_at(text@, after_first as int);
                assert(seq![first_view] + all.items == seq![first_view] + more_groups_at(
                    text@,
                    end as int,
                ).items);
                assert((seq![first_view] + all.items).len() == 1);
                assert(all.items.len() == 0);
            }
            match group {
                SyntaxGroup::Component(found) => Outcome::Match(
                    SyntaxAlternatives::Component(found),
                    after_first,
                ),
                other => Outcome::Match(SyntaxAlternatives::Group(other), after_first),
            }
        },
        None => {
            proof {
                lemma_alternatives_list_view(groups);
                let all = more_groups_at(text@, after_first as int);
                let rest = more_groups_at(text@, end as int);
                assert(rest.items =~= Seq::empty());
                assert(seq![first_view] + all.items =~= groups.deep_view());
                assert((seq![first_view] + all.items).len() == 1 + all.items.len());
                assert(groups.deep_view().len() > 1);
                assert(all.items.len() > 0);
            }
            Outcome::Match(SyntaxAlternatives::Alternatives(groups), end)
        },
    }
}

/// Reads an expression at `at`: one step or more.
fn expression(text: &str, length: usize, at: usize) -> (outcome: Outcome<
    Vec<SyntaxAlternatives>,
>)
    requires
        length == text@.len(),
        at <= length,
    ensures
        outcome.parsed() == expression_at(text@, at as int),
        outcome matches Outcome::Match(_, next) ==> at < next <= length,
    decreases length - at, 5nat,
{
    let mut steps: Vec<SyntaxAlternatives> = Vec::new();
    let mut end: usize = at;
    loop
        invariant
            length == text@.len(),
            at <= end <= length,
            steps.len() > 0 ==> at < end,
            ({
                let rest = steps_at(text@, end as int);
                let all = steps_at(text@, at as int);
                &&& all.failed == rest.failed
                &&& all.end == rest.end
                &&& all.items == steps.deep_view() + rest.items
            }),
        ensures
            !steps_at(text@, end as int).failed,
            steps_at(text@, end as int).items.len() == 0,
            steps_at(text@, end as int).end == end,
        decreases length - end,
    {
        match alternatives(text, length, end) {
            Outcome::Match(step, next) => {
                if next <= end {
                    break ;
                }
                let ghost before = steps;
                let ghost rest = steps_at(text@, end as int);
                let ghost later = steps_at(text@, next as int);
                steps.push(step);
                proof {
                    lemma_deep_view_push(before, steps, step);
                    assert(rest.items == seq![step.deep_view()] + later.items);
                    assert(steps.deep_view() + later.items =~= before.deep_view() + rest.items);
                }
                end = next;
            },
            Outcome::Mismatch => {
                break ;
            },
            Outcome::Failure => {
                return Outcome::Failure;
            },
        }
    }
    proof {
        assert(steps_at(text@, end as int).items =~= Seq::empty());
        assert(steps_at(text@, at as int).items =~= steps.deep_view());
    }
    if steps.len() == 0 {
        Outcome::Mismatch
    } else {
        Outcome::Match(steps, end)
    }
}

/// Reads a syntax descriptor. What follows the last step of the expression is
/// not looked at.
pub fn parse_syntax(input: &str, location: SourceLocation) -> (outcome: Result<
    ParsedPropertySyntax,
    ParseError,
>)
    ensures
        match outcome {
            Ok(syntax) => syntax_of(input@) == Some(syntax.deep_view()),
            Err(error) => {
                &&& syntax_of(input@) is None
                &&& error.kind == ParseErrorKind::InvalidPropertySyntax
                &&& error.location.deep_view() == location.deep_view()
            },
        },
{
    let length = input.unicode_len();
    let start = skip_blanks(input, length, 0);
    if char_is(input, length, start, '*') {
        return Ok(ParsedPropertySyntax::Universal);
    }
    match expression(input, length, 0) {
        Outcome::Match(steps, _) => Ok(ParsedPropertySyntax::Expression(steps)),
        Outcome::Mismatch => Err(
            ParseError::new(
                ParseErrorKind::InvalidPropertySyntax,
                "Input did not match an expression",
                location,
            ),
        ),
        Outcome::Failure => Err(
            ParseError::new(ParseErrorKind::InvalidPropertySyntax, "Invalid data type", location),
        ),
    }
}

} // verus!

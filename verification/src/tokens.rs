//! The token source: what the tokenizer of `cssparser` and the color parser
//! of `cssparser_color` find in a range of a text, held as plain values.
//!
//! A place in a text is a byte offset. Every function here looks at the range
//! from `from` up to `to` of `text` and nowhere else, so that the content of a
//! block can be read as a range of its own. A range that is no range of the
//! text, or that cuts a character, holds nothing.
//!
//! The functions whose names begin with `read_` call the outside crates, one
//! outside function each. They measure places from the start of the range.
//! Of what they return nothing is proved: it is given a name, and the
//! contracts of the library speak of it by that name.

use cssparser::{Delimiter, Parser, ToCss, Token};
use cssparser_color::{Color, Hsl, Hwb};
use vstd::prelude::*;
use crate::details::{SourceLocation, SourceLocationView};

verus! {

/// The tokens that carry a text.
#[derive(Debug, Clone, Copy, PartialEq, Eq, Structural)]
pub enum TextKind {
    Ident,
    AtKeyword,
    QuotedString,
    Function,
}

/// The tokens that carry a number.
#[derive(Debug, Clone, Copy, PartialEq, Eq, Structural)]
pub enum NumericKind {
    Number,
    Percentage,
    Dimension,
}

/// The tokens that carry nothing and that the parsers tell apart.
#[derive(Debug, Clone, Copy, PartialEq, Eq, Structural)]
pub enum Mark {
    Colon,
    Semicolon,
    Comma,
    CurlyBracketBlock,
    Cdo,
    Cdc,
}

/// Where a part of a rule or of a declaration ends.
#[derive(Debug, Clone, Copy, PartialEq, Eq, Structural)]
pub enum Stop {
    Bang,
    Semicolon,
    CurlyBracketBlock,
    SemicolonOrCurlyBracketBlock,
}

/// A token as `cssparser::Parser::next` returns it, as far as the parsers
/// read it from there. Numbers are held as bit patterns.
#[derive(Debug, PartialEq, Eq)]
pub enum Lexeme {
    AtKeyword(String),
    Number { value: u32, int_value: Option<i32> },
    Percentage { unit_value: u32 },
    Dimension { value: u32, unit: String },
    Cdo,
    Cdc,
    /// Any other token.
    Other,
}

/// The mathematical value of a [`Lexeme`].
pub enum LexemeView {
    AtKeyword(Seq<char>),
    Number { value: u32, int_value: Option<i32> },
    Percentage { unit_value: u32 },
    Dimension { value: u32, unit: Seq<char> },
    Cdo,
    Cdc,
    Other,
}

impl DeepView for Lexeme {
    type V = LexemeView;

    open spec fn deep_view(&self) -> LexemeView {
        match *self {
            Lexeme::AtKeyword(name) => LexemeView::AtKeyword(name@),
            Lexeme::Number { value, int_value } => LexemeView::Number { value, int_value },
            Lexeme::Percentage { unit_value } => LexemeView::Percentage { unit_value },
            Lexeme::Dimension { value, unit } => LexemeView::Dimension { value, unit: unit@ },
            Lexeme::Cdo => LexemeView::Cdo,
            Lexeme::Cdc => LexemeView::Cdc,
            Lexeme::Other => LexemeView::Other,
        }
    }
}

/// A color as the color parser of `cssparser_color` hands it out, as far as
/// the parsers read it from there. Numbers are held as bit patterns.
#[derive(Debug, Clone, Copy, PartialEq, Eq, Structural)]
pub enum ParsedColor {
    /// Three channels, and the opacity.
    Rgba { red: u8, green: u8, blue: u8, alpha: u32 },
    /// A color that was written as `hsl()` or `hwb()`: its hue in degrees
    /// and its opacity, where they were written.
    ByHue { hue: Option<u32>, opacity: Option<u32> },
}

/// The token that comes first in the range, after blanks and comments, and
/// how far into the range it ends; `None` where the range holds no token.
pub uninterp spec fn found_next(text: Seq<char>, from: int, to: int) -> Option<(LexemeView, int)>;

/// The identifier that comes first in the range, and how far into the range
/// it ends.
pub uninterp spec fn found_ident(text: Seq<char>, from: int, to: int) -> Option<(Seq<char>, int)>;

/// The quoted string that comes first in the range, without its quotes, and
/// how far into the range it ends.
pub uninterp spec fn found_string(text: Seq<char>, from: int, to: int) -> Option<
    (Seq<char>, int),
>;

/// The name of the function whose call comes first in the range, and how far
/// into the range its opening parenthesis ends.
pub uninterp spec fn found_function(text: Seq<char>, from: int, to: int) -> Option<
    (Seq<char>, int),
>;

/// How far into the range the comma ends that comes first in it.
pub uninterp spec fn found_comma(text: Seq<char>, from: int, to: int) -> Option<int>;

/// How far into the range the colon ends that comes first in it.
pub uninterp spec fn found_colon(text: Seq<char>, from: int, to: int) -> Option<int>;

/// How far into the range the semicolon ends that comes first in it.
pub uninterp spec fn found_semicolon(text: Seq<char>, from: int, to: int) -> Option<int>;

/// How far into the range the opening curly bracket ends that comes first in
/// it.
pub uninterp spec fn found_curly_bracket(text: Seq<char>, from: int, to: int) -> Option<int>;

/// How far into the range the content of the block begins that the first
/// token of the range opens, how far it ends, and how far the closing token
/// of the block ends; `None` where the first token opens no block.
pub uninterp spec fn found_block(text: Seq<char>, from: int, to: int) -> Option<(int, int, int)>;

/// How far into the range the blanks and comments at its start go.
pub uninterp spec fn found_blanks(text: Seq<char>, from: int, to: int) -> int;

/// How far into the range, outside of any block, the first of the stopping
/// characters stands; the length of the range where there is none.
pub uninterp spec fn found_stop(text: Seq<char>, from: int, to: int, stop: Stop) -> int;

/// The URL that comes first in the range, written bare or as a quoted string
/// inside `url( )`, and how far into the range it ends.
pub uninterp spec fn found_url(text: Seq<char>, from: int, to: int) -> Option<(Seq<char>, int)>;

/// The color that comes first in the range, and how far into the range it
/// ends; `None` where no color stands there, or one that is written neither
/// in channels nor by hue.
pub uninterp spec fn found_color(text: Seq<char>, from: int, to: int) -> Option<
    (ParsedColor, int),
>;

/// The CSS text in channels of the color that comes first in the range and
/// is written by hue.
pub uninterp spec fn hue_color_css_at(text: Seq<char>, from: int, to: int) -> Seq<char>;

/// The line and the column of a place in a text. Lines are counted from 0,
/// columns from 1.
pub uninterp spec fn found_line_and_column(text: Seq<char>, at: int) -> (u32, u32);

/// The name under which a text says at a place that it is known: the name in
/// the last `sourceURL` comment before the place; the empty name where there
/// is none.
pub uninterp spec fn found_source_url(text: Seq<char>, at: int) -> Seq<char>;

/// The mathematical value of a text and a place.
pub open spec fn placed_text(found: Option<(String, usize)>) -> Option<(Seq<char>, int)> {
    match found {
        Some((value, next)) => Some((value@, next as int)),
        None => None,
    }
}

/// The mathematical value of a place.
pub open spec fn placed_mark(found: Option<usize>) -> Option<int> {
    match found {
        Some(next) => Some(next as int),
        None => None,
    }
}

/// Calls `cssparser::Parser::next` on the range and hands out the token, as
/// far as the parsers read it from there, and how far into the range it ends.
/// The result depends on the text and the range alone; a token that was found
/// ends after the start of the range and inside it.
#[verifier::external_body]
pub(crate) fn read_next(text: &str, from: usize, to: usize) -> (found: Option<(Lexeme, usize)>)
    ensures
        found matches Some((lexeme, read)) ==> found_next(text@, from as int, to as int) == Some(
            (lexeme.deep_view(), read as int),
        ) && 0 < read <= to - from,
        found is None ==> found_next(text@, from as int, to as int) is None,
{
    let mut parser = Parser::new(text.get(from..to).unwrap_or(""));
    let lexeme = match parser.next().ok()? {
        Token::AtKeyword(name) => Lexeme::AtKeyword(name.to_string()),
        Token::Number { value, int_value, .. } => {
            Lexeme::Number { value: value.to_bits(), int_value: *int_value }
        },
        Token::Percentage { unit_value, .. } => Lexeme::Percentage { unit_value: unit_value.to_bits() },
        Token::Dimension { value, unit, .. } => {
            Lexeme::Dimension { value: value.to_bits(), unit: unit.to_string() }
        },
        Token::CDO => Lexeme::Cdo,
        Token::CDC => Lexeme::Cdc,
        _ => Lexeme::Other,
    };
    Some((lexeme, parser.position().byte_index()))
}

/// Calls `cssparser::Parser::expect_ident` on the range. The result depends
/// on the text and the range alone; an identifier that was found ends after
/// the start of the range and inside it.
#[verifier::external_body]
pub(crate) fn read_ident(text: &str, from: usize, to: usize) -> (found: Option<(String, usize)>)
    ensures
        placed_text(found) == found_ident(text@, from as int, to as int),
        found matches Some((_, read)) ==> 0 < read <= to - from,
{
    let mut parser = Parser::new(text.get(from..to).unwrap_or(""));
    let name = parser.expect_ident().ok()?.to_string();
    Some((name, parser.position().byte_index()))
}

/// Calls `cssparser::Parser::expect_string` on the range. The result depends
/// on the text and the range alone; a string that was found ends after the
/// start of the range and inside it.
#[verifier::external_body]
pub(crate) fn read_string(text: &str, from: usize, to: usize) -> (found: Option<(String, usize)>)
    ensures
        placed_text(found) == found_string(text@, from as int, to as int),
        found matches Some((_, read)) ==> 0 < read <= to - from,
{
    let mut parser = Parser::new(text.get(from..to).unwrap_or(""));
    let value = parser.expect_string().ok()?.to_string();
    Some((value, parser.position().byte_index()))
}

/// Calls `cssparser::Parser::expect_function` on the range. The result
/// depends on the text and the range alone; the opening parenthesis of a call
/// that was found ends after the start of the range and inside it.
#[verifier::external_body]
pub(crate) fn read_function(text: &str, from: usize, to: usize) -> (found: Option<
    (String, usize),
>)
    ensures
        placed_text(found) == found_function(text@, from as int, to as int),
        found matches Some((_, read)) ==> 0 < read <= to - from,
{
    let mut parser = Parser::new(text.get(from..to).unwrap_or(""));
    let name = parser.expect_function().ok()?.to_string();
    Some((name, parser.position().byte_index()))
}

/// Calls `cssparser::Parser::expect_comma` on the range. The result depends
/// on the text and the range alone; a comma that was found ends after the
/// start of the range and inside it.
#[verifier::external_body]
pub(crate) fn read_comma(text: &str, from: usize, to: usize) -> (found: Option<usize>)
    ensures
        placed_mark(found) == found_comma(text@, from as int, to as int),
        found matches Some(read) ==> 0 < read <= to - from,
{
    let mut parser = Parser::new(text.get(from..to).unwrap_or(""));
    parser.expect_comma().ok()?;
    Some(parser.position().byte_index())
}

/// Calls `cssparser::Parser::expect_colon` on the range. The result depends
/// on the text and the range alone; a colon that was found ends after the
/// start of the range and inside it.
#[verifier::external_body]
pub(crate) fn read_colon(text: &str, from: usize, to: usize) -> (found: Option<usize>)
    ensures
        placed_mark(found) == found_colon(text@, from as int, to as int),
        found matches Some(read) ==> 0 < read <= to - from,
{
    let mut parser = Parser::new(text.get(from..to).unwrap_or(""));
    parser.expect_colon().ok()?;
    Some(parser.position().byte_index())
}

/// Calls `cssparser::Parser::expect_semicolon` on the range. The result
/// depends on the text and the range alone; a semicolon that was found ends
/// after the start of the range and inside it.
#[verifier::external_body]
pub(crate) fn read_semicolon(text: &str, from: usize, to: usize) -> (found: Option<usize>)
    ensures
        placed_mark(found) == found_semicolon(text@, from as int, to as int),
        found matches Some(read) ==> 0 < read <= to - from,
{
    let mut parser = Parser::new(text.get(from..to).unwrap_or(""));
    parser.expect_semicolon().ok()?;
    Some(parser.position().byte_index())
}

/// Calls `cssparser::Parser::expect_curly_bracket_block` on the range. The
/// result depends on the text and the range alone; an opening bracket that
/// was found ends after the start of the range and inside it.
#[verifier::external_body]
pub(crate) fn read_curly_bracket(text: &str, from: usize, to: usize) -> (found: Option<usize>)
    ensures
        placed_mark(found) == found_curly_bracket(text@, from as int, to as int),
        found matches Some(read) ==> 0 < read <= to - from,
{
    let mut parser = Parser::new(text.get(from..to).unwrap_or(""));
    parser.expect_curly_bracket_block().ok()?;
    Some(parser.position().byte_index())
}

/// Takes the first token of the range and, if it opens a block or a
/// function, calls `cssparser::Parser::parse_nested_block`; inside the block
/// `parse_until_before` runs to the end of the content, so that the place
/// where the content ends can be read. Hands out how far into the range the
/// opening token ends, the content ends and the closing token ends. The
/// result depends on the text and the range alone; the three places are in
/// this order, after the start of the range and inside it.
#[verifier::external_body]
pub(crate) fn read_block(text: &str, from: usize, to: usize) -> (found: Option<
    (usize, usize, usize),
>)
    ensures
        found matches Some((start, end, after)) ==> found_block(text@, from as int, to as int)
            == Some((start as int, end as int, after as int)) && 0 < start <= end <= after <= to
            - from,
        found is None ==> found_block(text@, from as int, to as int) is None,
{
    let mut parser = Parser::new(text.get(from..to).unwrap_or(""));
    match parser.next() {
        Ok(Token::Function(_)) | Ok(Token::ParenthesisBlock) => {},
        Ok(Token::SquareBracketBlock) | Ok(Token::CurlyBracketBlock) => {},
        _ => return None,
    }
    let start = parser.position().byte_index();
    let end = parser.parse_nested_block(|inner| {
        let _ = inner.parse_until_before(Delimiter::None, |_| Ok::<(), cssparser::ParseError<()>>(()));
        Ok::<usize, cssparser::ParseError<()>>(inner.position().byte_index())
    });
    Some((start, end.unwrap_or(start), parser.position().byte_index()))
}

/// Calls `cssparser::Parser::skip_whitespace` on the range and hands out how
/// far into the range it got. The result depends on the text and the range
/// alone; the place lies inside the range.
#[verifier::external_body]
pub(crate) fn read_blanks(text: &str, from: usize, to: usize) -> (read: usize)
    ensures
        read == found_blanks(text@, from as int, to as int),
        from <= to ==> read <= to - from,
{
    let mut parser = Parser::new(text.get(from..to).unwrap_or(""));
    parser.skip_whitespace();
    parser.position().byte_index()
}

/// Calls `cssparser::Parser::parse_until_before` on the range with the
/// delimiters that `stop` names, and hands out how far into the range it
/// got. The result depends on the text, the range and `stop` alone; the place
/// lies inside the range.
#[verifier::external_body]
pub(crate) fn read_until(text: &str, from: usize, to: usize, stop: Stop) -> (read: usize)
    ensures
        read == found_stop(text@, from as int, to as int, stop),
        from <= to ==> read <= to - from,
{
    let mut parser = Parser::new(text.get(from..to).unwrap_or(""));
    let delimiters = match stop {
        Stop::Bang => Delimiter::Bang,
        Stop::Semicolon => Delimiter::Semicolon,
        Stop::CurlyBracketBlock => Delimiter::CurlyBracketBlock,
        Stop::SemicolonOrCurlyBracketBlock => Delimiter::Semicolon | Delimiter::CurlyBracketBlock,
    };
    let _ = parser.parse_until_before(delimiters, |_| Ok::<(), cssparser::ParseError<()>>(()));
    parser.position().byte_index()
}

/// Calls `cssparser::Parser::expect_url` on the range. The result depends on
/// the text and the range alone; a URL that was found ends after the start
/// of the range and inside it.
#[verifier::external_body]
pub(crate) fn read_url(text: &str, from: usize, to: usize) -> (found: Option<(String, usize)>)
    ensures
        placed_text(found) == found_url(text@, from as int, to as int),
        found matches Some((_, read)) ==> 0 < read <= to - from,
{
    let mut parser = Parser::new(text.get(from..to).unwrap_or(""));
    let url = parser.expect_url().ok()?.to_string();
    Some((url, parser.position().byte_index()))
}

/// Calls `cssparser_color::Color::parse` on the range and hands out the color
/// if it is written in channels, as `hsl()` or as `hwb()`, and how far into
/// the range it ends. The result depends on the text and the range alone; a
/// color that was found ends after the start of the range and inside it.
#[verifier::external_body]
pub(crate) fn read_color(text: &str, from: usize, to: usize) -> (found: Option<
    (ParsedColor, usize),
>)
    ensures
        found matches Some((color, read)) ==> found_color(text@, from as int, to as int) == Some(
            (color, read as int),
        ) && 0 < read <= to - from,
        found is None ==> found_color(text@, from as int, to as int) is None,
{
    let mut parser = Parser::new(text.get(from..to).unwrap_or(""));
    let color = match Color::parse(&mut parser).ok()? {
        Color::Rgba(c) => {
            ParsedColor::Rgba { red: c.red, green: c.green, blue: c.blue, alpha: c.alpha.to_bits() }
        },
        Color::Hsl(Hsl { hue, alpha, .. }) | Color::Hwb(Hwb { hue, alpha, .. }) => {
            ParsedColor::ByHue { hue: hue.map(|h| h.to_bits()), opacity: alpha.map(|a| a.to_bits()) }
        },
        _ => return None,
    };
    Some((color, parser.position().byte_index()))
}

/// The bit pattern of the number 360: a full turn in degrees.
pub const FULL_TURN: u32 = 0x43B4_0000;

/// Whether a hue is no number at all or a number of degrees from 0 to 360.
/// The patterns of the numbers from 0 on are in the order of the numbers.
pub open spec fn hue_is_normal(hue: Option<u32>) -> bool {
    match hue {
        None => true,
        Some(bits) => bits <= FULL_TURN,
    }
}

/// Whether the color that comes first in the range is written by hue, with a
/// hue of 0 to 360 degrees.
pub open spec fn writes_normal_hue(text: Seq<char>, from: int, to: int) -> bool {
    match found_color(text, from, to) {
        Some((ParsedColor::ByHue { hue, .. }, _)) => hue_is_normal(hue),
        _ => false,
    }
}

/// Parses the color of the range again and calls `ToCss::to_css_string` on
/// it, which for a color written by hue gives the same color written in
/// channels. The serialization of a hue outside of 0 to 360 degrees trips an
/// assertion of `cssparser_color::hsl_to_rgb`, so such colors are left out.
/// The result depends on the text and the range alone.
#[verifier::external_body]
pub(crate) fn hue_color_css(text: &str, from: usize, to: usize) -> (css: String)
    requires
        writes_normal_hue(text@, from as int, to as int),
    ensures
        css@ == hue_color_css_at(text@, from as int, to as int),
{
    let mut parser = Parser::new(text.get(from..to).unwrap_or(""));
    match Color::parse(&mut parser) {
        Ok(Color::Hsl(c)) => c.to_css_string(),
        Ok(Color::Hwb(c)) => c.to_css_string(),
        _ => String::new(),
    }
}

/// Runs the parser over the text up to `at`, so that it stands at `at`, and
/// hands out the line and the column that
/// `cssparser::Parser::current_source_location` returns there. The result
/// depends on the text and the place alone.
#[verifier::external_body]
pub(crate) fn read_line_and_column(text: &str, at: usize) -> (place: (u32, u32))
    ensures
        place == found_line_and_column(text@, at as int),
{
    let mut parser = Parser::new(text.get(..at).unwrap_or(text));
    let _ = parser.parse_until_before(Delimiter::None, |_| Ok::<(), cssparser::ParseError<()>>(()));
    let place = parser.current_source_location();
    (place.line, place.column)
}

/// Runs the parser over the text up to `at`, so that it stands at `at`, and
/// hands out the name that `cssparser::Parser::current_source_url` returns
/// there: the name that the last `sourceURL` comment before `at` gives the
/// text, or the empty name. The result depends on the text and the place
/// alone.
#[verifier::external_body]
pub(crate) fn read_source_url(text: &str, at: usize) -> (name: String)
    ensures
        name@ == found_source_url(text@, at as int),
{
    let mut parser = Parser::new(text.get(..at).unwrap_or(text));
    let _ = parser.parse_until_before(Delimiter::None, |_| Ok::<(), cssparser::ParseError<()>>(()));
    parser.current_source_url().unwrap_or("").to_string()
}

/// The line and column of a place in a text, and the name under which the
/// text says it is known.
pub open spec fn location_at(text: Seq<char>, at: int) -> SourceLocationView {
    SourceLocationView {
        file: found_source_url(text, at),
        line: found_line_and_column(text, at).0,
        column: found_line_and_column(text, at).1,
    }
}

/// The line and column of a place in a text, and the name under which the
/// text says it is known.
pub fn location_of(text: &str, at: usize) -> (location: SourceLocation)
    ensures
        location.deep_view() == location_at(text@, at as int),
{
    let place = read_line_and_column(text, at);
    SourceLocation { file: read_source_url(text, at), line: place.0, column: place.1 }
}

/// A place that is measured from the start of a range, measured from the
/// start of the text.
pub open spec fn placed_from(from: int, found: Option<int>) -> Option<int> {
    match found {
        Some(read) => Some(from + read),
        None => None,
    }
}

/// The token with a text that comes first in the range, after blanks and
/// comments, with the place after it; `None` where the first token is of
/// another sort or the range holds no token.
pub open spec fn text_token_at(text: Seq<char>, from: int, to: int) -> Option<
    (TextKind, Seq<char>, int),
> {
    match found_ident(text, from, to) {
        Some((value, read)) => Some((TextKind::Ident, value, from + read)),
        None => match found_string(text, from, to) {
            Some((value, read)) => Some((TextKind::QuotedString, value, from + read)),
            None => match found_function(text, from, to) {
                Some((value, read)) => Some((TextKind::Function, value, from + read)),
                None => match found_next(text, from, to) {
                    Some((LexemeView::AtKeyword(value), read)) => Some(
                        (TextKind::AtKeyword, value, from + read),
                    ),
                    _ => None,
                },
            },
        },
    }
}

/// The token with a number that comes first in the range: its sort, the bit
/// pattern of its value, its value as an integer where it is a number that
/// was written as one, its unit, and the place after it.
pub open spec fn numeric_token_at(text: Seq<char>, from: int, to: int) -> Option<
    (NumericKind, u32, Option<i32>, Seq<char>, int),
> {
    match found_next(text, from, to) {
        Some((LexemeView::Number { value, int_value }, read)) => Some(
            (NumericKind::Number, value, int_value, Seq::empty(), from + read),
        ),
        Some((LexemeView::Percentage { unit_value }, read)) => Some(
            (NumericKind::Percentage, unit_value, None, Seq::empty(), from + read),
        ),
        Some((LexemeView::Dimension { value, unit }, read)) => Some(
            (NumericKind::Dimension, value, None, unit, from + read),
        ),
        _ => None,
    }
}

/// The mark that comes first in the range, with the place after it.
pub open spec fn mark_at(text: Seq<char>, from: int, to: int) -> Option<(Mark, int)> {
    match found_comma(text, from, to) {
        Some(read) => Some((Mark::Comma, from + read)),
        None => match found_colon(text, from, to) {
            Some(read) => Some((Mark::Colon, from + read)),
            None => match found_semicolon(text, from, to) {
                Some(read) => Some((Mark::Semicolon, from + read)),
                None => match found_curly_bracket(text, from, to) {
                    Some(read) => Some((Mark::CurlyBracketBlock, from + read)),
                    None => match found_next(text, from, to) {
                        Some((LexemeView::Cdo, read)) => Some((Mark::Cdo, from + read)),
                        Some((LexemeView::Cdc, read)) => Some((Mark::Cdc, from + read)),
                        _ => None,
                    },
                },
            },
        },
    }
}

/// The place after the first token of the range, of whatever sort; `None`
/// where the range holds no token.
pub open spec fn token_end_at(text: Seq<char>, from: int, to: int) -> Option<int> {
    match found_next(text, from, to) {
        Some((_, read)) => Some(from + read),
        None => None,
    }
}

/// Where the content of the block begins that the first token of the range
/// opens, where it ends, and the place after the closing token of the block;
/// `None` where the first token opens no block.
pub open spec fn block_extent_at(text: Seq<char>, from: int, to: int) -> Option<(int, int, int)> {
    match found_block(text, from, to) {
        Some((start, end, after)) => Some((from + start, from + end, from + after)),
        None => None,
    }
}

/// The first place in the range that is neither blank nor inside a comment;
/// the end of the range where there is none.
pub open spec fn token_start_at(text: Seq<char>, from: int, to: int) -> int {
    if from <= to {
        from + found_blanks(text, from, to)
    } else {
        from
    }
}

/// The first place in the range, outside of any block, at which one of the
/// stopping characters stands; the end of the range where there is none.
pub open spec fn stop_at(text: Seq<char>, from: int, to: int, stop: Stop) -> int {
    if from <= to {
        from + found_stop(text, from, to, stop)
    } else {
        from
    }
}

/// The URL that comes first in the range, written bare or as a quoted string
/// inside `url( )`, with the place after it.
pub open spec fn url_at(text: Seq<char>, from: int, to: int) -> Option<(Seq<char>, int)> {
    match found_url(text, from, to) {
        Some((url, read)) => Some((url, from + read)),
        None => None,
    }
}

/// The color that comes first in the range, with the place after it; `None`
/// where no color stands there, or one that is written neither in channels
/// nor by hue.
pub open spec fn color_at(text: Seq<char>, from: int, to: int) -> Option<(ParsedColor, int)> {
    match found_color(text, from, to) {
        Some((color, read)) => Some((color, from + read)),
        None => None,
    }
}

/// The mathematical value of what [`text_token`] returns.
pub open spec fn text_token_view(found: Option<(TextKind, String, usize)>) -> Option<
    (TextKind, Seq<char>, int),
> {
    match found {
        Some((kind, value, next)) => Some((kind, value@, next as int)),
        None => None,
    }
}

/// The mathematical value of what [`numeric_token`] returns.
pub open spec fn numeric_token_view(
    found: Option<(NumericKind, u32, Option<i32>, String, usize)>,
) -> Option<(NumericKind, u32, Option<i32>, Seq<char>, int)> {
    match found {
        Some((kind, value, int_value, unit, next)) => Some(
            (kind, value, int_value, unit@, next as int),
        ),
        None => None,
    }
}

/// Reads the token with a text that comes first in the range.
pub fn text_token(text: &str, from: usize, to: usize) -> (found: Option<(TextKind, String, usize)>)
    ensures
        text_token_view(found) == text_token_at(text@, from as int, to as int),
        found matches Some((_, _, next)) ==> from < next <= to,
{
    match read_ident(text, from, to) {
        Some((value, read)) => {
            return Some((TextKind::Ident, value, from + read));
        },
        None => {},
    }
    match read_string(text, from, to) {
        Some((value, read)) => {
            return Some((TextKind::QuotedString, value, from + read));
        },
        None => {},
    }
    match read_function(text, from, to) {
        Some((value, read)) => {
            return Some((TextKind::Function, value, from + read));
        },
        None => {},
    }
    match read_next(text, from, to) {
        Some((Lexeme::AtKeyword(value), read)) => Some((TextKind::AtKeyword, value, from + read)),
        _ => None,
    }
}

/// Reads the token with a number that comes first in the range.
pub fn numeric_token(text: &str, from: usize, to: usize) -> (found: Option<
    (NumericKind, u32, Option<i32>, String, usize),
>)
    ensures
        numeric_token_view(found) == numeric_token_at(text@, from as int, to as int),
        found matches Some((_, _, _, _, next)) ==> from < next <= to,
{
    match read_next(text, from, to) {
        Some((Lexeme::Number { value, int_value }, read)) => Some(
            (NumericKind::Number, value, int_value, String::new(), from + read),
        ),
        Some((Lexeme::Percentage { unit_value }, read)) => Some(
            (NumericKind::Percentage, unit_value, None, String::new(), from + read),
        ),
        Some((Lexeme::Dimension { value, unit }, read)) => Some(
            (NumericKind::Dimension, value, None, unit, from + read),
        ),
        _ => None,
    }
}

/// Reads the mark that comes first in the range.
pub fn mark_token(text: &str, from: usize, to: usize) -> (found: Option<(Mark, usize)>)
    ensures
        found matches Some((mark, next)) ==> mark_at(text@, from as int, to as int) == Some(
            (mark, next as int),
        ) && from < next <= to,
        found is None ==> mark_at(text@, from as int, to as int) is None,
{
    match read_comma(text, from, to) {
        Some(read) => {
            return Some((Mark::Comma, from + read));
        },
        None => {},
    }
    match read_colon(text, from, to) {
        Some(read) => {
            return Some((Mark::Colon, from + read));
        },
        None => {},
    }
    match read_semicolon(text, from, to) {
        Some(read) => {
            return Some((Mark::Semicolon, from + read));
        },
        None => {},
    }
    match read_curly_bracket(text, from, to) {
        Some(read) => {
            return Some((Mark::CurlyBracketBlock, from + read));
        },
        None => {},
    }
    match read_next(text, from, to) {
        Some((Lexeme::Cdo, read)) => Some((Mark::Cdo, from + read)),
        Some((Lexeme::Cdc, read)) => Some((Mark::Cdc, from + read)),
        _ => None,
    }
}

/// The place after the first token of the range, if it holds one.
pub fn token_end(text: &str, from: usize, to: usize) -> (found: Option<usize>)
    ensures
        placed_mark(found) == token_end_at(text@, from as int, to as int),
        found matches Some(next) ==> from < next <= to,
{
    match read_next(text, from, to) {
        Some((_, read)) => Some(from + read),
        None => None,
    }
}

/// Where the content of the block begins that the first token of the range
/// opens, where it ends, and the place after its closing token.
pub fn block_extent(text: &str, from: usize, to: usize) -> (found: Option<(usize, usize, usize)>)
    ensures
        found matches Some((start, end, after)) ==> block_extent_at(
            text@,
            from as int,
            to as int,
        ) == Some((start as int, end as int, after as int)) && from < start <= end <= after <= to,
        found is None ==> block_extent_at(text@, from as int, to as int) is None,
{
    match read_block(text, from, to) {
        Some((start, end, after)) => Some((from + start, from + end, from + after)),
        None => None,
    }
}

/// The first place in the range that is neither blank nor inside a comment.
pub fn token_start(text: &str, from: usize, to: usize) -> (start: usize)
    ensures
        start == token_start_at(text@, from as int, to as int),
        from <= to ==> from <= start <= to,
{
    if from <= to {
        from + read_blanks(text, from, to)
    } else {
        from
    }
}

/// The first place in the range, outside of any block, at which one of the
/// stopping characters stands.
pub fn stop_before(text: &str, from: usize, to: usize, stop: Stop) -> (end: usize)
    ensures
        end == stop_at(text@, from as int, to as int, stop),
        from <= to ==> from <= end <= to,
{
    if from <= to {
        from + read_until(text, from, to, stop)
    } else {
        from
    }
}

/// Reads the URL that comes first in the range.
pub fn url_token(text: &str, from: usize, to: usize) -> (found: Option<(String, usize)>)
    ensures
        placed_text(found) == url_at(text@, from as int, to as int),
        found matches Some((_, next)) ==> from < next <= to,
{
    match read_url(text, from, to) {
        Some((url, read)) => Some((url, from + read)),
        None => None,
    }
}

/// Reads the color that comes first in the range.
pub fn color_token(text: &str, from: usize, to: usize) -> (found: Option<(ParsedColor, usize)>)
    ensures
        found matches Some((color, next)) ==> color_at(text@, from as int, to as int) == Some(
            (color, next as int),
        ) && from < next <= to,
        found is None ==> color_at(text@, from as int, to as int) is None,
{
    match read_color(text, from, to) {
        Some((color, read)) => Some((color, from + read)),
        None => None,
    }
}

/// The number of bytes that a text takes, as the machine counts it.
pub open spec fn byte_length(text: Seq<char>) -> int {
    vstd::utf8::encode_utf8(text).len() as usize as int
}

} // verus!

verus! {

/// A range of a text that is still to be read: the parsers take tokens from
/// `position` on and never look at or beyond `limit`.
#[derive(Debug, Clone, Copy, PartialEq, Eq)]
pub struct TokenSource<'a> {
    pub text: &'a str,
    pub position: usize,
    pub limit: usize,
}

impl<'a> TokenSource<'a> {
    /// The source that reads the whole of `text`, from its start.
    pub fn new(text: &'a str) -> (source: TokenSource<'a>)
        ensures
            source.text == text,
            source.position == 0,
            source.limit == byte_length(text@),
    {
        TokenSource { text, position: 0, limit: text.len() }
    }

    /// The source that reads `text` from `position` up to `limit`.
    pub fn over(text: &'a str, position: usize, limit: usize) -> (source: TokenSource<'a>)
        ensures
            source == (TokenSource { text, position, limit }),
    {
        TokenSource { text, position, limit }
    }

    /// Whether no token is left to read.
    pub fn is_exhausted(&self) -> (yes: bool)
        ensures
            yes == (token_end_at(self.text@, self.position as int, self.limit as int) is None),
    {
        token_end(self.text, self.position, self.limit).is_none()
    }

    /// The line and column at which the source stands.
    pub fn current_source_location(&self) -> (location: SourceLocation)
        ensures
            location.deep_view() == location_at(self.text@, self.position as int),
    {
        location_of(self.text, self.position)
    }
}

} // verus!

verus! {

/// Whether a range of bytes is a range of a text and cuts no character.
pub open spec fn is_range_of(text: Seq<char>, from: int, to: int) -> bool {
    let bytes = vstd::utf8::encode_utf8(text);
    0 <= from <= to <= bytes.len() && vstd::utf8::is_char_boundary(bytes, from)
        && vstd::utf8::is_char_boundary(bytes, to)
}

/// The part of a text that a range of bytes covers; the empty text where the
/// range is no range of the text or cuts a character.
pub open spec fn slice_at(text: Seq<char>, from: int, to: int) -> Seq<char> {
    if is_range_of(text, from, to) {
        vstd::utf8::decode_utf8(vstd::utf8::encode_utf8(text).subrange(from, to))
    } else {
        Seq::empty()
    }
}

/// Calls `str::get` with the range: the part of the text that the range
/// covers, or `None` where the range is no range of the text or cuts a
/// character.
#[verifier::external_body]
pub(crate) fn part_of<'a>(text: &'a str, from: usize, to: usize) -> (part: Option<&'a str>)
    ensures
        part is Some <==> is_range_of(text@, from as int, to as int),
        part matches Some(found) ==> found@ == slice_at(text@, from as int, to as int),
{
    text.get(from..to)
}

/// A copy of the part of a text that a range of bytes covers; the empty text
/// where the range is no range of the text or cuts a character.
pub fn slice(text: &str, from: usize, to: usize) -> (part: String)
    ensures
        part@ == slice_at(text@, from as int, to as int),
{
    match part_of(text, from, to) {
        Some(found) => found.to_owned(),
        None => String::new(),
    }
}

} // verus!

verus! {

impl<'a> TokenSource<'a> {
    /// The token with a text of the sort `kind` at which the source stands,
    /// and the place after it.
    pub open spec fn text_ahead(&self, kind: TextKind) -> Option<(Seq<char>, int)> {
        match text_token_at(self.text@, self.position as int, self.limit as int) {
            Some((found, value, next)) => if found == kind {
                Some((value, next))
            } else {
                None
            },
            None => None,
        }
    }

    /// The mark at which the source stands, if it is `mark`, and the place
    /// after it.
    pub open spec fn mark_ahead(&self, mark: Mark) -> Option<int> {
        match mark_at(self.text@, self.position as int, self.limit as int) {
            Some((found, next)) => if found == mark {
                Some(next)
            } else {
                None
            },
            None => None,
        }
    }

    /// Takes the next token if it is a token with a text of the sort `kind`,
    /// and hands out its text. The source stays where it is otherwise.
    fn expect_text(&mut self, kind: TextKind) -> (found: Option<String>)
        ensures
            final(self).text == old(self).text,
            final(self).limit == old(self).limit,
            match old(self).text_ahead(kind) {
                Some((value, next)) => {
                    &&& found matches Some(text) && text@ == value
                    &&& final(self).position == next
                },
                None => found is None && final(self).position == old(self).position,
            },
    {
        match text_token(self.text, self.position, self.limit) {
            Some((found, value, next)) => {
                let same = match (found, kind) {
                    (TextKind::Ident, TextKind::Ident) => true,
                    (TextKind::AtKeyword, TextKind::AtKeyword) => true,
                    (TextKind::QuotedString, TextKind::QuotedString) => true,
                    (TextKind::Function, TextKind::Function) => true,
                    _ => false,
                };
                if same {
                    self.position = next;
                    Some(value)
                } else {
                    None
                }
            },
            None => None,
        }
    }

    /// Takes the next token if it is the mark `mark`. The source stays where
    /// it is otherwise.
    fn expect_mark(&mut self, mark: Mark) -> (found: bool)
        ensures
            final(self).text == old(self).text,
            final(self).limit == old(self).limit,
            match old(self).mark_ahead(mark) {
                Some(next) => found && final(self).position == next,
                None => !found && final(self).position == old(self).position,
            },
    {
        match mark_token(self.text, self.position, self.limit) {
            Some((found, next)) => {
                if found == mark {
                    self.position = next;
                    true
                } else {
                    false
                }
            },
            None => false,
        }
    }

    /// Takes the next token if it is an identifier, and hands out its name.
    pub fn expect_ident(&mut self) -> (found: Option<String>)
        ensures
            final(self).text == old(self).text,
            final(self).limit == old(self).limit,
            match old(self).text_ahead(TextKind::Ident) {
                Some((value, next)) => {
                    &&& found matches Some(text) && text@ == value
                    &&& final(self).position == next
                },
                None => found is None && final(self).position == old(self).position,
            },
    {
        self.expect_text(TextKind::Ident)
    }

    /// Takes the next token if it is a quoted string, and hands out what is
    /// between the quotes.
    pub fn expect_string(&mut self) -> (found: Option<String>)
        ensures
            final(self).text == old(self).text,
            final(self).limit == old(self).limit,
            match old(self).text_ahead(TextKind::QuotedString) {
                Some((value, next)) => {
                    &&& found matches Some(text) && text@ == value
                    &&& final(self).position == next
                },
                None => found is None && final(self).position == old(self).position,
            },
    {
        self.expect_text(TextKind::QuotedString)
    }

    /// Takes the next token if it is a comma.
    pub fn expect_comma(&mut self) -> (found: bool)
        ensures
            final(self).text == old(self).text,
            final(self).limit == old(self).limit,
            match old(self).mark_ahead(Mark::Comma) {
                Some(next) => found && final(self).position == next,
                None => !found && final(self).position == old(self).position,
            },
    {
        self.expect_mark(Mark::Comma)
    }

    /// Takes the next token if it is a URL, written bare or as a quoted
    /// string inside `url( )`.
    pub fn expect_url(&mut self) -> (found: Option<String>)
        ensures
            final(self).text == old(self).text,
            final(self).limit == old(self).limit,
            match url_at(old(self).text@, old(self).position as int, old(self).limit as int) {
                Some((value, next)) => {
                    &&& found matches Some(text) && text@ == value
                    &&& final(self).position == next
                },
                None => found is None && final(self).position == old(self).position,
            },
    {
        match url_token(self.text, self.position, self.limit) {
            Some((url, next)) => {
                self.position = next;
                Some(url)
            },
            None => None,
        }
    }

    /// Takes the next token if it is a number, and hands out the bit pattern
    /// of its value.
    pub fn expect_number(&mut self) -> (found: Option<u32>)
        ensures
            final(self).text == old(self).text,
            final(self).limit == old(self).limit,
            match numeric_token_at(
                old(self).text@,
                old(self).position as int,
                old(self).limit as int,
            ) {
                Some((NumericKind::Number, bits, _, _, next)) => {
                    &&& found == Some(bits)
                    &&& final(self).position == next
                },
                _ => found is None && final(self).position == old(self).position,
            },
    {
        match numeric_token(self.text, self.position, self.limit) {
            Some((NumericKind::Number, bits, _, _, next)) => {
                self.position = next;
                Some(bits)
            },
            _ => None,
        }
    }

    /// Takes the next token if it is a number that was written without a
    /// fraction, and hands out its value.
    pub fn expect_integer(&mut self) -> (found: Option<i32>)
        ensures
            final(self).text == old(self).text,
            final(self).limit == old(self).limit,
            match numeric_token_at(
                old(self).text@,
                old(self).position as int,
                old(self).limit as int,
            ) {
                Some((NumericKind::Number, _, Some(whole), _, next)) => found == Some(whole)
                    && final(self).position == next,
                _ => found is None && final(self).position == old(self).position,
            },
    {
        match numeric_token(self.text, self.position, self.limit) {
            Some((NumericKind::Number, _, Some(whole), _, next)) => {
                self.position = next;
                Some(whole)
            },
            _ => None,
        }
    }

    /// Takes the next token if it is the name of a function, with the
    /// arguments of the call: hands out the name and a source that reads what
    /// is between the parentheses.
    pub fn expect_function(&mut self) -> (found: Option<(String, TokenSource<'a>)>)
        ensures
            final(self).text == old(self).text,
            final(self).limit == old(self).limit,
            match (
                old(self).text_ahead(TextKind::Function),
                block_extent_at(
                    old(self).text@,
                    old(self).position as int,
                    old(self).limit as int,
                ),
            ) {
                (Some((value, _)), Some((start, end, after))) => {
                    &&& found matches Some((name, inner))
                    &&& name@ == value
                    &&& inner.text == old(self).text
                    &&& inner.position == start
                    &&& inner.limit == end
                    &&& final(self).position == after
                },
                _ => found is None && final(self).position == old(self).position,
            },
    {
        match text_token(self.text, self.position, self.limit) {
            Some((TextKind::Function, name, _)) => {
                match block_extent(self.text, self.position, self.limit) {
                    Some((start, end, after)) => {
                        let inner = TokenSource { text: self.text, position: start, limit: end };
                        self.position = after;
                        Some((name, inner))
                    },
                    None => None,
                }
            },
            _ => None,
        }
    }

    /// Hands out a source that reads up to the first place, outside of any
    /// block, at which one of the stopping characters stands, and moves to
    /// that place.
    pub fn until_before(&mut self, stop: Stop) -> (part: TokenSource<'a>)
        ensures
            final(self).text == old(self).text,
            final(self).limit == old(self).limit,
            part.text == old(self).text,
            part.position == old(self).position,
            part.limit == final(self).position,
            final(self).position == stop_at(
                old(self).text@,
                old(self).position as int,
                old(self).limit as int,
                stop,
            ),
    {
        let end = stop_before(self.text, self.position, self.limit, stop);
        let part = TokenSource { text: self.text, position: self.position, limit: end };
        self.position = end;
        part
    }
}

} // verus!

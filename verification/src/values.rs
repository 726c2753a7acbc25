//! The value parser: it reads the values of a declaration from a range of a
//! text, one component after the other, and checks them against a syntax.

use vstd::prelude::*;
use crate::answers::{
    function_answer, unanswered, Answers, AnswersView, Request, RequestView,
};
use crate::details::{ParseError, ParseErrorKind};
use crate::function::{function_of, FunctionEntryView, FunctionRegistry, PropertyFunction};
use crate::grammar::{parse_syntax, syntax_of};
use crate::number::{channel_of, unit_to_byte, ONE};
use crate::property::{definition_of, PropertyDefinitionView, PropertyRegistry};
use crate::syntax::{
    syntax_verdict, validate_syntax, ListType, ParseValuesResult, ParsedPropertySyntax,
    ParsedPropertySyntaxView,
};
use crate::text::{owned, str_eq};
use crate::tokens::{
    block_extent, block_extent_at, byte_length, color_at, color_token, hue_color_css,
    hue_color_css_at, hue_is_normal, location_at, location_of, mark_at, mark_token, numeric_token,
    numeric_token_at, slice, slice_at, stop_at, stop_before, text_token, text_token_at, token_end,
    token_end_at, url_at, url_token, Mark, NumericKind, ParsedColor, Stop, TextKind, TokenSource,
    FULL_TURN,
};
use crate::value::{
    clone_values, modified_color, Color, ColorOperation, ColorOperationView, ColorView, Dimension,
    Unit, Value, ValueData, ValueType, ValueView,
};

verus! {

/// Why reading failed, and the place in the text at which it did.
pub struct Fault {
    pub kind: ParseErrorKind,
    pub at: int,
}

/// Whether an error reports a fault in a text.
pub open spec fn reports(error: ParseError, fault: Fault, text: Seq<char>) -> bool {
    error.kind == fault.kind && error.location.deep_view() == location_at(text, fault.at)
}

/// The error that reports a fault of `kind` at `at` in `text`.
pub fn fault(text: &str, kind: ParseErrorKind, at: usize, message: &str) -> (error: ParseError)
    ensures
        reports(error, Fault { kind, at: at as int }, text@),
        error.message@ == message@,
{
    ParseError { kind, message: owned(message), location: location_of(text, at) }
}

/// Why reading ended before its end: a fault, or the need for something from
/// outside.
pub enum Halt {
    Fault(Fault),
    Need(RequestView),
}

/// Why reading ended before its end: an error, or the request for what is
/// needed from outside to go on.
#[derive(Debug, PartialEq)]
pub enum Interrupt {
    Error(ParseError),
    Need(Request),
}

/// Whether reading ended as was to be expected.
pub open spec fn halted(stop: Interrupt, halt: Halt, text: Seq<char>) -> bool {
    match (stop, halt) {
        (Interrupt::Error(error), Halt::Fault(wanted)) => reports(error, wanted, text),
        (Interrupt::Need(request), Halt::Need(wanted)) => request.deep_view() == wanted,
        _ => false,
    }
}

/// The end of reading at a fault of `kind` at `at` in `text`.
pub fn stopped(text: &str, kind: ParseErrorKind, at: usize, message: &str) -> (stop: Interrupt)
    ensures
        halted(stop, Halt::Fault(Fault { kind, at: at as int }), text@),
{
    Interrupt::Error(fault(text, kind, at, message))
}

/// The opacity of a color: what was written, or one where nothing was.
pub open spec fn opacity_or_one(opacity: Option<u32>) -> u32 {
    match opacity {
        Some(bits) => bits,
        None => ONE,
    }
}

/// The color of three channels and an opacity. The opacity becomes the
/// fourth channel.
pub open spec fn channel_color(red: u8, green: u8, blue: u8, opacity: u32) -> ColorView {
    ColorView::Rgba { r: red, g: green, b: blue, a: channel_of(opacity) as u8 }
}

/// The color of three channels and an opacity.
pub fn color_of_channels(red: u8, green: u8, blue: u8, opacity: u32) -> (color: Color)
    ensures
        color.deep_view() == channel_color(red, green, blue, opacity),
{
    Color::Rgba { r: red, g: green, b: blue, a: unit_to_byte(opacity) }
}

/// An integer at the start of the range: a number that was written without a
/// fraction.
pub open spec fn integer_at(text: Seq<char>, from: int, to: int) -> Option<(ValueView, int)> {
    match numeric_token_at(text, from, to) {
        Some((NumericKind::Number, _, Some(whole), _, next)) => Some(
            (ValueView::Integer(whole), next),
        ),
        _ => None,
    }
}

/// A number at the start of the range.
pub open spec fn number_at(text: Seq<char>, from: int, to: int) -> Option<(ValueView, int)> {
    match numeric_token_at(text, from, to) {
        Some((NumericKind::Number, bits, _, _, next)) => Some(
            (ValueView::Dimension(Dimension { value: bits, unit: Unit::Number }), next),
        ),
        _ => None,
    }
}

/// A color at the start of the range, in four channels. A color that was
/// written by hue takes its three channels from the same color written in
/// channels, and is opaque where no opacity was written; one whose hue is
/// not from 0 to 360 degrees is no color.
pub open spec fn color_value_at(text: Seq<char>, from: int, to: int) -> Option<(ValueView, int)> {
    match color_at(text, from, to) {
        Some((ParsedColor::Rgba { red, green, blue, alpha }, next)) => Some(
            (ValueView::Color(channel_color(red, green, blue, alpha)), next),
        ),
        Some((ParsedColor::ByHue { hue, opacity }, next)) => if hue_is_normal(hue) {
            match color_at(
                hue_color_css_at(text, from, to),
                0,
                byte_length(hue_color_css_at(text, from, to)),
            ) {
                Some((ParsedColor::Rgba { red, green, blue, .. }, _)) => Some(
                    (
                        ValueView::Color(channel_color(red, green, blue, opacity_or_one(opacity))),
                        next,
                    ),
                ),
                _ => None,
            }
        } else {
            None
        },
        None => None,
    }
}

/// Whether a dimension can have the unit.
pub open spec fn is_usable_unit(unit: Unit) -> bool {
    unit != Unit::Unknown && unit != Unit::Unsupported
}

/// A dimension or a percentage at the start of the range. A dimension whose
/// unit is unknown or unsupported is none.
pub open spec fn dimension_at(text: Seq<char>, from: int, to: int) -> Option<(ValueView, int)> {
    match numeric_token_at(text, from, to) {
        Some((NumericKind::Dimension, bits, _, unit, next)) => if is_usable_unit(
            Unit::of_suffix(unit),
        ) {
            Some((ValueView::Dimension(Dimension { value: bits, unit: Unit::of_suffix(unit) }), next))
        } else {
            None
        },
        Some((NumericKind::Percentage, bits, _, _, next)) => Some(
            (ValueView::Dimension(Dimension { value: bits, unit: Unit::Percent }), next),
        ),
        _ => None,
    }
}

/// A string at the start of the range: an identifier or a quoted string.
pub open spec fn string_at(text: Seq<char>, from: int, to: int) -> Option<(ValueView, int)> {
    match text_token_at(text, from, to) {
        Some((TextKind::Ident, value, next)) => Some((ValueView::String(value), next)),
        Some((TextKind::QuotedString, value, next)) => Some((ValueView::String(value), next)),
        _ => None,
    }
}

/// A URL at the start of the range.
pub open spec fn url_value_at(text: Seq<char>, from: int, to: int) -> Option<(ValueView, int)> {
    match url_at(text, from, to) {
        Some((url, next)) => Some((ValueView::Url(url), next)),
        None => None,
    }
}

/// The value at the start of the range that is no call of a function: the
/// first of integer, number, color, dimension, string and URL that stands
/// there.
pub open spec fn plain_value_at(text: Seq<char>, from: int, to: int) -> Option<(ValueView, int)> {
    if integer_at(text, from, to) is Some {
        integer_at(text, from, to)
    } else if number_at(text, from, to) is Some {
        number_at(text, from, to)
    } else if color_value_at(text, from, to) is Some {
        color_value_at(text, from, to)
    } else if dimension_at(text, from, to) is Some {
        dimension_at(text, from, to)
    } else if string_at(text, from, to) is Some {
        string_at(text, from, to)
    } else {
        url_value_at(text, from, to)
    }
}

/// The mathematical value of a value and the place after it.
pub open spec fn placed(found: Option<(Value, usize)>) -> Option<(ValueView, int)> {
    match found {
        Some((value, next)) => Some((value.deep_view(), next as int)),
        None => None,
    }
}

/// Reads an integer at the start of the range.
pub fn parse_integer(text: &str, from: usize, to: usize) -> (found: Option<(Value, usize)>)
    ensures
        placed(found) == integer_at(text@, from as int, to as int),
        found matches Some((value, next)) ==> from < next <= to
            && value.deep_view().value_type() == ValueType::Integer,
{
    match numeric_token(text, from, to) {
        Some((NumericKind::Number, _, Some(whole), _, next)) => Some(
            (Value { data: ValueData::Integer(whole) }, next),
        ),
        _ => None,
    }
}

/// Reads a number at the start of the range.
pub fn parse_number(text: &str, from: usize, to: usize) -> (found: Option<(Value, usize)>)
    ensures
        placed(found) == number_at(text@, from as int, to as int),
        found matches Some((value, next)) ==> from < next <= to
            && value.deep_view().value_type() == ValueType::Dimension,
{
    match numeric_token(text, from, to) {
        Some((NumericKind::Number, bits, _, _, next)) => Some((Value::number(bits), next)),
        _ => None,
    }
}

/// Reads a color at the start of the range.
pub fn parse_color(text: &str, from: usize, to: usize) -> (found: Option<(Value, usize)>)
    ensures
        placed(found) == color_value_at(text@, from as int, to as int),
        found matches Some((value, next)) ==> from < next <= to
            && value.deep_view().value_type() == ValueType::Color,
{
    match color_token(text, from, to) {
        Some((ParsedColor::Rgba { red, green, blue, alpha }, next)) => Some(
            (Value { data: ValueData::Color(color_of_channels(red, green, blue, alpha)) }, next),
        ),
        Some((ParsedColor::ByHue { hue, opacity }, next)) => {
            let normal = match hue {
                None => true,
                Some(bits) => bits <= FULL_TURN,
            };
            if !normal {
                return None;
            }
            let css = hue_color_css(text, from, to);
            let opacity = match opacity {
                Some(bits) => bits,
                None => ONE,
            };
            match color_token(css.as_str(), 0, css.as_str().len()) {
                Some((ParsedColor::Rgba { red, green, blue, .. }, _)) => Some(
                    (
                        Value {
                            data: ValueData::Color(color_of_channels(red, green, blue, opacity)),
                        },
                        next,
                    ),
                ),
                _ => None,
            }
        },
        None => None,
    }
}

/// Reads a dimension or a percentage at the start of the range.
pub fn parse_dimension(text: &str, from: usize, to: usize) -> (found: Option<(Value, usize)>)
    ensures
        placed(found) == dimension_at(text@, from as int, to as int),
        found matches Some((value, next)) ==> from < next <= to
            && value.deep_view().value_type() == ValueType::Dimension,
{
    match numeric_token(text, from, to) {
        Some((NumericKind::Dimension, bits, _, suffix, next)) => {
            match Unit::parse(suffix.as_str()) {
                Unit::Unknown => None,
                Unit::Unsupported => None,
                unit => Some(
                    (Value { data: ValueData::Dimension(Dimension { value: bits, unit }) }, next),
                ),
            }
        },
        Some((NumericKind::Percentage, bits, _, _, next)) => Some(
            (
                Value { data: ValueData::Dimension(Dimension { value: bits, unit: Unit::Percent }) },
                next,
            ),
        ),
        _ => None,
    }
}

/// Reads a string at the start of the range.
pub fn parse_string(text: &str, from: usize, to: usize) -> (found: Option<(Value, usize)>)
    ensures
        placed(found) == string_at(text@, from as int, to as int),
        found matches Some((value, next)) ==> from < next <= to
            && value.deep_view().value_type() == ValueType::String,
{
    match text_token(text, from, to) {
        Some((TextKind::Ident, value, next)) => Some(
            (Value { data: ValueData::String(value) }, next),
        ),
        Some((TextKind::QuotedString, value, next)) => Some(
            (Value { data: ValueData::String(value) }, next),
        ),
        _ => None,
    }
}

/// Reads a URL at the start of the range.
pub fn parse_url(text: &str, from: usize, to: usize) -> (found: Option<(Value, usize)>)
    ensures
        placed(found) == url_value_at(text@, from as int, to as int),
        found matches Some((value, next)) ==> from < next <= to
            && value.deep_view().value_type() == ValueType::Url,
{
    match url_token(text, from, to) {
        Some((url, next)) => Some((Value { data: ValueData::Url(url) }, next)),
        None => None,
    }
}

/// Reads the value at the start of the range that is no call of a function.
pub fn parse_plain_value(text: &str, from: usize, to: usize) -> (found: Option<(Value, usize)>)
    ensures
        placed(found) == plain_value_at(text@, from as int, to as int),
        found matches Some((_, next)) ==> from < next <= to,
{
    let found = parse_integer(text, from, to);
    if found.is_some() {
        return found;
    }
    let found = parse_number(text, from, to);
    if found.is_some() {
        return found;
    }
    let found = parse_color(text, from, to);
    if found.is_some() {
        return found;
    }
    let found = parse_dimension(text, from, to);
    if found.is_some() {
        return found;
    }
    let found = parse_string(text, from, to);
    if found.is_some() {
        return found;
    }
    parse_url(text, from, to)
}

} // verus!

verus! {

/// The text of a string value; the empty text for any other value.
pub open spec fn text_of(value: ValueView) -> Seq<char> {
    match value {
        ValueView::String(text) => text,
        _ => Seq::empty(),
    }
}

/// What `mix` makes of its arguments: the first color, to be blended towards
/// the second by the number.
pub open spec fn mixed_value(values: Seq<ValueView>) -> Option<ValueView> {
    if values.len() == 3 {
        match (values[0], values[1], values[2]) {
            (
                ValueView::Color(first),
                ValueView::Color(second),
                ValueView::Dimension(amount),
            ) => Some(
                ValueView::Color(
                    modified_color(
                        first,
                        ColorOperationView::Mix { other: Box::new(second), amount: amount.value },
                    ),
                ),
            ),
            _ => None,
        }
    } else {
        None
    }
}

/// What `custom-color` makes of its arguments: the first is the source, the
/// others are the arguments of the color.
pub open spec fn custom_color_value(values: Seq<ValueView>) -> Option<ValueView> {
    if values.len() >= 1 {
        Some(
            ValueView::Color(
                ColorView::Custom {
                    source: text_of(values[0]),
                    arguments: Seq::new((values.len() - 1) as nat, |i: int| text_of(values[i + 1])),
                },
            ),
        )
    } else {
        None
    }
}

/// The channel that the operand of a `set-` operation stands for: a number
/// or a percentage, as a share of 255.
pub open spec fn channel_operand(operand: ValueView) -> Option<u8> {
    match operand {
        ValueView::Dimension(dimension) => if dimension.unit == Unit::Number || dimension.unit
            == Unit::Percent {
            Some(channel_of(dimension.value) as u8)
        } else {
            None
        },
        _ => None,
    }
}

/// The color that the operand of `add`, `subtract` or `multiply` is.
pub open spec fn color_operand(operand: ValueView) -> Option<ColorView> {
    match operand {
        ValueView::Color(color) => Some(color),
        _ => None,
    }
}

/// The operation that a name and an operand write in `modify-color`.
pub open spec fn modify_operation(name: Seq<char>, operand: ValueView) -> Option<
    ColorOperationView,
> {
    if name == "add"@ {
        match color_operand(operand) {
            Some(color) => Some(ColorOperationView::Add { other: Box::new(color) }),
            None => None,
        }
    } else if name == "subtract"@ {
        match color_operand(operand) {
            Some(color) => Some(ColorOperationView::Subtract { other: Box::new(color) }),
            None => None,
        }
    } else if name == "multiply"@ {
        match color_operand(operand) {
            Some(color) => Some(ColorOperationView::Multiply { other: Box::new(color) }),
            None => None,
        }
    } else if name == "set-alpha"@ {
        match channel_operand(operand) {
            Some(channel) => Some(
                ColorOperationView::SetChannels { r: None, g: None, b: None, a: Some(channel) },
            ),
            None => None,
        }
    } else if name == "set-red"@ {
        match channel_operand(operand) {
            Some(channel) => Some(
                ColorOperationView::SetChannels { r: Some(channel), g: None, b: None, a: None },
            ),
            None => None,
        }
    } else if name == "set-green"@ {
        match channel_operand(operand) {
            Some(channel) => Some(
                ColorOperationView::SetChannels { r: None, g: Some(channel), b: None, a: None },
            ),
            None => None,
        }
    } else if name == "set-blue"@ {
        match channel_operand(operand) {
            Some(channel) => Some(
                ColorOperationView::SetChannels { r: None, g: None, b: Some(channel), a: None },
            ),
            None => None,
        }
    } else {
        None
    }
}

/// What `modify-color` makes of its arguments: a color, the name of an
/// operation, and the operand.
pub open spec fn modified_value(values: Seq<ValueView>) -> Option<ValueView> {
    if values.len() == 3 {
        match (values[0], values[1]) {
            (ValueView::Color(color), ValueView::String(name)) => match modify_operation(
                name,
                values[2],
            ) {
                Some(operation) => Some(ValueView::Color(modified_color(color, operation))),
                None => None,
            },
            _ => None,
        }
    } else {
        None
    }
}

/// How a list of values was separated: one value is no list; of more, a
/// comma anywhere between them makes the list comma-separated.
pub open spec fn list_type_of(count: nat, comma: bool) -> ListType {
    if count == 1 {
        ListType::NotAList
    } else if comma {
        ListType::CommaSeparated
    } else {
        ListType::SpaceSeparated
    }
}

/// What ends the reading of a call when reading its arguments ended: that
/// something is needed from outside or that a function is unknown is passed
/// on, any other fault makes the call no value.
pub open spec fn call_halt(inner: Halt, from: int) -> Halt {
    match inner {
        Halt::Need(request) => Halt::Need(request),
        Halt::Fault(fault) => if fault.kind == ParseErrorKind::UnknownFunction {
            Halt::Fault(fault)
        } else {
            Halt::Fault(Fault { kind: ParseErrorKind::InvalidPropertyValue, at: from })
        },
    }
}

/// One component of a value list at the start of the range: a plain value,
/// or the values that a call of a registered function gives; with the place
/// after it.
pub open spec fn component_at(
    text: Seq<char>,
    from: int,
    to: int,
    functions: Seq<FunctionEntryView>,
    properties: Seq<PropertyDefinitionView>,
    answers: AnswersView,
) -> Result<(Seq<ValueView>, int), Halt>
    decreases to - from, 0nat,
{
    match plain_value_at(text, from, to) {
        Some((value, next)) => Ok((seq![value], next)),
        None => match text_token_at(text, from, to) {
            Some((TextKind::Function, name, _)) => match function_of(functions, name) {
                None => Err(Halt::Fault(Fault { kind: ParseErrorKind::UnknownFunction, at: from })),
                Some(function) => match block_extent_at(text, from, to) {
                    Some((start, end, after)) => if from < start <= end <= to {
                        match applied(
                            function,
                            name,
                            text,
                            start,
                            end,
                            functions,
                            properties,
                            answers,
                        ) {
                            Ok(values) => Ok((values, after)),
                            Err(inner) => Err(call_halt(inner, from)),
                        }
                    } else {
                        Err(
                            Halt::Fault(
                                Fault { kind: ParseErrorKind::InvalidPropertyValue, at: from },
                            ),
                        )
                    },
                    None => Err(
                        Halt::Fault(Fault { kind: ParseErrorKind::InvalidPropertyValue, at: from }),
                    ),
                },
            },
            _ => Err(Halt::Fault(Fault { kind: ParseErrorKind::InvalidPropertyValue, at: from })),
        },
    }
}

/// The components from `from` up to `stop`, as many as there are, and
/// whether a comma stood after one of them or `comma` was set already.
pub open spec fn values_run(
    text: Seq<char>,
    from: int,
    stop: int,
    comma: bool,
    functions: Seq<FunctionEntryView>,
    properties: Seq<PropertyDefinitionView>,
    answers: AnswersView,
) -> Result<(Seq<ValueView>, bool), Halt>
    decreases stop - from, 1nat,
{
    if token_end_at(text, from, stop) is None {
        Ok((Seq::empty(), comma))
    } else {
        match component_at(text, from, stop, functions, properties, answers) {
            Err(inner) => Err(inner),
            Ok((values, next)) => if from < next <= stop {
                let (after, seen) = match mark_at(text, next, stop) {
                    Some((Mark::Comma, after)) => if next < after <= stop {
                        (after, true)
                    } else {
                        (next, comma)
                    },
                    _ => (next, comma),
                };
                match values_run(text, after, stop, seen, functions, properties, answers) {
                    Ok((rest, last)) => Ok((values + rest, last)),
                    Err(inner) => Err(inner),
                }
            } else {
                Err(Halt::Fault(Fault { kind: ParseErrorKind::InvalidPropertyValue, at: from }))
            },
        }
    }
}

/// The values of the range up to the first `!`, how they were separated, and
/// the place at which they end.
pub open spec fn values_at(
    text: Seq<char>,
    from: int,
    to: int,
    functions: Seq<FunctionEntryView>,
    properties: Seq<PropertyDefinitionView>,
    answers: AnswersView,
) -> Result<(Seq<ValueView>, ListType, int), Halt>
    decreases to - from, 2nat,
{
    let stop = stop_at(text, from, to, Stop::Bang);
    if from <= stop <= to {
        match values_run(text, from, stop, false, functions, properties, answers) {
            Ok((values, comma)) => Ok((values, list_type_of(values.len(), comma), stop)),
            Err(inner) => Err(inner),
        }
    } else {
        Err(Halt::Fault(Fault { kind: ParseErrorKind::InvalidPropertyValue, at: from }))
    }
}

/// The values of the range up to the first `!`, checked against a syntax,
/// and the place at which they end. An error of the check is placed there.
pub open spec fn checked_values_at(
    syntax: ParsedPropertySyntaxView,
    text: Seq<char>,
    from: int,
    to: int,
    functions: Seq<FunctionEntryView>,
    properties: Seq<PropertyDefinitionView>,
    answers: AnswersView,
) -> Result<(Seq<ValueView>, int), Halt>
    decreases to - from, 3nat,
{
    match values_at(text, from, to, functions, properties, answers) {
        Ok((values, list_type, stop)) => match syntax_verdict(syntax, values, list_type) {
            None => Ok((values, stop)),
            Some(kind) => Err(Halt::Fault(Fault { kind, at: stop })),
        },
        Err(inner) => Err(inner),
    }
}

/// The arguments of a function, checked against the syntax that a
/// descriptor writes.
pub open spec fn arguments_at(
    descriptor: Seq<char>,
    text: Seq<char>,
    from: int,
    to: int,
    functions: Seq<FunctionEntryView>,
    properties: Seq<PropertyDefinitionView>,
    answers: AnswersView,
) -> Result<Seq<ValueView>, Halt>
    decreases to - from, 4nat,
{
    match syntax_of(descriptor) {
        None => Err(Halt::Fault(Fault { kind: ParseErrorKind::InvalidPropertySyntax, at: from })),
        Some(syntax) => match checked_values_at(syntax, text, from, to, functions, properties, answers) {
            Ok((values, _)) => Ok(values),
            Err(inner) => Err(inner),
        },
    }
}

/// What `var` gives for the arguments in the range: the initial values of
/// the property that the identifier names, if it is registered; else the
/// values after the comma, if anything follows the identifier.
pub open spec fn variable_at(
    text: Seq<char>,
    from: int,
    to: int,
    functions: Seq<FunctionEntryView>,
    properties: Seq<PropertyDefinitionView>,
    answers: AnswersView,
) -> Result<Seq<ValueView>, Halt>
    decreases to - from, 4nat,
{
    match text_token_at(text, from, to) {
        Some((TextKind::Ident, name, next)) => match definition_of(properties, name) {
            Some(definition) => Ok(definition.initial),
            None => if token_end_at(text, next, to) is None {
                Err(Halt::Fault(Fault { kind: ParseErrorKind::UnknownProperty, at: next }))
            } else {
                match mark_at(text, next, to) {
                    Some((Mark::Comma, after)) => if from < after <= to {
                        match checked_values_at(
                            ParsedPropertySyntaxView::Universal,
                            text,
                            after,
                            to,
                            functions,
                            properties,
                            answers,
                        ) {
                            Ok((values, _)) => Ok(values),
                            Err(inner) => Err(inner),
                        }
                    } else {
                        Err(Halt::Fault(Fault { kind: ParseErrorKind::UnexpectedToken, at: next }))
                    },
                    _ => Err(
                        Halt::Fault(Fault { kind: ParseErrorKind::UnexpectedToken, at: next }),
                    ),
                }
            },
        },
        _ => Err(
            Halt::Fault(
                Fault {
                    kind: if token_end_at(text, from, to) is None {
                        ParseErrorKind::UnexpectedEndOfInput
                    } else {
                        ParseErrorKind::UnexpectedToken
                    },
                    at: from,
                },
            ),
        ),
    }
}

/// What a function of the embedder gives for its arguments: what the answers
/// say, which are asked for where they say nothing.
pub open spec fn external_values(
    name: Seq<char>,
    arguments: Seq<char>,
    at: int,
    answers: AnswersView,
) -> Result<Seq<ValueView>, Halt> {
    match function_answer(answers.functions, name, arguments) {
        None => Err(Halt::Need(RequestView::Function { name, arguments })),
        Some(Err(_)) => Err(Halt::Fault(Fault { kind: ParseErrorKind::InvalidPropertyValue, at })),
        Some(Ok(values)) => Ok(values),
    }
}

/// What the function registered as `name` gives for the arguments in the
/// range.
pub open spec fn applied(
    function: PropertyFunction,
    name: Seq<char>,
    text: Seq<char>,
    from: int,
    to: int,
    functions: Seq<FunctionEntryView>,
    properties: Seq<PropertyDefinitionView>,
    answers: AnswersView,
) -> Result<Seq<ValueView>, Halt>
    decreases to - from, 5nat,
{
    match function {
        PropertyFunction::Var => variable_at(text, from, to, functions, properties, answers),
        PropertyFunction::Mix => match arguments_at(
            "<color>, <color>, <number>"@,
            text,
            from,
            to,
            functions,
            properties,
            answers,
        ) {
            Ok(values) => match mixed_value(values) {
                Some(value) => Ok(seq![value]),
                None => Err(
                    Halt::Fault(Fault { kind: ParseErrorKind::InvalidPropertyValue, at: from }),
                ),
            },
            Err(inner) => Err(inner),
        },
        PropertyFunction::CustomColor => match arguments_at(
            "<string>, <string>#"@,
            text,
            from,
            to,
            functions,
            properties,
            answers,
        ) {
            Ok(values) => match custom_color_value(values) {
                Some(value) => Ok(seq![value]),
                None => Err(
                    Halt::Fault(Fault { kind: ParseErrorKind::InvalidPropertyValue, at: from }),
                ),
            },
            Err(inner) => Err(inner),
        },
        PropertyFunction::ModifyColor => match arguments_at(
            "*"@,
            text,
            from,
            to,
            functions,
            properties,
            answers,
        ) {
            Ok(values) => match modified_value(values) {
                Some(value) => Ok(seq![value]),
                None => Err(
                    Halt::Fault(Fault { kind: ParseErrorKind::InvalidPropertyValue, at: from }),
                ),
            },
            Err(inner) => Err(inner),
        },
        PropertyFunction::External => external_values(
            name,
            slice_at(text, from, to),
            from,
            answers,
        ),
    }
}

} // verus!

verus! {

/// Whether what the parser returned is what was to be expected.
pub open spec fn values_agree(
    outcome: Result<Vec<Value>, Interrupt>,
    expected: Result<Seq<ValueView>, Halt>,
    text: Seq<char>,
) -> bool {
    match (outcome, expected) {
        (Ok(values), Ok(wanted)) => values.deep_view() == wanted,
        (Err(stop), Err(wanted)) => halted(stop, wanted, text),
        _ => false,
    }
}

/// Whether what the parser returned, with the place after it, is what was to
/// be expected.
pub open spec fn placed_values_agree(
    outcome: Result<(Vec<Value>, usize), Interrupt>,
    expected: Result<(Seq<ValueView>, int), Halt>,
    text: Seq<char>,
) -> bool {
    match (outcome, expected) {
        (Ok((values, next)), Ok((wanted, place))) => values.deep_view() == wanted && next == place,
        (Err(stop), Err(wanted)) => halted(stop, wanted, text),
        _ => false,
    }
}

/// Moves the values of `more` to the end of `list`.
pub fn extend_values(list: &mut Vec<Value>, more: Vec<Value>)
    ensures
        final(list).deep_view() == old(list).deep_view() + more.deep_view(),
{
    let mut more = more;
    let ghost first = list.deep_view();
    let ghost second = more.deep_view();
    list.append(&mut more);
    assert(list.deep_view() =~= first + second);
}

/// What `mix` makes of its arguments.
pub fn mix_values(values: &Vec<Value>) -> (made: Option<Value>)
    ensures
        made.deep_view() == mixed_value(values.deep_view()),
{
    if values.len() != 3 {
        return None;
    }
    match (&values[0].data, &values[1].data, &values[2].data) {
        (ValueData::Color(first), ValueData::Color(second), ValueData::Dimension(amount)) => {
            let operation = ColorOperation::mix(second, amount.value);
            Some(Value { data: ValueData::Color(Color::modified(first, operation)) })
        },
        _ => None,
    }
}

/// What `custom-color` makes of its arguments.
pub fn custom_color_values(values: &Vec<Value>) -> (made: Option<Value>)
    ensures
        made.deep_view() == custom_color_value(values.deep_view()),
{
    if values.len() < 1 {
        return None;
    }
    let source = values[0].to_string();
    let mut arguments: Vec<String> = Vec::new();
    let mut i: usize = 1;
    while i < values.len()
        invariant
            1 <= i <= values.len(),
            arguments.len() == i - 1,
            forall|k: int| 0 <= k < i - 1 ==> arguments[k]@ == text_of(values.deep_view()[k + 1]),
        decreases values.len() - i,
    {
        arguments.push(values[i].to_string());
        i += 1;
    }
    assert(arguments.deep_view() =~= Seq::new(
        (values.len() - 1) as nat,
        |i: int| text_of(values.deep_view()[i + 1]),
    ));
    Some(Value { data: ValueData::Color(Color::custom(source, arguments)) })
}

/// The channel that the operand of a `set-` operation stands for.
pub fn operand_channel(operand: &Value) -> (channel: Option<u8>)
    ensures
        channel == channel_operand(operand.deep_view()),
{
    match &operand.data {
        ValueData::Dimension(dimension) => match dimension.unit {
            Unit::Number | Unit::Percent => Some(unit_to_byte(dimension.value)),
            _ => None,
        },
        _ => None,
    }
}

/// The operation that a name and an operand write in `modify-color`.
pub fn operation_from(name: &str, operand: &Value) -> (operation: Option<ColorOperation>)
    ensures
        operation.deep_view() == modify_operation(name@, operand.deep_view()),
{
    if str_eq(name, "add") {
        match &operand.data {
            ValueData::Color(color) => Some(ColorOperation::add(color)),
            _ => None,
        }
    } else if str_eq(name, "subtract") {
        match &operand.data {
            ValueData::Color(color) => Some(ColorOperation::subtract(color)),
            _ => None,
        }
    } else if str_eq(name, "multiply") {
        match &operand.data {
            ValueData::Color(color) => Some(ColorOperation::multiply(color)),
            _ => None,
        }
    } else if str_eq(name, "set-alpha") {
        match operand_channel(operand) {
            Some(channel) => Some(ColorOperation::set(None, None, None, Some(channel))),
            None => None,
        }
    } else if str_eq(name, "set-red") {
        match operand_channel(operand) {
            Some(channel) => Some(ColorOperation::set(Some(channel), None, None, None)),
            None => None,
        }
    } else if str_eq(name, "set-green") {
        match operand_channel(operand) {
            Some(channel) => Some(ColorOperation::set(None, Some(channel), None, None)),
            None => None,
        }
    } else if str_eq(name, "set-blue") {
        match operand_channel(operand) {
            Some(channel) => Some(ColorOperation::set(None, None, Some(channel), None)),
            None => None,
        }
    } else {
        None
    }
}

/// What `modify-color` makes of its arguments.
pub fn modify_color_values(values: &Vec<Value>) -> (made: Option<Value>)
    ensures
        made.deep_view() == modified_value(values.deep_view()),
{
    if values.len() != 3 {
        return None;
    }
    match (&values[0].data, &values[1].data) {
        (ValueData::Color(color), ValueData::String(name)) => {
            match operation_from(name.as_str(), &values[2]) {
                Some(operation) => Some(
                    Value { data: ValueData::Color(Color::modified(color, operation)) },
                ),
                None => None,
            }
        },
        _ => None,
    }
}

/// Reads one component of a value list at the start of the range.
pub fn parse_value_component(
    text: &str,
    from: usize,
    to: usize,
    functions: &FunctionRegistry,
    properties: &PropertyRegistry,
    answers: &Answers,
) -> (outcome: Result<(Vec<Value>, usize), Interrupt>)
    ensures
        outcome matches Err(Interrupt::Need(request)) ==> unanswered(
            answers.deep_view(),
            request.deep_view(),
        ),
        placed_values_agree(
            outcome,
            component_at(
                text@,
                from as int,
                to as int,
                functions.deep_view(),
                properties.deep_view(),
                answers.deep_view(),
            ),
            text@,
        ),
        outcome matches Ok((_, next)) ==> from < next <= to,
    decreases to - from, 0nat,
{
    match parse_plain_value(text, from, to) {
        Some((value, next)) => {
            let mut values: Vec<Value> = Vec::new();
            values.push(value);
            assert(values.deep_view() =~= seq![value.deep_view()]);
            return Ok((values, next));
        },
        None => {},
    }
    match text_token(text, from, to) {
        Some((TextKind::Function, name, _)) => {
            match functions.property_function(name.as_str()) {
                None => Err(stopped(text, ParseErrorKind::UnknownFunction, from, "Unknown function")),
                Some(function) => match block_extent(text, from, to) {
                    Some((start, end, after)) => {
                        match apply_function(
                            function,
                            name.as_str(),
                            text,
                            start,
                            end,
                            functions,
                            properties,
                            answers,
                        ) {
                            Ok(values) => Ok((values, after)),
                            Err(Interrupt::Need(request)) => Err(Interrupt::Need(request)),
                            Err(Interrupt::Error(error)) => match error.kind {
                                ParseErrorKind::UnknownFunction => Err(Interrupt::Error(error)),
                                _ => Err(
                                    stopped(
                                        text,
                                        ParseErrorKind::InvalidPropertyValue,
                                        from,
                                        "Could not parse input",
                                    ),
                                ),
                            },
                        }
                    },
                    None => Err(
                        stopped(
                            text,
                            ParseErrorKind::InvalidPropertyValue,
                            from,
                            "Could not parse input",
                        ),
                    ),
                },
            }
        },
        _ => Err(
            stopped(text, ParseErrorKind::InvalidPropertyValue, from, "Could not parse input"),
        ),
    }
}

/// Reads the values of the range up to the first `!`.
pub fn parse_value_list(
    text: &str,
    from: usize,
    to: usize,
    functions: &FunctionRegistry,
    properties: &PropertyRegistry,
    answers: &Answers,
) -> (outcome: Result<(ParseValuesResult, usize), Interrupt>)
    ensures
        outcome matches Err(Interrupt::Need(request)) ==> unanswered(
            answers.deep_view(),
            request.deep_view(),
        ),
        match (
            outcome,
            values_at(
                text@,
                from as int,
                to as int,
                functions.deep_view(),
                properties.deep_view(),
                answers.deep_view(),
            ),
        ) {
            (Ok((list, stop)), Ok((values, list_type, place))) => list.spec_values().deep_view()
                == values && list.spec_list_type() == list_type && stop == place,
            (Err(stop), Err(wanted)) => halted(stop, wanted, text@),
            _ => false,
        },
        outcome matches Ok((_, stop)) ==> from <= stop <= to,
    decreases to - from, 2nat,
{
    let stop = stop_before(text, from, to, Stop::Bang);
    if !(from <= stop && stop <= to) {
        return Err(
            stopped(text, ParseErrorKind::InvalidPropertyValue, from, "Could not parse input"),
        );
    }
    let mut values: Vec<Value> = Vec::new();
    let mut comma = false;
    let mut at: usize = from;
    assert(values.deep_view() =~= Seq::empty());
    loop
        invariant
            from <= at <= stop <= to,
            stop == stop_at(text@, from as int, to as int, Stop::Bang),
            match values_run(
                text@,
                at as int,
                stop as int,
                comma,
                functions.deep_view(),
                properties.deep_view(),
                answers.deep_view(),
            ) {
                Ok((rest, last)) => values_run(
                    text@,
                    from as int,
                    stop as int,
                    false,
                    functions.deep_view(),
                    properties.deep_view(),
                    answers.deep_view(),
                ) == Ok::<(Seq<ValueView>, bool), Halt>((values.deep_view() + rest, last)),
                Err(inner) => values_run(
                    text@,
                    from as int,
                    stop as int,
                    false,
                    functions.deep_view(),
                    properties.deep_view(),
                    answers.deep_view(),
                ) == Err::<(Seq<ValueView>, bool), Halt>(inner),
            },
        ensures
            values_run(
                text@,
                from as int,
                stop as int,
                false,
                functions.deep_view(),
                properties.deep_view(),
                answers.deep_view(),
            ) == Ok::<(Seq<ValueView>, bool), Halt>((values.deep_view(), comma)),
        decreases stop - at,
    {
        if token_end(text, at, stop).is_none() {
            assert(values.deep_view() + Seq::<ValueView>::empty() =~= values.deep_view());
            break ;
        }
        match parse_value_component(text, at, stop, functions, properties, answers) {
            Err(error) => {
                return Err(error);
            },
            Ok((found, next)) => {
                let ghost before = values.deep_view();
                let ghost added = found.deep_view();
                extend_values(&mut values, found);
                let mut after = next;
                match mark_token(text, next, stop) {
                    Some((Mark::Comma, place)) => {
                        after = place;
                        comma = true;
                    },
                    _ => {},
                }
                proof {
                    match values_run(
                        text@,
                        after as int,
                        stop as int,
                        comma,
                        functions.deep_view(),
                        properties.deep_view(),
                        answers.deep_view(),
                    ) {
                        Ok((rest, last)) => {
                            assert((before + added) + rest =~= before + (added + rest));
                        },
                        Err(_) => {},
                    }
                }
                at = after;
            },
        }
    }
    let list = if values.len() == 1 {
        ParseValuesResult::Single(values)
    } else if comma {
        ParseValuesResult::CommaSeparated(values)
    } else {
        ParseValuesResult::SpaceSeparated(values)
    };
    Ok((list, stop))
}

/// Reads the values of the range up to the first `!` and checks them against
/// a syntax. Hands out the values and the place at which they end.
pub fn parse_checked_values(
    syntax: &ParsedPropertySyntax,
    text: &str,
    from: usize,
    to: usize,
    functions: &FunctionRegistry,
    properties: &PropertyRegistry,
    answers: &Answers,
) -> (outcome: Result<(Vec<Value>, usize), Interrupt>)
    ensures
        outcome matches Err(Interrupt::Need(request)) ==> unanswered(
            answers.deep_view(),
            request.deep_view(),
        ),
        placed_values_agree(
            outcome,
            checked_values_at(
                syntax.deep_view(),
                text@,
                from as int,
                to as int,
                functions.deep_view(),
                properties.deep_view(),
                answers.deep_view(),
            ),
            text@,
        ),
        outcome matches Ok((_, stop)) ==> from <= stop <= to,
    decreases to - from, 3nat,
{
    match parse_value_list(text, from, to, functions, properties, answers) {
        Ok((list, stop)) => {
            match validate_syntax(syntax, &list, location_of(text, stop)) {
                Ok(_) => Ok((list.into_values(), stop)),
                Err(error) => Err(Interrupt::Error(error)),
            }
        },
        Err(error) => Err(error),
    }
}

/// Reads the arguments of a function and checks them against the syntax that
/// `descriptor` writes.
pub fn parse_arguments(
    descriptor: &str,
    text: &str,
    from: usize,
    to: usize,
    functions: &FunctionRegistry,
    properties: &PropertyRegistry,
    answers: &Answers,
) -> (outcome: Result<Vec<Value>, Interrupt>)
    ensures
        outcome matches Err(Interrupt::Need(request)) ==> unanswered(
            answers.deep_view(),
            request.deep_view(),
        ),
        values_agree(
            outcome,
            arguments_at(
                descriptor@,
                text@,
                from as int,
                to as int,
                functions.deep_view(),
                properties.deep_view(),
                answers.deep_view(),
            ),
            text@,
        ),
    decreases to - from, 4nat,
{
    match parse_syntax(descriptor, location_of(text, from)) {
        Err(error) => Err(Interrupt::Error(error)),
        Ok(syntax) => match parse_checked_values(
            &syntax,
            text,
            from,
            to,
            functions,
            properties,
            answers,
        ) {
            Ok((values, _)) => Ok(values),
            Err(error) => Err(error),
        },
    }
}

/// The function `var`, on the arguments in the range.
pub fn var(
    text: &str,
    from: usize,
    to: usize,
    functions: &FunctionRegistry,
    properties: &PropertyRegistry,
    answers: &Answers,
) -> (outcome: Result<Vec<Value>, Interrupt>)
    ensures
        outcome matches Err(Interrupt::Need(request)) ==> unanswered(
            answers.deep_view(),
            request.deep_view(),
        ),
        values_agree(
            outcome,
            variable_at(
                text@,
                from as int,
                to as int,
                functions.deep_view(),
                properties.deep_view(),
                answers.deep_view(),
            ),
            text@,
        ),
    decreases to - from, 4nat,
{
    match text_token(text, from, to) {
        Some((TextKind::Ident, name, next)) => {
            match properties.property_definition(name.as_str()) {
                Some(definition) => Ok(definition.initial),
                None => {
                    if token_end(text, next, to).is_none() {
                        return Err(
                            stopped(
                                text,
                                ParseErrorKind::UnknownProperty,
                                next,
                                "No custom property of this name was defined",
                            ),
                        );
                    }
                    match mark_token(text, next, to) {
                        Some((Mark::Comma, after)) => {
                            match parse_checked_values(
                                &ParsedPropertySyntax::Universal,
                                text,
                                after,
                                to,
                                functions,
                                properties,
                                answers,
                            ) {
                                Ok((values, _)) => Ok(values),
                                Err(error) => Err(error),
                            }
                        },
                        _ => Err(
                            stopped(text, ParseErrorKind::UnexpectedToken, next, "Expected a comma"),
                        ),
                    }
                },
            }
        },
        _ => {
            if token_end(text, from, to).is_none() {
                Err(
                    stopped(
                        text,
                        ParseErrorKind::UnexpectedEndOfInput,
                        from,
                        "Expected the name of a property",
                    ),
                )
            } else {
                Err(
                    stopped(
                        text,
                        ParseErrorKind::UnexpectedToken,
                        from,
                        "Expected the name of a property",
                    ),
                )
            }
        },
    }
}

/// What a function of the embedder gives for its arguments, from the
/// answers.
pub fn external_function(name: &str, arguments: &str, text: &str, at: usize, answers: &Answers) -> (outcome:
    Result<Vec<Value>, Interrupt>)
    ensures
        outcome matches Err(Interrupt::Need(request)) ==> unanswered(
            answers.deep_view(),
            request.deep_view(),
        ),
        values_agree(outcome, external_values(name@, arguments@, at as int, answers.deep_view()), text@),
{
    match answers.function(name, arguments) {
        None => Err(
            Interrupt::Need(Request::Function { name: owned(name), arguments: owned(arguments) }),
        ),
        Some(answer) => match &answer.outcome {
            Err(_) => Err(
                stopped(
                    text,
                    ParseErrorKind::InvalidPropertyValue,
                    at,
                    "The function gave no values",
                ),
            ),
            Ok(values) => Ok(clone_values(values)),
        },
    }
}

/// Applies the function registered as `name` to the arguments in the range.
pub fn apply_function(
    function: PropertyFunction,
    name: &str,
    text: &str,
    from: usize,
    to: usize,
    functions: &FunctionRegistry,
    properties: &PropertyRegistry,
    answers: &Answers,
) -> (outcome: Result<Vec<Value>, Interrupt>)
    ensures
        outcome matches Err(Interrupt::Need(request)) ==> unanswered(
            answers.deep_view(),
            request.deep_view(),
        ),
        values_agree(
            outcome,
            applied(
                function,
                name@,
                text@,
                from as int,
                to as int,
                functions.deep_view(),
                properties.deep_view(),
                answers.deep_view(),
            ),
            text@,
        ),
    decreases to - from, 5nat,
{
    let (arguments, made) = match function {
        PropertyFunction::Var => {
            return var(text, from, to, functions, properties, answers);
        },
        PropertyFunction::Mix => {
            match parse_arguments(
                "<color>, <color>, <number>",
                text,
                from,
                to,
                functions,
                properties,
                answers,
            ) {
                Ok(values) => {
                    let made = mix_values(&values);
                    (values, made)
                },
                Err(error) => {
                    return Err(error);
                },
            }
        },
        PropertyFunction::CustomColor => {
            match parse_arguments("<string>, <string>#", text, from, to, functions, properties, answers) {
                Ok(values) => {
                    let made = custom_color_values(&values);
                    (values, made)
                },
                Err(error) => {
                    return Err(error);
                },
            }
        },
        PropertyFunction::ModifyColor => {
            match parse_arguments("*", text, from, to, functions, properties, answers) {
                Ok(values) => {
                    let made = modify_color_values(&values);
                    (values, made)
                },
                Err(error) => {
                    return Err(error);
                },
            }
        },
        PropertyFunction::External => {
            let arguments = slice(text, from, to);
            return external_function(name, arguments.as_str(), text, from, answers);
        },
    };
    match made {
        Some(value) => {
            let mut values: Vec<Value> = Vec::new();
            values.push(value);
            assert(values.deep_view() =~= seq![value.deep_view()]);
            Ok(values)
        },
        None => Err(
            stopped(
                text,
                ParseErrorKind::InvalidPropertyValue,
                from,
                "The arguments do not fit the function",
            ),
        ),
    }
}

} // verus!

verus! {

/// Reads the values that the source holds up to the first `!` and checks them
/// against a syntax. On success the source stands where the values end; on
/// failure it stands where it stood.
pub fn parse_values(
    syntax: &ParsedPropertySyntax,
    source: &mut TokenSource,
    functions: &FunctionRegistry,
    properties: &PropertyRegistry,
    answers: &Answers,
) -> (outcome: Result<Vec<Value>, Interrupt>)
    ensures
        outcome matches Err(Interrupt::Need(request)) ==> unanswered(
            answers.deep_view(),
            request.deep_view(),
        ),
        final(source).text == old(source).text,
        final(source).limit == old(source).limit,
        match (
            outcome,
            checked_values_at(
                syntax.deep_view(),
                old(source).text@,
                old(source).position as int,
                old(source).limit as int,
                functions.deep_view(),
                properties.deep_view(),
                answers.deep_view(),
            ),
        ) {
            (Ok(values), Ok((wanted, stop))) => {
                &&& values.deep_view() == wanted
                &&& final(source).position == stop
            },
            (Err(error), Err(wanted)) => {
                &&& halted(error, wanted, old(source).text@)
                &&& final(source).position == old(source).position
            },
            _ => false,
        },
{
    match parse_checked_values(
        syntax,
        source.text,
        source.position,
        source.limit,
        functions,
        properties,
        answers,
    ) {
        Ok((values, stop)) => {
            source.position = stop;
            Ok(values)
        },
        Err(error) => Err(error),
    }
}

} // verus!

verus! {

/// Each plain value is of the kind that goes with what was read: an integer
/// token gives an integer, a number, a dimension or a percentage gives a
/// dimension, a color gives a color, an identifier or a quoted string gives a
/// string, and a URL gives a URL.
pub proof fn lemma_value_types(text: Seq<char>, from: int, to: int)
    ensures
        integer_at(text, from, to) matches Some((value, _)) ==> value.value_type()
            == ValueType::Integer,
        number_at(text, from, to) matches Some((value, _)) ==> value.value_type()
            == ValueType::Dimension,
        color_value_at(text, from, to) matches Some((value, _)) ==> value.value_type()
            == ValueType::Color,
        dimension_at(text, from, to) matches Some((value, _)) ==> value.value_type()
            == ValueType::Dimension,
        string_at(text, from, to) matches Some((value, _)) ==> value.value_type()
            == ValueType::String,
        url_value_at(text, from, to) matches Some((value, _)) ==> value.value_type()
            == ValueType::Url,
        plain_value_at(text, from, to) matches Some((value, _)) ==> value.value_type()
            != ValueType::Empty && value.value_type() != ValueType::Image,
{
}

/// Values that were read are accepted exactly when they fit the syntax:
/// reading succeeds if and only if the values can be read and fit the syntax,
/// and where they do not fit it fails with the fault of the misfit, at the
/// place where the values end. The empty and the universal syntax accept
/// whatever can be read.
pub proof fn lemma_values_accepted_iff_fitting(
    syntax: ParsedPropertySyntaxView,
    text: Seq<char>,
    from: int,
    to: int,
    functions: Seq<FunctionEntryView>,
    properties: Seq<PropertyDefinitionView>,
    answers: AnswersView,
)
    ensures
        checked_values_at(syntax, text, from, to, functions, properties, answers) is Ok <==> (values_at(
            text,
            from,
            to,
            functions,
            properties,
            answers,
        ) matches Ok((values, list_type, _)) && syntax_verdict(syntax, values, list_type) is None),
        values_at(text, from, to, functions, properties, answers) matches Ok((values, list_type, stop))
            ==> (match syntax_verdict(syntax, values, list_type) {
            None => checked_values_at(syntax, text, from, to, functions, properties, answers)
                == Ok::<(Seq<ValueView>, int), Halt>((values, stop)),
            Some(kind) => checked_values_at(syntax, text, from, to, functions, properties, answers)
                == Err::<(Seq<ValueView>, int), Halt>(Halt::Fault(Fault { kind, at: stop })),
        }),
        (syntax is Empty || syntax is Universal) ==> (checked_values_at(
            syntax,
            text,
            from,
            to,
            functions,
            properties,
            answers,
        ) is Ok <==> values_at(text, from, to, functions, properties, answers) is Ok),
{
}

} // verus!

//! The reader of the block of an `@property` rule.
//!
//! The block holds declarations. Three of them say something: `syntax`, the
//! descriptor of the property's syntax as a quoted string, or `var()` of a
//! property whose one initial value is such a string; `inherits`, `true` or
//! `false`; and `initial-value`, values that fit the syntax as it stands when
//! they are read. Declarations of other names are passed over.

use vstd::prelude::*;
use crate::answers::{unanswered, Answers, AnswersView};
use crate::details::{ParseError, ParseErrorKind};
use crate::function::{FunctionEntryView, FunctionRegistry};
use crate::grammar::{parse_syntax, syntax_of};
use crate::property::{PropertyDefinition, PropertyDefinitionView, PropertyRegistry};
use crate::syntax::{ParsedPropertySyntax, ParsedPropertySyntaxView};
use crate::text::{eq_ignoring_case, owned, same_ignoring_case, str_eq};
use crate::tokens::{
    block_extent, block_extent_at, location_of, mark_at, mark_token, stop_at, stop_before,
    text_token, text_token_at, token_end, token_end_at, Mark, Stop, TextKind,
};
use crate::value::ValueData;
use crate::values::{
    checked_values_at, fault, halted, parse_checked_values, reports, stopped, text_of, var,
    variable_at, Fault, Halt, Interrupt,
};

verus! {

/// The place after the semicolon at `at`; the end of the range where no
/// semicolon stands there.
pub open spec fn after_semicolon(text: Seq<char>, at: int, to: int) -> int {
    match mark_at(text, at, to) {
        Some((Mark::Semicolon, next)) => if at < next <= to {
            next
        } else {
            to
        },
        _ => to,
    }
}

/// The place after the semicolon at `at`; the end of the range where no
/// semicolon stands there.
pub fn skip_semicolon(text: &str, at: usize, to: usize) -> (next: usize)
    ensures
        next == after_semicolon(text@, at as int, to as int),
        at <= to ==> at <= next <= to,
{
    match mark_token(text, at, to) {
        Some((Mark::Semicolon, next)) => next,
        _ => to,
    }
}

/// The fault of a range that should start with a token of one sort and does
/// not: the input ended, or another token stands there.
pub open spec fn missing_token(text: Seq<char>, from: int, to: int) -> Fault {
    Fault {
        kind: if token_end_at(text, from, to) is None {
            ParseErrorKind::UnexpectedEndOfInput
        } else {
            ParseErrorKind::UnexpectedToken
        },
        at: from,
    }
}

/// The error of a range that should start with a token of one sort and does
/// not.
pub fn missing(text: &str, from: usize, to: usize, message: &str) -> (error: ParseError)
    ensures
        reports(error, missing_token(text@, from as int, to as int), text@),
{
    if token_end(text, from, to).is_none() {
        fault(text, ParseErrorKind::UnexpectedEndOfInput, from, message)
    } else {
        fault(text, ParseErrorKind::UnexpectedToken, from, message)
    }
}

/// The descriptor that the value of a `syntax` declaration writes, and the
/// place after it.
pub open spec fn syntax_text_at(
    text: Seq<char>,
    from: int,
    to: int,
    functions: Seq<FunctionEntryView>,
    properties: Seq<PropertyDefinitionView>,
    answers: AnswersView,
) -> Result<(Seq<char>, int), Halt> {
    match text_token_at(text, from, to) {
        Some((TextKind::QuotedString, descriptor, next)) => Ok((descriptor, next)),
        Some((TextKind::Function, name, _)) => if name == "var"@ {
            match block_extent_at(text, from, to) {
                Some((start, end, after)) => match variable_at(
                    text,
                    start,
                    end,
                    functions,
                    properties,
                    answers,
                ) {
                    Ok(values) => if values.len() == 1 && values[0] is String {
                        Ok((text_of(values[0]), after))
                    } else {
                        Err(
                            Halt::Fault(
                                Fault { kind: ParseErrorKind::InvalidPropertyDefinition, at: from },
                            ),
                        )
                    },
                    Err(inner) => Err(inner),
                },
                None => Err(
                    Halt::Fault(
                        Fault { kind: ParseErrorKind::InvalidPropertyDefinition, at: from },
                    ),
                ),
            }
        } else {
            Err(Halt::Fault(Fault { kind: ParseErrorKind::InvalidPropertyDefinition, at: from }))
        },
        _ => match token_end_at(text, from, to) {
            Some(next) => Ok(("*"@, next)),
            None => Err(
                Halt::Fault(Fault { kind: ParseErrorKind::UnexpectedEndOfInput, at: from }),
            ),
        },
    }
}

/// The definition, if nothing is left to read at `next`; else the fault of
/// what is left.
pub open spec fn settled(
    definition: PropertyDefinitionView,
    text: Seq<char>,
    next: int,
    to: int,
) -> Result<PropertyDefinitionView, Halt> {
    if token_end_at(text, next, to) is None {
        Ok(definition)
    } else {
        Err(Halt::Fault(Fault { kind: ParseErrorKind::InvalidPropertyDefinition, at: next }))
    }
}

/// The definition after the declaration `name` with the value in the range.
pub open spec fn described(
    definition: PropertyDefinitionView,
    name: Seq<char>,
    text: Seq<char>,
    from: int,
    to: int,
    functions: Seq<FunctionEntryView>,
    properties: Seq<PropertyDefinitionView>,
    answers: AnswersView,
) -> Result<PropertyDefinitionView, Halt> {
    if same_ignoring_case(name, "syntax"@) {
        match syntax_text_at(text, from, to, functions, properties, answers) {
            Err(inner) => Err(inner),
            Ok((descriptor, next)) => match syntax_of(descriptor) {
                None => Err(
                    Halt::Fault(
                        Fault { kind: ParseErrorKind::InvalidPropertyDefinition, at: from },
                    ),
                ),
                Some(syntax) => settled(
                    PropertyDefinitionView { syntax, ..definition },
                    text,
                    next,
                    to,
                ),
            },
        }
    } else if same_ignoring_case(name, "inherits"@) {
        match text_token_at(text, from, to) {
            Some((TextKind::Ident, value, next)) => if same_ignoring_case(value, "true"@) {
                settled(PropertyDefinitionView { inherit: true, ..definition }, text, next, to)
            } else if same_ignoring_case(value, "false"@) {
                settled(PropertyDefinitionView { inherit: false, ..definition }, text, next, to)
            } else {
                Err(
                    Halt::Fault(
                        Fault { kind: ParseErrorKind::InvalidPropertyDefinition, at: from },
                    ),
                )
            },
            _ => Err(Halt::Fault(missing_token(text, from, to))),
        }
    } else if same_ignoring_case(name, "initial-value"@) {
        match checked_values_at(definition.syntax, text, from, to, functions, properties, answers) {
            Ok((values, _)) => Ok(PropertyDefinitionView { initial: values, ..definition }),
            Err(inner) => Err(inner),
        }
    } else {
        Ok(definition)
    }
}

/// The definition when the block is read: it is valid if it has a name and a
/// syntax.
pub open spec fn finished(definition: PropertyDefinitionView, at: int) -> Result<
    PropertyDefinitionView,
    Halt,
> {
    if definition.name.len() == 0 || definition.syntax is Empty {
        Err(Halt::Fault(Fault { kind: ParseErrorKind::InvalidPropertyDefinition, at }))
    } else {
        Ok(definition)
    }
}

/// The definition after the declarations in the range, read one after the
/// other. The first fault ends the reading.
pub open spec fn definition_body_at(
    text: Seq<char>,
    from: int,
    to: int,
    definition: PropertyDefinitionView,
    functions: Seq<FunctionEntryView>,
    properties: Seq<PropertyDefinitionView>,
    answers: AnswersView,
) -> Result<PropertyDefinitionView, Halt>
    decreases to - from,
{
    match mark_at(text, from, to) {
        Some((Mark::Semicolon, next)) => if from < next <= to {
            definition_body_at(text, next, to, definition, functions, properties, answers)
        } else {
            Err(Halt::Fault(Fault { kind: ParseErrorKind::UnexpectedToken, at: from }))
        },
        _ => if token_end_at(text, from, to) is None {
            finished(definition, from)
        } else {
            match text_token_at(text, from, to) {
                Some((TextKind::Ident, name, after)) => {
                    let value_end = stop_at(text, after, to, Stop::Semicolon);
                    match mark_at(text, after, value_end) {
                        Some((Mark::Colon, colon_end)) => match described(
                            definition,
                            name,
                            text,
                            colon_end,
                            value_end,
                            functions,
                            properties,
                            answers,
                        ) {
                            Ok(changed) => if from < after_semicolon(text, value_end, to) <= to {
                                definition_body_at(
                                    text,
                                    after_semicolon(text, value_end, to),
                                    to,
                                    changed,
                                    functions,
                                    properties,
                                    answers,
                                )
                            } else {
                                Err(
                                    Halt::Fault(
                                        Fault { kind: ParseErrorKind::UnexpectedToken, at: from },
                                    ),
                                )
                            },
                            Err(inner) => Err(inner),
                        },
                        _ => Err(
                            Halt::Fault(Fault { kind: ParseErrorKind::UnexpectedToken, at: after }),
                        ),
                    }
                },
                Some((TextKind::AtKeyword, _, _)) => Err(
                    Halt::Fault(Fault { kind: ParseErrorKind::InvalidAtRule, at: from }),
                ),
                _ => Err(Halt::Fault(Fault { kind: ParseErrorKind::UnexpectedToken, at: from })),
            }
        },
    }
}

/// The definition of the property `name` that the block in the range writes.
pub open spec fn property_definition_at(
    text: Seq<char>,
    from: int,
    to: int,
    name: Seq<char>,
    functions: Seq<FunctionEntryView>,
    properties: Seq<PropertyDefinitionView>,
    answers: AnswersView,
) -> Result<PropertyDefinitionView, Halt> {
    definition_body_at(
        text,
        from,
        to,
        PropertyDefinitionView {
            name,
            syntax: ParsedPropertySyntaxView::Empty,
            inherit: false,
            initial: Seq::empty(),
        },
        functions,
        properties,
        answers,
    )
}

/// The reader of the declarations of an `@property` block: it holds the
/// definition as far as it was read.
#[derive(Debug, PartialEq)]
pub struct PropertyDefinitionParser {
    pub definition: PropertyDefinition,
}

impl PropertyDefinitionParser {
    /// Reads the descriptor that the value of a `syntax` declaration writes.
    pub fn syntax_text(
        text: &str,
        from: usize,
        to: usize,
        functions: &FunctionRegistry,
        properties: &PropertyRegistry,
        answers: &Answers,
    ) -> (outcome: Result<(String, usize), Interrupt>)
        ensures
            outcome matches Err(Interrupt::Need(request)) ==> unanswered(
                answers.deep_view(),
                request.deep_view(),
            ),
            match (
                outcome,
                syntax_text_at(
                    text@,
                    from as int,
                    to as int,
                    functions.deep_view(),
                    properties.deep_view(),
                    answers.deep_view(),
                ),
            ) {
                (Ok((descriptor, next)), Ok((wanted, place))) => descriptor@ == wanted && next
                    == place,
                (Err(stop), Err(wanted)) => halted(stop, wanted, text@),
                _ => false,
            },
            outcome matches Ok((_, next)) ==> from < next <= to,
    {
        match text_token(text, from, to) {
            Some((TextKind::QuotedString, descriptor, next)) => Ok((descriptor, next)),
            Some((TextKind::Function, name, _)) => {
                if !str_eq(name.as_str(), "var") {
                    return Err(
                        stopped(
                            text,
                            ParseErrorKind::InvalidPropertyDefinition,
                            from,
                            "This function is not supported in property definitions",
                        ),
                    );
                }
                match block_extent(text, from, to) {
                    Some((start, end, after)) => {
                        match var(text, start, end, functions, properties, answers) {
                            Ok(values) => {
                                if values.len() == 1 {
                                    match &values[0].data {
                                        ValueData::String(descriptor) => {
                                            return Ok((descriptor.clone(), after));
                                        },
                                        _ => {},
                                    }
                                }
                                Err(
                                    stopped(
                                        text,
                                        ParseErrorKind::InvalidPropertyDefinition,
                                        from,
                                        "Expected exactly one string value for property syntax",
                                    ),
                                )
                            },
                            Err(error) => Err(error),
                        }
                    },
                    None => Err(
                        stopped(
                            text,
                            ParseErrorKind::InvalidPropertyDefinition,
                            from,
                            "Expected the arguments of var",
                        ),
                    ),
                }
            },
            _ => match token_end(text, from, to) {
                Some(next) => Ok((owned("*"), next)),
                None => Err(
                    stopped(
                        text,
                        ParseErrorKind::UnexpectedEndOfInput,
                        from,
                        "Expected a property syntax",
                    ),
                ),
            },
        }
    }

    /// Checks that nothing is left to read at `next`.
    fn settle(text: &str, next: usize, to: usize) -> (outcome: Result<(), Interrupt>)
        ensures
            match outcome {
                Ok(_) => token_end_at(text@, next as int, to as int) is None,
                Err(stop) => token_end_at(text@, next as int, to as int) is Some && halted(
                    stop,
                    Halt::Fault(
                        Fault { kind: ParseErrorKind::InvalidPropertyDefinition, at: next as int },
                    ),
                    text@,
                ),
            },
    {
        if token_end(text, next, to).is_none() {
            Ok(())
        } else {
            Err(
                stopped(
                    text,
                    ParseErrorKind::InvalidPropertyDefinition,
                    next,
                    "Unexpected trailing characters",
                ),
            )
        }
    }

    /// Reads the value of the declaration `name` from the range and changes
    /// the definition by what it says. An error leaves the definition as it
    /// was.
    pub fn parse_value(
        &mut self,
        name: &str,
        text: &str,
        from: usize,
        to: usize,
        functions: &FunctionRegistry,
        properties: &PropertyRegistry,
        answers: &Answers,
    ) -> (outcome: Result<(), Interrupt>)
        ensures
            outcome matches Err(Interrupt::Need(request)) ==> unanswered(
                answers.deep_view(),
                request.deep_view(),
            ),
            match (
                outcome,
                described(
                    old(self).definition.deep_view(),
                    name@,
                    text@,
                    from as int,
                    to as int,
                    functions.deep_view(),
                    properties.deep_view(),
                    answers.deep_view(),
                ),
            ) {
                (Ok(_), Ok(wanted)) => final(self).definition.deep_view() == wanted,
                (Err(error), Err(wanted)) => {
                    &&& halted(error, wanted, text@)
                    &&& final(self).definition.deep_view() == old(self).definition.deep_view()
                },
                _ => false,
            },
    {
        if eq_ignoring_case(name, "syntax") {
            match PropertyDefinitionParser::syntax_text(text, from, to, functions, properties, answers) {
                Err(error) => Err(error),
                Ok((descriptor, next)) => {
                    match parse_syntax(descriptor.as_str(), location_of(text, from)) {
                        Err(_) => Err(
                            stopped(
                                text,
                                ParseErrorKind::InvalidPropertyDefinition,
                                from,
                                "Expected string for property syntax",
                            ),
                        ),
                        Ok(syntax) => match PropertyDefinitionParser::settle(text, next, to) {
                            Ok(_) => {
                                self.definition.syntax = syntax;
                                Ok(())
                            },
                            Err(error) => Err(error),
                        },
                    }
                },
            }
        } else if eq_ignoring_case(name, "inherits") {
            match text_token(text, from, to) {
                Some((TextKind::Ident, value, next)) => {
                    let inherit = if eq_ignoring_case(value.as_str(), "true") {
                        true
                    } else if eq_ignoring_case(value.as_str(), "false") {
                        false
                    } else {
                        return Err(
                            stopped(
                                text,
                                ParseErrorKind::InvalidPropertyDefinition,
                                from,
                                "Unexpected value for inherit",
                            ),
                        );
                    };
                    match PropertyDefinitionParser::settle(text, next, to) {
                        Ok(_) => {
                            self.definition.inherit = inherit;
                            Ok(())
                        },
                        Err(error) => Err(error),
                    }
                },
                _ => Err(Interrupt::Error(missing(text, from, to, "Expected true or false"))),
            }
        } else if eq_ignoring_case(name, "initial-value") {
            match parse_checked_values(
                &self.definition.syntax,
                text,
                from,
                to,
                functions,
                properties,
                answers,
            ) {
                Ok((values, _)) => {
                    self.definition.initial = values;
                    Ok(())
                },
                Err(error) => Err(error),
            }
        } else {
            Ok(())
        }
    }
}

/// Whether what a reader of a definition returned is the definition, or the
/// end of reading, that was to be expected.
pub open spec fn definition_agrees(
    outcome: Result<PropertyDefinition, Interrupt>,
    expected: Result<PropertyDefinitionView, Halt>,
    text: Seq<char>,
) -> bool {
    match (outcome, expected) {
        (Ok(definition), Ok(wanted)) => definition.deep_view() == wanted,
        (Err(stop), Err(wanted)) => halted(stop, wanted, text),
        _ => false,
    }
}

/// Reads the block of an `@property` rule for the property `name` from the
/// range.
pub fn parse_property_definition(
    text: &str,
    from: usize,
    to: usize,
    name: String,
    functions: &FunctionRegistry,
    properties: &PropertyRegistry,
    answers: &Answers,
) -> (outcome: Result<PropertyDefinition, Interrupt>)
    ensures
        outcome matches Err(Interrupt::Need(request)) ==> unanswered(
            answers.deep_view(),
            request.deep_view(),
        ),
        definition_agrees(
            outcome,
            property_definition_at(
                text@,
                from as int,
                to as int,
                name@,
                functions.deep_view(),
                properties.deep_view(),
                answers.deep_view(),
            ),
            text@,
        ),
{
    let mut parser = PropertyDefinitionParser { definition: PropertyDefinition::empty() };
    parser.definition.name = name;
    let mut at: usize = from;
    loop
        invariant
            definition_body_at(
                text@,
                from as int,
                to as int,
                PropertyDefinitionView {
                    name: name@,
                    syntax: ParsedPropertySyntaxView::Empty,
                    inherit: false,
                    initial: Seq::empty(),
                },
                functions.deep_view(),
                properties.deep_view(),
                answers.deep_view(),
            ) == definition_body_at(
                text@,
                at as int,
                to as int,
                parser.definition.deep_view(),
                functions.deep_view(),
                properties.deep_view(),
                answers.deep_view(),
            ),
        decreases to - at,
    {
        match mark_token(text, at, to) {
            Some((Mark::Semicolon, next)) => {
                at = next;
                continue ;
            },
            _ => {},
        }
        if token_end(text, at, to).is_none() {
            if parser.definition.name.as_str().unicode_len() == 0 {
                return Err(
                    stopped(
                        text,
                        ParseErrorKind::InvalidPropertyDefinition,
                        at,
                        "'name' is required for property definitions",
                    ),
                );
            }
            match parser.definition.syntax {
                ParsedPropertySyntax::Empty => {
                    return Err(
                        stopped(
                            text,
                            ParseErrorKind::InvalidPropertyDefinition,
                            at,
                            "'syntax' is required for property definitions",
                        ),
                    );
                },
                _ => {},
            }
            return Ok(parser.definition);
        }
        match text_token(text, at, to) {
            Some((TextKind::Ident, declared, after)) => {
                let value_end = stop_before(text, after, to, Stop::Semicolon);
                match mark_token(text, after, value_end) {
                    Some((Mark::Colon, colon_end)) => {
                        match parser.parse_value(
                            declared.as_str(),
                            text,
                            colon_end,
                            value_end,
                            functions,
                            properties,
                            answers,
                        ) {
                            Ok(_) => {
                                let next = skip_semicolon(text, value_end, to);
                                if !(at < next && next <= to) {
                                    return Err(
                                        stopped(
                                            text,
                                            ParseErrorKind::UnexpectedToken,
                                            at,
                                            "Unexpected token",
                                        ),
                                    );
                                }
                                at = next;
                            },
                            Err(error) => {
                                return Err(error);
                            },
                        }
                    },
                    _ => {
                        return Err(
                            stopped(text, ParseErrorKind::UnexpectedToken, after, "Expected a colon"),
                        );
                    },
                }
            },
            Some((TextKind::AtKeyword, _, _)) => {
                return Err(
                    stopped(
                        text,
                        ParseErrorKind::InvalidAtRule,
                        at,
                        "No @-rule can stand in a property definition",
                    ),
                );
            },
            _ => {
                return Err(
                    stopped(text, ParseErrorKind::UnexpectedToken, at, "Expected a declaration"),
                );
            },
        }
    }
}

} // verus!

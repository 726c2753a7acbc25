//! The rules parser: the declarations, the qualified rules and the at-rules
//! of a stylesheet or of the block of a rule.
//!
//! A body is read item by item. An item that starts with an at-keyword is an
//! at-rule: `@property` with a block, or `@import` without one. An item that
//! starts with an identifier is read as a declaration, and as a qualified
//! rule if it is no valid declaration. Any other item is a qualified rule: a
//! prelude of selectors and a block. The first item of a body that is not
//! valid makes the rule of the body invalid.

use vstd::prelude::*;
use crate::answers::{
    selectors_answer, unanswered, Answers, AnswersView, Request, RequestView,
};
use crate::definitionparser::{
    after_semicolon, missing, missing_token, parse_property_definition, property_definition_at,
    skip_semicolon,
};
use crate::details::{ParseError, ParseErrorKind};
use crate::function::{FunctionEntryView, FunctionRegistry};
use crate::property::{
    definition_of, registered, Property, PropertyDefinition, PropertyDefinitionView,
    PropertyRegistry, PropertyView,
};
use crate::selector::Selector;
use crate::selectorparser::{normalized_list, ParseRelative, SelectorParser};
use crate::stylerule::{lemma_parsed_rule_view, ParsedRule, ParsedRuleView};
use crate::syntax::{ParsedPropertySyntax, ParsedPropertySyntaxView};
use crate::text::{has_dashes, lemma_deep_view_push, owned, starts_with_dashes, str_eq};
use crate::tokens::{
    block_extent, block_extent_at, mark_at, mark_token, slice, slice_at, stop_at, stop_before,
    text_token, text_token_at, token_end, token_end_at, token_start, token_start_at, url_at,
    url_token, Mark, Stop, TextKind,
};
use crate::values::{
    checked_values_at, fault, halted, parse_checked_values, reports, stopped, Fault, Halt,
    Interrupt,
};

verus! {

/// What an item of a body is.
#[derive(Debug, PartialEq)]
pub enum ParseResult {
    Property(Property),
    Rule(ParsedRule),
    PropertyDefinition(PropertyDefinition),
    Import(String),
}

/// The mathematical value of a [`ParseResult`].
pub enum ParseResultView {
    Property(PropertyView),
    Rule(ParsedRuleView),
    PropertyDefinition(PropertyDefinitionView),
    Import(Seq<char>),
}

impl DeepView for ParseResult {
    type V = ParseResultView;

    open spec fn deep_view(&self) -> ParseResultView {
        match *self {
            ParseResult::Property(property) => ParseResultView::Property(property.deep_view()),
            ParseResult::Rule(rule) => ParseResultView::Rule(rule.deep_view()),
            ParseResult::PropertyDefinition(definition) => ParseResultView::PropertyDefinition(
                definition.deep_view(),
            ),
            ParseResult::Import(url) => ParseResultView::Import(url@),
        }
    }
}

/// What the prelude of an at-rule says.
#[derive(Debug, PartialEq, Eq)]
pub enum AtRulePrelude {
    Property(String),
    Import(String),
}

/// The mathematical value of an [`AtRulePrelude`].
pub enum AtRulePreludeView {
    Property(Seq<char>),
    Import(Seq<char>),
}

impl DeepView for AtRulePrelude {
    type V = AtRulePreludeView;

    open spec fn deep_view(&self) -> AtRulePreludeView {
        match *self {
            AtRulePrelude::Property(name) => AtRulePreludeView::Property(name@),
            AtRulePrelude::Import(url) => AtRulePreludeView::Import(url@),
        }
    }
}

/// What reading gives: a result, or the request for what reading needs from
/// outside to go on.
#[derive(Debug, PartialEq)]
pub enum Flow<T> {
    Done(T),
    Need(Request),
}

/// The mathematical value of a [`Flow`].
pub enum FlowView<T> {
    Done(T),
    Need(RequestView),
}

/// What was read, or the error of reading it, and the place after it.
#[derive(Debug, PartialEq)]
pub struct Consumed<T> {
    pub result: Result<T, ParseError>,
    pub next: usize,
}

/// What reading gives, in mathematical terms: the result or the fault, the
/// place after it, and the property definitions that are registered then.
pub struct Read<T> {
    pub result: Result<T, Fault>,
    pub next: int,
    pub registry: Seq<PropertyDefinitionView>,
}

/// The declarations and the nested rules of a block.
pub struct BodyView {
    pub properties: Seq<PropertyView>,
    pub nested_rules: Seq<ParsedRuleView>,
}

/// The mode in which the selectors of a prelude are read.
pub open spec fn relative_of(nested: bool) -> ParseRelative {
    if nested {
        ParseRelative::Nested
    } else {
        ParseRelative::No
    }
}

/// What a declaration of `name` with the value in the range is: a property,
/// if the name is registered and the values fit its syntax; the definition of
/// a custom property, if the name is not registered and starts with two
/// dashes.
pub open spec fn declaration_at(
    name: Seq<char>,
    text: Seq<char>,
    from: int,
    to: int,
    functions: Seq<FunctionEntryView>,
    registry: Seq<PropertyDefinitionView>,
    answers: AnswersView,
) -> Result<ParseResultView, Halt> {
    match definition_of(registry, name) {
        None => if !starts_with_dashes(name) {
            Err(Halt::Fault(Fault { kind: ParseErrorKind::UnknownProperty, at: from }))
        } else {
            match checked_values_at(
                ParsedPropertySyntaxView::Universal,
                text,
                from,
                to,
                functions,
                registry,
                answers,
            ) {
                Ok((values, _)) => Ok(
                    ParseResultView::PropertyDefinition(
                        PropertyDefinitionView {
                            name,
                            syntax: ParsedPropertySyntaxView::Universal,
                            inherit: false,
                            initial: values,
                        },
                    ),
                ),
                Err(inner) => Err(inner),
            }
        },
        Some(definition) => match checked_values_at(
            definition.syntax,
            text,
            from,
            to,
            functions,
            registry,
            answers,
        ) {
            Ok((values, _)) => Ok(
                ParseResultView::Property(PropertyView { name, definition, values }),
            ),
            Err(inner) => Err(inner),
        },
    }
}

/// The URL or quoted string at the start of the range, with the place after
/// it.
pub open spec fn url_or_string_at(text: Seq<char>, from: int, to: int) -> Option<(Seq<char>, int)> {
    match url_at(text, from, to) {
        Some(found) => Some(found),
        None => match text_token_at(text, from, to) {
            Some((TextKind::QuotedString, value, next)) => Some((value, next)),
            _ => None,
        },
    }
}

/// What the prelude of the at-rule `name` in the range says: `@property`
/// names a property, `@import` a URL, and nothing may follow either. No other
/// at-rule is supported.
pub open spec fn at_prelude_at(name: Seq<char>, text: Seq<char>, from: int, to: int) -> Result<
    AtRulePreludeView,
    Fault,
> {
    if name == "property"@ {
        match text_token_at(text, from, to) {
            Some((TextKind::Ident, property, next)) => if token_end_at(text, next, to) is None {
                Ok(AtRulePreludeView::Property(property))
            } else {
                Err(Fault { kind: ParseErrorKind::UnexpectedToken, at: next })
            },
            _ => Err(missing_token(text, from, to)),
        }
    } else if name == "import"@ {
        match url_or_string_at(text, from, to) {
            Some((url, next)) => if token_end_at(text, next, to) is None {
                Ok(AtRulePreludeView::Import(url))
            } else {
                Err(Fault { kind: ParseErrorKind::UnexpectedToken, at: next })
            },
            None => Err(missing_token(text, from, to)),
        }
    } else {
        Err(Fault { kind: ParseErrorKind::UnsupportedAtRule, at: from })
    }
}

/// What an at-rule without a block is: an import.
pub open spec fn without_block(prelude: AtRulePreludeView) -> Option<ParseResultView> {
    match prelude {
        AtRulePreludeView::Import(url) => Some(ParseResultView::Import(url)),
        AtRulePreludeView::Property(_) => None,
    }
}

/// What an at-rule with the block in the range is: the definition of a
/// property. Whatever is wrong in the block makes the definition invalid.
pub open spec fn with_block(
    prelude: AtRulePreludeView,
    text: Seq<char>,
    from: int,
    to: int,
    functions: Seq<FunctionEntryView>,
    registry: Seq<PropertyDefinitionView>,
    answers: AnswersView,
) -> Result<ParseResultView, Halt> {
    match prelude {
        AtRulePreludeView::Property(name) => match property_definition_at(
            text,
            from,
            to,
            name,
            functions,
            registry,
            answers,
        ) {
            Ok(definition) => Ok(ParseResultView::PropertyDefinition(definition)),
            Err(Halt::Fault(inner)) => Err(
                Halt::Fault(Fault { kind: ParseErrorKind::InvalidPropertyDefinition, at: inner.at }),
            ),
            Err(Halt::Need(request)) => Err(Halt::Need(request)),
        },
        AtRulePreludeView::Import(_) => Err(
            Halt::Fault(Fault { kind: ParseErrorKind::UnsupportedAtRule, at: from }),
        ),
    }
}

/// The at-rule in the range, whose keyword `name` ends at `after`. Its
/// prelude ends before the first semicolon or block.
pub open spec fn at_rule_at(
    text: Seq<char>,
    from: int,
    to: int,
    name: Seq<char>,
    after: int,
    functions: Seq<FunctionEntryView>,
    registry: Seq<PropertyDefinitionView>,
    answers: AnswersView,
) -> FlowView<Read<ParseResultView>> {
    let prelude_end = stop_at(text, after, to, Stop::SemicolonOrCurlyBracketBlock);
    let prelude = at_prelude_at(name, text, after, prelude_end);
    match mark_at(text, prelude_end, to) {
        Some((Mark::CurlyBracketBlock, _)) => match block_extent_at(text, prelude_end, to) {
            Some((start, end, block_end)) => match prelude {
                Ok(said) => match with_block(said, text, start, end, functions, registry, answers) {
                    Ok(item) => FlowView::Done(Read { result: Ok(item), next: block_end, registry }),
                    Err(Halt::Fault(inner)) => FlowView::Done(
                        Read { result: Err(inner), next: block_end, registry },
                    ),
                    Err(Halt::Need(request)) => FlowView::Need(request),
                },
                Err(inner) => FlowView::Done(
                    Read { result: Err(inner), next: block_end, registry },
                ),
            },
            None => FlowView::Done(
                Read {
                    result: Err(Fault { kind: ParseErrorKind::InvalidAtRule, at: from }),
                    next: to,
                    registry,
                },
            ),
        },
        _ => FlowView::Done(
            Read {
                result: match prelude {
                    Ok(said) => match without_block(said) {
                        Some(item) => Ok(item),
                        None => Err(Fault { kind: ParseErrorKind::InvalidAtRule, at: from }),
                    },
                    Err(inner) => Err(inner),
                },
                next: after_semicolon(text, prelude_end, to),
                registry,
            },
        ),
    }
}

/// The body with an item put before what follows it.
pub open spec fn with_item(item: ParseResultView, rest: BodyView) -> BodyView {
    match item {
        ParseResultView::Property(property) => BodyView {
            properties: seq![property] + rest.properties,
            nested_rules: rest.nested_rules,
        },
        ParseResultView::Rule(rule) => BodyView {
            properties: rest.properties,
            nested_rules: seq![rule] + rest.nested_rules,
        },
        _ => rest,
    }
}

/// The definitions after an item was read: the definition of a property is
/// registered at once.
pub open spec fn registry_with(
    registry: Seq<PropertyDefinitionView>,
    item: ParseResultView,
) -> Seq<PropertyDefinitionView> {
    match item {
        ParseResultView::PropertyDefinition(definition) => registered(registry, definition),
        _ => registry,
    }
}

/// The place after the token at `at`; the end of the range where none
/// stands there.
pub open spec fn after_token(text: Seq<char>, at: int, to: int) -> int {
    match token_end_at(text, at, to) {
        Some(next) => if at < next <= to {
            next
        } else {
            to
        },
        None => to,
    }
}

/// The qualified rule at the start of the range: the prelude up to the block
/// (in a nested rule, up to the block or a semicolon), and the block. A
/// prelude without a block after it is a fault; so is a prelude that writes
/// no selectors, and whatever is a fault in the block.
pub open spec fn qualified_rule_at(
    text: Seq<char>,
    from: int,
    to: int,
    nested: bool,
    functions: Seq<FunctionEntryView>,
    registry: Seq<PropertyDefinitionView>,
    answers: AnswersView,
) -> FlowView<Read<ParsedRuleView>>
    decreases to - from, 1nat,
{
    let prelude_end = stop_at(
        text,
        from,
        to,
        if nested {
            Stop::SemicolonOrCurlyBracketBlock
        } else {
            Stop::CurlyBracketBlock
        },
    );
    match mark_at(text, prelude_end, to) {
        Some((Mark::CurlyBracketBlock, _)) => match block_extent_at(text, prelude_end, to) {
            Some((start, end, block_end)) => if from < start <= end <= to {
                match selectors_answer(
                    answers.selectors,
                    slice_at(text, token_start_at(text, from, to), prelude_end),
                    relative_of(nested),
                ) {
                    None => FlowView::Need(
                        RequestView::Selectors {
                            prelude: slice_at(text, token_start_at(text, from, to), prelude_end),
                            relative: relative_of(nested),
                        },
                    ),
                    Some(Err(_)) => FlowView::Done(
                        Read {
                            result: Err(
                                Fault { kind: ParseErrorKind::InvalidSelectors, at: prelude_end },
                            ),
                            next: block_end,
                            registry,
                        },
                    ),
                    Some(Ok(components)) => match body_at(
                        text,
                        start,
                        end,
                        functions,
                        registry,
                        answers,
                    ) {
                        FlowView::Need(request) => FlowView::Need(request),
                        FlowView::Done(body) => FlowView::Done(
                            Read {
                                result: match body.result {
                                    Ok(content) => Ok(
                                        ParsedRuleView {
                                            selectors: normalized_list(
                                                components,
                                                relative_of(nested),
                                            ),
                                            properties: content.properties,
                                            nested_rules: content.nested_rules,
                                        },
                                    ),
                                    Err(inner) => Err(inner),
                                },
                                next: block_end,
                                registry: body.registry,
                            },
                        ),
                    },
                }
            } else {
                FlowView::Done(
                    Read {
                        result: Err(
                            Fault { kind: ParseErrorKind::InvalidQualifiedRule, at: from },
                        ),
                        next: to,
                        registry,
                    },
                )
            },
            None => FlowView::Done(
                Read {
                    result: Err(Fault { kind: ParseErrorKind::InvalidQualifiedRule, at: from }),
                    next: to,
                    registry,
                },
            ),
        },
        _ => FlowView::Done(
            Read {
                result: Err(missing_token(text, prelude_end, to)),
                next: after_token(text, prelude_end, to),
                registry,
            },
        ),
    }
}

/// The item at the start of the range of a body.
pub open spec fn item_at(
    text: Seq<char>,
    from: int,
    to: int,
    functions: Seq<FunctionEntryView>,
    registry: Seq<PropertyDefinitionView>,
    answers: AnswersView,
) -> FlowView<Read<ParseResultView>>
    decreases to - from, 2nat,
{
    match text_token_at(text, from, to) {
        Some((TextKind::AtKeyword, name, after)) => at_rule_at(
            text,
            from,
            to,
            name,
            after,
            functions,
            registry,
            answers,
        ),
        Some((TextKind::Ident, name, after)) => {
            let value_end = stop_at(text, after, to, Stop::Semicolon);
            let declared = match mark_at(text, after, value_end) {
                Some((Mark::Colon, colon_end)) => declaration_at(
                    name,
                    text,
                    colon_end,
                    value_end,
                    functions,
                    registry,
                    answers,
                ),
                _ => Err(Halt::Fault(Fault { kind: ParseErrorKind::UnexpectedToken, at: after })),
            };
            match declared {
                Ok(item) => FlowView::Done(
                    Read { result: Ok(item), next: after_semicolon(text, value_end, to), registry },
                ),
                Err(Halt::Need(request)) => FlowView::Need(request),
                Err(Halt::Fault(no_declaration)) => match qualified_rule_at(
                    text,
                    from,
                    to,
                    true,
                    functions,
                    registry,
                    answers,
                ) {
                    FlowView::Need(request) => FlowView::Need(request),
                    FlowView::Done(read) => FlowView::Done(
                        Read {
                            result: match read.result {
                                Ok(rule) => Ok(ParseResultView::Rule(rule)),
                                Err(_) => Err(no_declaration),
                            },
                            next: read.next,
                            registry: read.registry,
                        },
                    ),
                },
            }
        },
        _ => match qualified_rule_at(text, from, to, true, functions, registry, answers) {
            FlowView::Need(request) => FlowView::Need(request),
            FlowView::Done(read) => FlowView::Done(
                Read {
                    result: match read.result {
                        Ok(rule) => Ok(ParseResultView::Rule(rule)),
                        Err(inner) => Err(inner),
                    },
                    next: read.next,
                    registry: read.registry,
                },
            ),
        },
    }
}

/// The declarations and the nested rules of the block in the range, read
/// item by item. The definitions of properties among the items are
/// registered as they are read. The first fault ends the reading, and an
/// import is a fault here.
pub open spec fn body_at(
    text: Seq<char>,
    from: int,
    to: int,
    functions: Seq<FunctionEntryView>,
    registry: Seq<PropertyDefinitionView>,
    answers: AnswersView,
) -> FlowView<Read<BodyView>>
    decreases to - from, 3nat,
{
    match mark_at(text, from, to) {
        Some((Mark::Semicolon, next)) => if from < next <= to {
            body_at(text, next, to, functions, registry, answers)
        } else {
            FlowView::Done(
                Read {
                    result: Err(Fault { kind: ParseErrorKind::UnexpectedToken, at: from }),
                    next: to,
                    registry,
                },
            )
        },
        _ => if token_end_at(text, from, to) is None {
            FlowView::Done(
                Read {
                    result: Ok(BodyView { properties: Seq::empty(), nested_rules: Seq::empty() }),
                    next: to,
                    registry,
                },
            )
        } else {
            match item_at(text, from, to, functions, registry, answers) {
                FlowView::Need(request) => FlowView::Need(request),
                FlowView::Done(read) => match read.result {
                    Err(inner) => FlowView::Done(
                        Read { result: Err(inner), next: to, registry: read.registry },
                    ),
                    Ok(ParseResultView::Import(_)) => FlowView::Done(
                        Read {
                            result: Err(
                                Fault { kind: ParseErrorKind::UnsupportedAtRule, at: from },
                            ),
                            next: to,
                            registry: read.registry,
                        },
                    ),
                    Ok(item) => if from < read.next <= to {
                        match body_at(
                            text,
                            read.next,
                            to,
                            functions,
                            registry_with(read.registry, item),
                            answers,
                        ) {
                            FlowView::Need(request) => FlowView::Need(request),
                            FlowView::Done(rest) => FlowView::Done(
                                Read {
                                    result: match rest.result {
                                        Ok(content) => Ok(with_item(item, content)),
                                        Err(inner) => Err(inner),
                                    },
                                    next: to,
                                    registry: rest.registry,
                                },
                            ),
                        }
                    } else {
                        FlowView::Done(
                            Read {
                                result: Err(
                                    Fault { kind: ParseErrorKind::UnexpectedToken, at: from },
                                ),
                                next: to,
                                registry: read.registry,
                            },
                        )
                    },
                },
            }
        },
    }
}

} // verus!

verus! {

/// The declarations and the nested rules of a block.
#[derive(Debug, PartialEq)]
pub struct Body {
    pub properties: Vec<Property>,
    pub nested_rules: Vec<ParsedRule>,
}

impl DeepView for Body {
    type V = BodyView;

    open spec fn deep_view(&self) -> BodyView {
        BodyView {
            properties: self.properties.deep_view(),
            nested_rules: self.nested_rules.deep_view(),
        }
    }
}

/// Whether what was read, or the error of reading it, is what was to be
/// expected.
pub open spec fn result_agrees<T: DeepView>(
    result: Result<T, ParseError>,
    expected: Result<T::V, Fault>,
    text: Seq<char>,
) -> bool {
    match (result, expected) {
        (Ok(item), Ok(wanted)) => item.deep_view() == wanted,
        (Err(error), Err(wanted)) => reports(error, wanted, text),
        _ => false,
    }
}

/// Whether what was read, or why reading ended, is what was to be expected.
pub open spec fn outcome_agrees<T: DeepView>(
    result: Result<T, Interrupt>,
    expected: Result<T::V, Halt>,
    text: Seq<char>,
) -> bool {
    match (result, expected) {
        (Ok(item), Ok(wanted)) => item.deep_view() == wanted,
        (Err(stop), Err(wanted)) => halted(stop, wanted, text),
        _ => false,
    }
}

/// Whether what reading gave is what was to be expected, with the
/// definitions `registry` registered after it.
pub open spec fn read_agrees<T: DeepView>(
    outcome: Flow<Consumed<T>>,
    expected: FlowView<Read<T::V>>,
    registry: Seq<PropertyDefinitionView>,
    text: Seq<char>,
) -> bool {
    match (outcome, expected) {
        (Flow::Done(done), FlowView::Done(read)) => {
            &&& done.next == read.next
            &&& registry == read.registry
            &&& result_agrees(done.result, read.result, text)
        },
        (Flow::Need(request), FlowView::Need(wanted)) => request.deep_view() == wanted,
        _ => false,
    }
}

/// The reader of the rules of a stylesheet (`TOP_LEVEL`) or of the block of a
/// rule.
#[derive(Debug, Clone, Copy, PartialEq, Eq)]
pub struct RulesParser<const TOP_LEVEL: bool>;

impl<const TOP_LEVEL: bool> RulesParser<TOP_LEVEL> {
    /// The mode in which the selectors of a prelude are read.
    pub fn relative(&self) -> (relative: ParseRelative)
        ensures
            relative == relative_of(!TOP_LEVEL),
    {
        if TOP_LEVEL {
            ParseRelative::No
        } else {
            ParseRelative::Nested
        }
    }

    /// Reads the value of the declaration `name` from the range.
    pub fn parse_value(
        &self,
        name: &str,
        text: &str,
        from: usize,
        to: usize,
        functions: &FunctionRegistry,
        properties: &PropertyRegistry,
        answers: &Answers,
    ) -> (outcome: Result<ParseResult, Interrupt>)
        ensures
            outcome matches Err(Interrupt::Need(request)) ==> unanswered(
                answers.deep_view(),
                request.deep_view(),
            ),
            outcome_agrees(
                outcome,
                declaration_at(
                    name@,
                    text@,
                    from as int,
                    to as int,
                    functions.deep_view(),
                    properties.deep_view(),
                    answers.deep_view(),
                ),
                text@,
            ),
    {
        match properties.property_definition(name) {
            None => {
                if !has_dashes(name) {
                    return Err(
                        stopped(
                            text,
                            ParseErrorKind::UnknownProperty,
                            from,
                            "No definition for this property",
                        ),
                    );
                }
                match parse_checked_values(
                    &ParsedPropertySyntax::Universal,
                    text,
                    from,
                    to,
                    functions,
                    properties,
                    answers,
                ) {
                    Ok((values, _)) => Ok(
                        ParseResult::PropertyDefinition(
                            PropertyDefinition {
                                name: owned(name),
                                syntax: ParsedPropertySyntax::Universal,
                                inherit: false,
                                initial: values,
                            },
                        ),
                    ),
                    Err(error) => Err(error),
                }
            },
            Some(definition) => {
                match parse_checked_values(
                    &definition.syntax,
                    text,
                    from,
                    to,
                    functions,
                    properties,
                    answers,
                ) {
                    Ok((values, _)) => Ok(
                        ParseResult::Property(Property { name: owned(name), definition, values }),
                    ),
                    Err(error) => Err(error),
                }
            },
        }
    }

    /// Reads the prelude of the at-rule `name` from the range.
    pub fn parse_at_prelude(&self, name: &str, text: &str, from: usize, to: usize) -> (outcome:
        Result<AtRulePrelude, ParseError>)
        ensures
            result_agrees(outcome, at_prelude_at(name@, text@, from as int, to as int), text@),
    {
        if str_eq(name, "property") {
            match text_token(text, from, to) {
                Some((TextKind::Ident, property, next)) => {
                    if token_end(text, next, to).is_none() {
                        Ok(AtRulePrelude::Property(property))
                    } else {
                        Err(
                            fault(
                                text,
                                ParseErrorKind::UnexpectedToken,
                                next,
                                "Unexpected token after the name of the property",
                            ),
                        )
                    }
                },
                _ => Err(missing(text, from, to, "Expected the name of a property")),
            }
        } else if str_eq(name, "import") {
            let found = match url_token(text, from, to) {
                Some(found) => Some(found),
                None => match text_token(text, from, to) {
                    Some((TextKind::QuotedString, value, next)) => Some((value, next)),
                    _ => None,
                },
            };
            match found {
                Some((url, next)) => {
                    if token_end(text, next, to).is_none() {
                        Ok(AtRulePrelude::Import(url))
                    } else {
                        Err(
                            fault(
                                text,
                                ParseErrorKind::UnexpectedToken,
                                next,
                                "Unexpected token after the URL",
                            ),
                        )
                    }
                },
                None => Err(missing(text, from, to, "Expected a URL or a string")),
            }
        } else {
            Err(fault(text, ParseErrorKind::UnsupportedAtRule, from, "Unsupported @-rule"))
        }
    }

    /// What an at-rule without a block is.
    pub fn rule_without_block(&self, prelude: AtRulePrelude) -> (outcome: Result<ParseResult, ()>)
        ensures
            match outcome {
                Ok(item) => without_block(prelude.deep_view()) == Some(item.deep_view()),
                Err(_) => without_block(prelude.deep_view()) is None,
            },
    {
        match prelude {
            AtRulePrelude::Import(url) => Ok(ParseResult::Import(url)),
            AtRulePrelude::Property(_) => Err(()),
        }
    }

    /// Reads the block of an at-rule from the range.
    pub fn parse_at_block(
        &self,
        prelude: AtRulePrelude,
        text: &str,
        from: usize,
        to: usize,
        functions: &FunctionRegistry,
        properties: &PropertyRegistry,
        answers: &Answers,
    ) -> (outcome: Result<ParseResult, Interrupt>)
        ensures
            outcome matches Err(Interrupt::Need(request)) ==> unanswered(
                answers.deep_view(),
                request.deep_view(),
            ),
            outcome_agrees(
                outcome,
                with_block(
                    prelude.deep_view(),
                    text@,
                    from as int,
                    to as int,
                    functions.deep_view(),
                    properties.deep_view(),
                    answers.deep_view(),
                ),
                text@,
            ),
    {
        match prelude {
            AtRulePrelude::Property(name) => {
                match parse_property_definition(
                    text,
                    from,
                    to,
                    name,
                    functions,
                    properties,
                    answers,
                ) {
                    Ok(definition) => Ok(ParseResult::PropertyDefinition(definition)),
                    Err(Interrupt::Error(error)) => Err(
                        Interrupt::Error(
                            ParseError {
                                kind: ParseErrorKind::InvalidPropertyDefinition,
                                message: error.message,
                                location: error.location,
                            },
                        ),
                    ),
                    Err(Interrupt::Need(request)) => Err(Interrupt::Need(request)),
                }
            },
            AtRulePrelude::Import(_) => Err(
                stopped(
                    text,
                    ParseErrorKind::UnsupportedAtRule,
                    from,
                    "An import cannot have a block",
                ),
            ),
        }
    }

    /// Reads the at-rule in the range, whose keyword `name` ends at `after`.
    pub fn at_rule(
        &self,
        text: &str,
        from: usize,
        to: usize,
        name: &str,
        after: usize,
        functions: &FunctionRegistry,
        properties: &PropertyRegistry,
        answers: &Answers,
    ) -> (outcome: Flow<Consumed<ParseResult>>)
        ensures
            outcome matches Flow::Need(request) ==> unanswered(
                answers.deep_view(),
                request.deep_view(),
            ),
            read_agrees(
                outcome,
                at_rule_at(
                    text@,
                    from as int,
                    to as int,
                    name@,
                    after as int,
                    functions.deep_view(),
                    properties.deep_view(),
                    answers.deep_view(),
                ),
                properties.deep_view(),
                text@,
            ),
    {
        let prelude_end = stop_before(text, after, to, Stop::SemicolonOrCurlyBracketBlock);
        let prelude = self.parse_at_prelude(name, text, after, prelude_end);
        match mark_token(text, prelude_end, to) {
            Some((Mark::CurlyBracketBlock, _)) => match block_extent(text, prelude_end, to) {
                Some((start, end, block_end)) => match prelude {
                    Ok(said) => match self.parse_at_block(
                        said,
                        text,
                        start,
                        end,
                        functions,
                        properties,
                        answers,
                    ) {
                        Ok(item) => Flow::Done(Consumed { result: Ok(item), next: block_end }),
                        Err(Interrupt::Error(error)) => Flow::Done(
                            Consumed { result: Err(error), next: block_end },
                        ),
                        Err(Interrupt::Need(request)) => Flow::Need(request),
                    },
                    Err(error) => Flow::Done(Consumed { result: Err(error), next: block_end }),
                },
                None => Flow::Done(
                    Consumed {
                        result: Err(
                            fault(text, ParseErrorKind::InvalidAtRule, from, "Expected a block"),
                        ),
                        next: to,
                    },
                ),
            },
            _ => Flow::Done(
                Consumed {
                    result: match prelude {
                        Ok(said) => match self.rule_without_block(said) {
                            Ok(item) => Ok(item),
                            Err(_) => Err(
                                fault(
                                    text,
                                    ParseErrorKind::InvalidAtRule,
                                    from,
                                    "This @-rule needs a block",
                                ),
                            ),
                        },
                        Err(error) => Err(error),
                    },
                    next: skip_semicolon(text, prelude_end, to),
                },
            ),
        }
    }
}

/// The reader of the rules of a stylesheet.
pub type TopLevelParser = RulesParser<true>;

/// The reader of the rules of the block of a rule.
pub type NestedParser = RulesParser<false>;

} // verus!

verus! {

/// The selectors that a prelude writes, from what the selector library made
/// of it; or the reason why the library found no selectors in it.
pub open spec fn prelude_selectors(
    answers: AnswersView,
    prelude: Seq<char>,
    relative: ParseRelative,
) -> FlowView<Result<Seq<Seq<crate::selector::SelectorPartView>>, Seq<char>>> {
    match selectors_answer(answers.selectors, prelude, relative) {
        None => FlowView::Need(RequestView::Selectors { prelude, relative }),
        Some(Err(reason)) => FlowView::Done(Err(reason)),
        Some(Ok(components)) => FlowView::Done(Ok(normalized_list(components, relative))),
    }
}

impl<const TOP_LEVEL: bool> RulesParser<TOP_LEVEL> {
    /// The selectors that a prelude writes, with their parts from left to
    /// right. What the selector library made of the prelude is taken from the
    /// answers, and asked for where it is not among them.
    pub fn parse_prelude(&self, prelude: &str, answers: &Answers) -> (outcome: Flow<
        Result<Vec<Selector>, String>,
    >)
        ensures
            outcome matches Flow::Need(request) ==> unanswered(
                answers.deep_view(),
                request.deep_view(),
            ),
            match (
                outcome,
                prelude_selectors(answers.deep_view(), prelude@, relative_of(!TOP_LEVEL)),
            ) {
                (Flow::Done(Ok(found)), FlowView::Done(Ok(wanted))) => found.deep_view() == wanted,
                (Flow::Done(Err(reason)), FlowView::Done(Err(wanted))) => reason@ == wanted,
                (Flow::Need(request), FlowView::Need(wanted)) => request.deep_view() == wanted,
                _ => false,
            },
    {
        let relative = self.relative();
        match answers.selectors_for(prelude, relative) {
            None => Flow::Need(Request::Selectors { prelude: owned(prelude), relative }),
            Some(answer) => match &answer.outcome {
                Err(reason) => Flow::Done(Err(reason.clone())),
                Ok(components) => {
                    let parser = SelectorParser;
                    Flow::Done(Ok(parser.parse(components, relative)))
                },
            },
        }
    }

    /// Reads the block of a qualified rule from the range and makes the rule
    /// of the selectors and of what the block holds.
    pub fn parse_block(
        &self,
        prelude: Vec<Selector>,
        text: &str,
        from: usize,
        to: usize,
        functions: &FunctionRegistry,
        properties: &mut PropertyRegistry,
        answers: &Answers,
    ) -> (outcome: Flow<Result<ParsedRule, ParseError>>)
        ensures
            outcome matches Flow::Need(request) ==> unanswered(
                answers.deep_view(),
                request.deep_view(),
            ),
            match (
                outcome,
                body_at(
                    text@,
                    from as int,
                    to as int,
                    functions.deep_view(),
                    old(properties).deep_view(),
                    answers.deep_view(),
                ),
            ) {
                (Flow::Done(result), FlowView::Done(read)) => {
                    &&& final(properties).deep_view() == read.registry
                    &&& match (result, read.result) {
                        (Ok(rule), Ok(content)) => rule.deep_view() == (ParsedRuleView {
                            selectors: prelude.deep_view(),
                            properties: content.properties,
                            nested_rules: content.nested_rules,
                        }),
                        (Err(error), Err(wanted)) => reports(error, wanted, text@),
                        _ => false,
                    }
                },
                (Flow::Need(request), FlowView::Need(wanted)) => request.deep_view() == wanted,
                _ => false,
            },
        decreases to - from, 4nat,
    {
        match read_body(text, from, to, functions, properties, answers) {
            Flow::Need(request) => Flow::Need(request),
            Flow::Done(body) => match body.result {
                Ok(content) => {
                    let rule = ParsedRule {
                        selectors: prelude,
                        properties: content.properties,
                        nested_rules: content.nested_rules,
                    };
                    proof {
                        lemma_parsed_rule_view(rule);
                    }
                    Flow::Done(Ok(rule))
                },
                Err(error) => Flow::Done(Err(error)),
            },
        }
    }
}

/// Reads the qualified rule at the start of the range.
pub fn read_qualified_rule(
    text: &str,
    from: usize,
    to: usize,
    nested: bool,
    functions: &FunctionRegistry,
    properties: &mut PropertyRegistry,
    answers: &Answers,
) -> (outcome: Flow<Consumed<ParsedRule>>)
    ensures
        outcome matches Flow::Need(request) ==> unanswered(
            answers.deep_view(),
            request.deep_view(),
        ),
        read_agrees(
            outcome,
            qualified_rule_at(
                text@,
                from as int,
                to as int,
                nested,
                functions.deep_view(),
                old(properties).deep_view(),
                answers.deep_view(),
            ),
            final(properties).deep_view(),
            text@,
        ),
    decreases to - from, 1nat,
{
    let stop = if nested {
        Stop::SemicolonOrCurlyBracketBlock
    } else {
        Stop::CurlyBracketBlock
    };
    let prelude_end = stop_before(text, from, to, stop);
    match mark_token(text, prelude_end, to) {
        Some((Mark::CurlyBracketBlock, _)) => match block_extent(text, prelude_end, to) {
            Some((start, end, block_end)) => {
                if !(from < start && end <= to) {
                    return Flow::Done(
                        Consumed {
                            result: Err(
                                fault(
                                    text,
                                    ParseErrorKind::InvalidQualifiedRule,
                                    from,
                                    "Invalid qualified rule",
                                ),
                            ),
                            next: to,
                        },
                    );
                }
                let prelude = slice(text, token_start(text, from, to), prelude_end);
                let found = if nested {
                    let parser: NestedParser = RulesParser;
                    parser.parse_prelude(prelude.as_str(), answers)
                } else {
                    let parser: TopLevelParser = RulesParser;
                    parser.parse_prelude(prelude.as_str(), answers)
                };
                match found {
                    Flow::Need(request) => Flow::Need(request),
                    Flow::Done(Err(reason)) => Flow::Done(
                        Consumed {
                            result: Err(
                                fault(
                                    text,
                                    ParseErrorKind::InvalidSelectors,
                                    prelude_end,
                                    reason.as_str(),
                                ),
                            ),
                            next: block_end,
                        },
                    ),
                    Flow::Done(Ok(selectors)) => {
                        let parser: NestedParser = RulesParser;
                        match parser.parse_block(
                            selectors,
                            text,
                            start,
                            end,
                            functions,
                            properties,
                            answers,
                        ) {
                            Flow::Need(request) => Flow::Need(request),
                            Flow::Done(result) => Flow::Done(Consumed { result, next: block_end }),
                        }
                    },
                }
            },
            None => Flow::Done(
                Consumed {
                    result: Err(
                        fault(
                            text,
                            ParseErrorKind::InvalidQualifiedRule,
                            from,
                            "Invalid qualified rule",
                        ),
                    ),
                    next: to,
                },
            ),
        },
        _ => {
            let next = match token_end(text, prelude_end, to) {
                Some(next) => next,
                None => to,
            };
            Flow::Done(
                Consumed { result: Err(missing(text, prelude_end, to, "Expected a block")), next },
            )
        },
    }
}

/// Reads the item at the start of the range of a body.
pub fn read_item(
    text: &str,
    from: usize,
    to: usize,
    functions: &FunctionRegistry,
    properties: &mut PropertyRegistry,
    answers: &Answers,
) -> (outcome: Flow<Consumed<ParseResult>>)
    ensures
        outcome matches Flow::Need(request) ==> unanswered(
            answers.deep_view(),
            request.deep_view(),
        ),
        read_agrees(
            outcome,
            item_at(
                text@,
                from as int,
                to as int,
                functions.deep_view(),
                old(properties).deep_view(),
                answers.deep_view(),
            ),
            final(properties).deep_view(),
            text@,
        ),
    decreases to - from, 2nat,
{
    let parser: NestedParser = RulesParser;
    let no_declaration = match text_token(text, from, to) {
        Some((TextKind::AtKeyword, name, after)) => {
            return parser.at_rule(
                text,
                from,
                to,
                name.as_str(),
                after,
                functions,
                properties,
                answers,
            );
        },
        Some((TextKind::Ident, name, after)) => {
            let value_end = stop_before(text, after, to, Stop::Semicolon);
            let declared = match mark_token(text, after, value_end) {
                Some((Mark::Colon, colon_end)) => parser.parse_value(
                    name.as_str(),
                    text,
                    colon_end,
                    value_end,
                    functions,
                    properties,
                    answers,
                ),
                _ => Err(stopped(text, ParseErrorKind::UnexpectedToken, after, "Expected a colon")),
            };
            match declared {
                Ok(item) => {
                    return Flow::Done(
                        Consumed { result: Ok(item), next: skip_semicolon(text, value_end, to) },
                    );
                },
                Err(Interrupt::Need(request)) => {
                    return Flow::Need(request);
                },
                Err(Interrupt::Error(error)) => Some(error),
            }
        },
        _ => None,
    };
    match read_qualified_rule(text, from, to, true, functions, properties, answers) {
        Flow::Need(request) => Flow::Need(request),
        Flow::Done(read) => Flow::Done(
            Consumed {
                result: match read.result {
                    Ok(rule) => Ok(ParseResult::Rule(rule)),
                    Err(error) => match no_declaration {
                        Some(first) => Err(first),
                        None => Err(error),
                    },
                },
                next: read.next,
            },
        ),
    }
}

/// A body that was read was read to the end of its range.
pub proof fn lemma_body_ends(
    text: Seq<char>,
    from: int,
    to: int,
    functions: Seq<FunctionEntryView>,
    registry: Seq<PropertyDefinitionView>,
    answers: AnswersView,
)
    ensures
        body_at(text, from, to, functions, registry, answers) matches FlowView::Done(read)
            ==> read.next == to,
    decreases to - from,
{
    match mark_at(text, from, to) {
        Some((Mark::Semicolon, next)) => {
            if from < next <= to {
                lemma_body_ends(text, next, to, functions, registry, answers);
            }
        },
        _ => {},
    }
}

/// Reads the declarations and the nested rules of the block in the range.
#[verifier::rlimit(60)]
pub fn read_body(
    text: &str,
    from: usize,
    to: usize,
    functions: &FunctionRegistry,
    properties: &mut PropertyRegistry,
    answers: &Answers,
) -> (outcome: Flow<Consumed<Body>>)
    ensures
        outcome matches Flow::Need(request) ==> unanswered(
            answers.deep_view(),
            request.deep_view(),
        ),
        read_agrees(
            outcome,
            body_at(
                text@,
                from as int,
                to as int,
                functions.deep_view(),
                old(properties).deep_view(),
                answers.deep_view(),
            ),
            final(properties).deep_view(),
            text@,
        ),
    decreases to - from, 3nat,
{
    let ghost whole = body_at(
        text@,
        from as int,
        to as int,
        functions.deep_view(),
        properties.deep_view(),
        answers.deep_view(),
    );
    let mut declared: Vec<Property> = Vec::new();
    let mut nested: Vec<ParsedRule> = Vec::new();
    let mut at: usize = from;
    proof {
        lemma_body_ends(
            text@,
            from as int,
            to as int,
            functions.deep_view(),
            properties.deep_view(),
            answers.deep_view(),
        );
        assert(declared.deep_view() =~= Seq::empty());
        assert(nested.deep_view() =~= Seq::empty());
        match whole {
            FlowView::Done(rest) => {
                match rest.result {
                    Ok(content) => {
                        assert(declared.deep_view() + content.properties =~= content.properties);
                        assert(nested.deep_view() + content.nested_rules =~= content.nested_rules);
                    },
                    Err(_) => {},
                }
            },
            FlowView::Need(_) => {},
        }
    }
    loop
        invariant
            from <= at,
            whole == body_at(
                text@,
                from as int,
                to as int,
                functions.deep_view(),
                old(properties).deep_view(),
                answers.deep_view(),
            ),
            match body_at(
                text@,
                at as int,
                to as int,
                functions.deep_view(),
                properties.deep_view(),
                answers.deep_view(),
            ) {
                FlowView::Need(request) => whole == FlowView::<Read<BodyView>>::Need(request),
                FlowView::Done(rest) => whole == FlowView::Done(
                    Read {
                        result: match rest.result {
                            Ok(content) => Ok(
                                BodyView {
                                    properties: declared.deep_view() + content.properties,
                                    nested_rules: nested.deep_view() + content.nested_rules,
                                },
                            ),
                            Err(inner) => Err(inner),
                        },
                        next: to as int,
                        registry: rest.registry,
                    },
                ),
            },
        decreases to - at,
    {
        match mark_token(text, at, to) {
            Some((Mark::Semicolon, next)) => {
                at = next;
                continue ;
            },
            _ => {},
        }
        if token_end(text, at, to).is_none() {
            proof {
                assert(declared.deep_view() + Seq::<PropertyView>::empty()
                    =~= declared.deep_view());
                assert(nested.deep_view() + Seq::<ParsedRuleView>::empty() =~= nested.deep_view());
            }
            return Flow::Done(
                Consumed { result: Ok(Body { properties: declared, nested_rules: nested }), next: to },
            );
        }
        let ghost before = properties.deep_view();
        match read_item(text, at, to, functions, properties, answers) {
            Flow::Need(request) => {
                return Flow::Need(request);
            },
            Flow::Done(read) => match read.result {
                Err(error) => {
                    return Flow::Done(Consumed { result: Err(error), next: to });
                },
                Ok(ParseResult::Import(_)) => {
                    return Flow::Done(
                        Consumed {
                            result: Err(
                                fault(
                                    text,
                                    ParseErrorKind::UnsupportedAtRule,
                                    at,
                                    "@import can only be used at top level",
                                ),
                            ),
                            next: to,
                        },
                    );
                },
                Ok(item) => {
                    if !(at < read.next && read.next <= to) {
                        return Flow::Done(
                            Consumed {
                                result: Err(
                                    fault(
                                        text,
                                        ParseErrorKind::UnexpectedToken,
                                        at,
                                        "Unexpected token",
                                    ),
                                ),
                                next: to,
                            },
                        );
                    }
                    let ghost item_view = item.deep_view();
                    let ghost earlier_declared = declared.deep_view();
                    let ghost earlier_nested = nested.deep_view();
                    match item {
                        ParseResult::Property(property) => {
                            let ghost old_list = declared;
                            declared.push(property);
                            proof {
                                lemma_deep_view_push(old_list, declared, property);
                            }
                        },
                        ParseResult::Rule(rule) => {
                            let ghost old_list = nested;
                            nested.push(rule);
                            proof {
                                lemma_deep_view_push(old_list, nested, rule);
                            }
                        },
                        ParseResult::PropertyDefinition(definition) => {
                            properties.add_property_definition(definition);
                        },
                        ParseResult::Import(_) => {},
                    }
                    proof {
                        match body_at(
                            text@,
                            read.next as int,
                            to as int,
                            functions.deep_view(),
                            properties.deep_view(),
                            answers.deep_view(),
                        ) {
                            FlowView::Done(rest) => {
                                match rest.result {
                                    Ok(content) => {
                                        let joined = with_item(item_view, content);
                                        assert(earlier_declared + joined.properties
                                            =~= declared.deep_view() + content.properties);
                                        assert(earlier_nested + joined.nested_rules
                                            =~= nested.deep_view() + content.nested_rules);
                                    },
                                    Err(_) => {},
                                }
                            },
                            FlowView::Need(_) => {},
                        }
                    }
                    at = read.next;
                },
            },
        }
    }
}

} // verus!

//! The stylesheet: it parses a text, flattens the rules it finds, registers
//! the properties that the text defines, follows its imports, and collects
//! the errors.
//!
//! A text is read item by item. A rule that is not valid leaves one error and
//! no rule. An import is parsed as a stylesheet of its own, at the place where
//! it stands; that it cannot be loaded, or that errors are on record when it
//! is parsed, ends the parsing of the text that imports it. What a text gives
//! is put on record when its end is reached: its rules after the rules of its
//! imports, and its errors after theirs.

use vstd::prelude::*;
use crate::answers::{
    file_answer, unanswered, Answers, AnswersView, Request, RequestView,
};
use crate::details::{
    error_text, ParseError, ParseErrorKind, ParseErrorView, SourceLocation, SourceLocationView,
};
use crate::function::{FunctionEntryView, FunctionRegistry};
use crate::property::{registered, PropertyDefinitionView, PropertyRegistry};
use crate::rulesparser::{
    at_rule_at, qualified_rule_at, read_qualified_rule, Consumed, Flow, FlowView, ParseResult,
    ParseResultView, Read, RulesParser, TopLevelParser,
};
use crate::stylerule::{extend_rules, flattened, StyleRule, StyleRuleView};
use crate::text::owned;
use crate::tokens::{
    byte_length, location_at, mark_at, mark_token, text_token, text_token_at, token_end,
    token_end_at, Mark, TextKind,
};
use crate::values::Fault;

verus! {

/// How deep imports can be nested.
pub const IMPORT_DEPTH: usize = 256;

/// What an error says, without its message: its kind and its place.
pub struct Flaw {
    pub kind: ParseErrorKind,
    pub location: SourceLocationView,
}

/// The flaw that a fault in a text is.
pub open spec fn flaw_of(fault: Fault, text: Seq<char>) -> Flaw {
    Flaw { kind: fault.kind, location: location_at(text, fault.at) }
}

/// The flaw that an error shows.
pub open spec fn shown(error: ParseError) -> Flaw {
    Flaw { kind: error.kind, location: error.location.deep_view() }
}

/// The flaws that errors show.
pub open spec fn flaws(errors: Seq<ParseError>) -> Seq<Flaw> {
    Seq::new(errors.len(), |i: int| shown(errors[i]))
}

/// Why the parsing of a text ended badly.
pub enum Failure {
    /// Errors were on record when the end of the text of an origin was
    /// reached.
    Errors { origin: Seq<char> },
    /// The file that an import names could not be loaded, for a reason.
    File { name: Seq<char>, reason: Seq<char> },
    /// The import of the file of an origin was nested too deeply.
    Depth { origin: Seq<char> },
    /// An item of the text of an origin took no place in it.
    Stuck { origin: Seq<char> },
}

/// The texts of the first `count` errors, each on a line of its own.
pub open spec fn error_lines(errors: Seq<ParseErrorView>, count: int) -> Seq<char>
    decreases count,
{
    if count <= 0 || count > errors.len() {
        Seq::empty()
    } else {
        error_lines(errors, count - 1) + error_text(errors[count - 1]) + "\n"@
    }
}

/// What is said of the errors on record: the message of the one error, or
/// the texts of all of them in their order.
pub open spec fn aggregated(errors: Seq<ParseErrorView>) -> Seq<char> {
    if errors.len() == 1 {
        errors[0].message
    } else {
        "Multiple errors:\n"@ + error_lines(errors, errors.len() as int)
    }
}

/// The start of a file.
pub open spec fn start_of(file: Seq<char>) -> SourceLocationView {
    SourceLocationView { file, line: 0, column: 0 }
}

/// The error that tells of a failure, with `errors` on record.
pub open spec fn failure_error(failure: Failure, errors: Seq<ParseErrorView>) -> ParseErrorView {
    match failure {
        Failure::Errors { origin } => ParseErrorView {
            kind: ParseErrorKind::StyleSheetParseError,
            message: aggregated(errors),
            location: start_of(origin),
        },
        Failure::File { name, reason } => ParseErrorView {
            kind: ParseErrorKind::FileError,
            message: reason,
            location: start_of(name),
        },
        Failure::Depth { origin } => ParseErrorView {
            kind: ParseErrorKind::StyleSheetParseError,
            message: "Imports are nested too deeply"@,
            location: start_of(origin),
        },
        Failure::Stuck { origin } => ParseErrorView {
            kind: ParseErrorKind::StyleSheetParseError,
            message: "The parser made no progress"@,
            location: start_of(origin),
        },
    }
}

/// What a stylesheet has on record: rules and flaws.
pub struct SheetView {
    pub rules: Seq<StyleRuleView>,
    pub errors: Seq<Flaw>,
}

/// What parsing a text gives: the record after it, the property definitions
/// that are registered then, and whether the text was parsed to its end
/// without a flaw on record.
pub struct SheetRead {
    pub sheet: SheetView,
    pub registry: Seq<PropertyDefinitionView>,
    pub result: Result<(), Failure>,
}

/// The text that is parsed for an input of an origin: the input after a
/// comment that names the origin, so that places in it are reported under
/// that name.
pub open spec fn prefixed(origin: Seq<char>, input: Seq<char>) -> Seq<char> {
    "/*# sourceURL="@ + origin + " */\n"@ + input
}

/// The item at the start of the range of a stylesheet: an at-rule, or a
/// qualified rule.
pub open spec fn top_item_at(
    text: Seq<char>,
    from: int,
    to: int,
    functions: Seq<FunctionEntryView>,
    registry: Seq<PropertyDefinitionView>,
    answers: AnswersView,
) -> FlowView<Read<ParseResultView>> {
    match text_token_at(text, from, to) {
        Some((TextKind::AtKeyword, name, after)) => at_rule_at(
            text,
            from,
            to,
            name,
            after,
            functions,
            registry,
            answers,
        ),
        _ => match qualified_rule_at(text, from, to, false, functions, registry, answers) {
            FlowView::Need(request) => FlowView::Need(request),
            FlowView::Done(read) => FlowView::Done(
                Read {
                    result: match read.result {
                        Ok(rule) => Ok(ParseResultView::Rule(rule)),
                        Err(inner) => Err(inner),
                    },
                    next: read.next,
                    registry: read.registry,
                },
            ),
        },
    }
}

/// The record at the end of a text: what was on record, then what the text
/// gave. The text was parsed well if no flaw is on record then.
pub open spec fn finished_sheet(
    sheet: SheetView,
    local: SheetView,
    registry: Seq<PropertyDefinitionView>,
    origin: Seq<char>,
) -> SheetRead {
    SheetRead {
        sheet: SheetView {
            rules: sheet.rules + local.rules,
            errors: sheet.errors + local.errors,
        },
        registry,
        result: if (sheet.errors + local.errors).len() == 0 {
            Ok(())
        } else {
            Err(Failure::Errors { origin })
        },
    }
}

/// What parsing the items of a text from `from` on gives. `sheet` is on
/// record, `local` is what the text gave so far.
pub open spec fn sheet_items_at(
    text: Seq<char>,
    from: int,
    to: int,
    origin: Seq<char>,
    functions: Seq<FunctionEntryView>,
    registry: Seq<PropertyDefinitionView>,
    answers: AnswersView,
    sheet: SheetView,
    local: SheetView,
    depth: nat,
) -> FlowView<SheetRead>
    decreases depth, 0nat, to - from,
{
    let skipped = match mark_at(text, from, to) {
        Some((Mark::Cdo, next)) => Some(next),
        Some((Mark::Cdc, next)) => Some(next),
        _ => None,
    };
    if skipped is Some && from < skipped->0 <= to {
        sheet_items_at(
            text,
            skipped->0,
            to,
            origin,
            functions,
            registry,
            answers,
            sheet,
            local,
            depth,
        )
    } else if token_end_at(text, from, to) is None {
        FlowView::Done(finished_sheet(sheet, local, registry, origin))
    } else {
        match top_item_at(text, from, to, functions, registry, answers) {
            FlowView::Need(request) => FlowView::Need(request),
            FlowView::Done(read) => if !(from < read.next <= to) {
                FlowView::Done(
                    SheetRead {
                        sheet,
                        registry: read.registry,
                        result: Err(Failure::Stuck { origin }),
                    },
                )
            } else {
                match read.result {
                    Err(inner) => sheet_items_at(
                        text,
                        read.next,
                        to,
                        origin,
                        functions,
                        read.registry,
                        answers,
                        sheet,
                        SheetView {
                            rules: local.rules,
                            errors: local.errors.push(flaw_of(inner, text)),
                        },
                        depth,
                    ),
                    Ok(ParseResultView::Rule(rule)) => sheet_items_at(
                        text,
                        read.next,
                        to,
                        origin,
                        functions,
                        read.registry,
                        answers,
                        sheet,
                        SheetView { rules: local.rules + flattened(rule), errors: local.errors },
                        depth,
                    ),
                    Ok(ParseResultView::PropertyDefinition(definition)) => sheet_items_at(
                        text,
                        read.next,
                        to,
                        origin,
                        functions,
                        registered(read.registry, definition),
                        answers,
                        sheet,
                        local,
                        depth,
                    ),
                    Ok(ParseResultView::Property(_)) => sheet_items_at(
                        text,
                        read.next,
                        to,
                        origin,
                        functions,
                        read.registry,
                        answers,
                        sheet,
                        local,
                        depth,
                    ),
                    Ok(ParseResultView::Import(name)) => match file_answer(answers.files, name) {
                        None => FlowView::Need(RequestView::File { name }),
                        Some(Err(reason)) => FlowView::Done(
                            SheetRead {
                                sheet,
                                registry: read.registry,
                                result: Err(Failure::File { name, reason }),
                            },
                        ),
                        Some(Ok((file_origin, contents))) => if depth == 0 {
                            FlowView::Done(
                                SheetRead {
                                    sheet,
                                    registry: read.registry,
                                    result: Err(Failure::Depth { origin: file_origin }),
                                },
                            )
                        } else {
                            match sheet_at(
                                contents,
                                file_origin,
                                functions,
                                read.registry,
                                answers,
                                sheet,
                                (depth - 1) as nat,
                            ) {
                                FlowView::Need(request) => FlowView::Need(request),
                                FlowView::Done(imported) => match imported.result {
                                    Err(_) => FlowView::Done(imported),
                                    Ok(_) => sheet_items_at(
                                        text,
                                        read.next,
                                        to,
                                        origin,
                                        functions,
                                        imported.registry,
                                        answers,
                                        imported.sheet,
                                        local,
                                        depth,
                                    ),
                                },
                            }
                        },
                    },
                }
            },
        }
    }
}

/// What parsing an input of an origin gives, with `sheet` on record and
/// imports nested no deeper than `depth`.
pub open spec fn sheet_at(
    input: Seq<char>,
    origin: Seq<char>,
    functions: Seq<FunctionEntryView>,
    registry: Seq<PropertyDefinitionView>,
    answers: AnswersView,
    sheet: SheetView,
    depth: nat,
) -> FlowView<SheetRead>
    decreases depth, 1nat, 0int,
{
    sheet_items_at(
        prefixed(origin, input),
        0,
        byte_length(prefixed(origin, input)),
        origin,
        functions,
        registry,
        answers,
        sheet,
        SheetView { rules: Seq::empty(), errors: Seq::empty() },
        depth,
    )
}

} // verus!

verus! {

/// A stylesheet: the flat rules that were parsed, the errors that parsing
/// left, and the directory in which imports are looked for.
#[derive(Debug, PartialEq)]
pub struct StyleSheet {
    pub rules: Vec<StyleRule>,
    pub errors: Vec<ParseError>,
    pub root_path: String,
}

/// An error as it is reported to the user of a stylesheet.
#[derive(Debug, PartialEq, Eq)]
pub struct StyleSheetError {
    pub file: String,
    pub line: u32,
    pub column: u32,
    pub message: String,
}

/// The mathematical value of a [`StyleSheetError`].
pub struct StyleSheetErrorView {
    pub file: Seq<char>,
    pub line: u32,
    pub column: u32,
    pub message: Seq<char>,
}

impl DeepView for StyleSheetError {
    type V = StyleSheetErrorView;

    open spec fn deep_view(&self) -> StyleSheetErrorView {
        StyleSheetErrorView {
            file: self.file@,
            line: self.line,
            column: self.column,
            message: self.message@,
        }
    }
}

/// How an error is reported: its place, and its text as the message.
pub open spec fn reported(error: ParseErrorView) -> StyleSheetErrorView {
    StyleSheetErrorView {
        file: error.location.file,
        line: error.location.line,
        column: error.location.column,
        message: error_text(error),
    }
}

/// Whether what parsing returned is what was to be expected, with `sheet`
/// and `errors` on record and the definitions `registry` registered after it.
pub open spec fn sheet_agrees(
    outcome: Flow<Result<(), ParseError>>,
    expected: FlowView<SheetRead>,
    sheet: SheetView,
    errors: Seq<ParseErrorView>,
    registry: Seq<PropertyDefinitionView>,
) -> bool {
    match (outcome, expected) {
        (Flow::Done(result), FlowView::Done(read)) => {
            &&& sheet == read.sheet
            &&& registry == read.registry
            &&& match (result, read.result) {
                (Ok(_), Ok(_)) => true,
                (Err(error), Err(failure)) => error.deep_view() == failure_error(failure, errors),
                _ => false,
            }
        },
        (Flow::Need(request), FlowView::Need(wanted)) => request.deep_view() == wanted,
        _ => false,
    }
}

/// A copy of a list of rules.
pub fn clone_rules(list: &Vec<StyleRule>) -> (copy: Vec<StyleRule>)
    ensures
        copy.deep_view() == list.deep_view(),
{
    let mut copy: Vec<StyleRule> = Vec::new();
    let mut i: usize = 0;
    while i < list.len()
        invariant
            i <= list.len(),
            copy.len() == i,
            forall|k: int| 0 <= k < i ==> copy[k].deep_view() == list[k].deep_view(),
        decreases list.len() - i,
    {
        copy.push(list[i].clone());
        i += 1;
    }
    assert(copy.deep_view() =~= list.deep_view());
    copy
}

/// A copy of a list of errors.
pub fn clone_errors(list: &Vec<ParseError>) -> (copy: Vec<ParseError>)
    ensures
        copy.deep_view() == list.deep_view(),
        flaws(copy@) == flaws(list@),
{
    let mut copy: Vec<ParseError> = Vec::new();
    let mut i: usize = 0;
    while i < list.len()
        invariant
            i <= list.len(),
            copy.len() == i,
            forall|k: int| 0 <= k < i ==> copy[k].deep_view() == list[k].deep_view(),
        decreases list.len() - i,
    {
        copy.push(list[i].clone());
        i += 1;
    }
    assert(copy.deep_view() =~= list.deep_view());
    assert(flaws(copy@) =~= flaws(list@));
    copy
}

impl StyleSheet {
    /// What the stylesheet has on record.
    pub open spec fn record(&self) -> SheetView {
        SheetView { rules: self.rules.deep_view(), errors: flaws(self.errors@) }
    }

    /// The stylesheet without rules and errors.
    pub fn new() -> (sheet: StyleSheet)
        ensures
            sheet.record() == (SheetView { rules: Seq::empty(), errors: Seq::empty() }),
            sheet.root_path@ == Seq::<char>::empty(),
    {
        let sheet = StyleSheet { rules: Vec::new(), errors: Vec::new(), root_path: String::new() };
        assert(sheet.rules.deep_view() =~= Seq::empty());
        assert(flaws(sheet.errors@) =~= Seq::empty());
        sheet
    }

    /// Sets the directory in which imports are looked for.
    pub fn set_root_path(&mut self, path: &str)
        ensures
            final(self).root_path@ == path@,
            final(self).rules == old(self).rules,
            final(self).errors == old(self).errors,
    {
        self.root_path = owned(path);
    }

    /// A copy of the rules.
    pub fn rules(&self) -> (rules: Vec<StyleRule>)
        ensures
            rules.deep_view() == self.rules.deep_view(),
    {
        clone_rules(&self.rules)
    }

    /// The errors that are on record, each with its place and its text.
    pub fn errors(&self) -> (errors: Vec<StyleSheetError>)
        ensures
            errors.len() == self.errors.len(),
            forall|i: int|
                0 <= i < errors.len() ==> (#[trigger] errors[i]).deep_view() == reported(
                    self.errors[i].deep_view(),
                ),
    {
        let mut errors: Vec<StyleSheetError> = Vec::new();
        let mut i: usize = 0;
        while i < self.errors.len()
            invariant
                i <= self.errors.len(),
                errors.len() == i,
                forall|k: int|
                    0 <= k < i ==> (#[trigger] errors[k]).deep_view() == reported(
                        self.errors[k].deep_view(),
                    ),
            decreases self.errors.len() - i,
        {
            let error = &self.errors[i];
            errors.push(
                StyleSheetError {
                    file: error.location.file.clone(),
                    line: error.location.line,
                    column: error.location.column,
                    message: error.to_string(),
                },
            );
            i += 1;
        }
        errors
    }

    /// Puts what a text gave on record and says whether the text was parsed
    /// well.
    fn finish(&mut self, rules: Vec<StyleRule>, errors: Vec<ParseError>, origin: &str) -> (result:
        Result<(), ParseError>)
        ensures
            ({
                let read = finished_sheet(
                    old(self).record(),
                    SheetView { rules: rules.deep_view(), errors: flaws(errors@) },
                    Seq::empty(),
                    origin@,
                );
                &&& final(self).record() == read.sheet
                &&& match (result, read.result) {
                    (Ok(_), Ok(_)) => true,
                    (Err(error), Err(failure)) => error.deep_view() == failure_error(
                        failure,
                        final(self).errors.deep_view(),
                    ),
                    _ => false,
                }
            }),
    {
        let mut errors = errors;
        let ghost first = flaws(self.errors@);
        let ghost second = flaws(errors@);
        extend_rules(&mut self.rules, rules);
        self.errors.append(&mut errors);
        proof {
            assert(flaws(self.errors@) =~= first + second);
        }
        if self.errors.len() == 0 {
            Ok(())
        } else {
            let message = if self.errors.len() == 1 {
                self.errors[0].message.clone()
            } else {
                let mut message = owned("Multiple errors:\n");
                let mut i: usize = 0;
                while i < self.errors.len()
                    invariant
                        i <= self.errors.len(),
                        message@ == "Multiple errors:\n"@ + error_lines(
                            self.errors.deep_view(),
                            i as int,
                        ),
                    decreases self.errors.len() - i,
                {
                    let ghost before = message@;
                    message.append(self.errors[i].to_string().as_str());
                    message.append("\n");
                    proof {
                        let lines = error_lines(self.errors.deep_view(), i as int);
                        let line = error_text(self.errors.deep_view()[i as int]) + "\n"@;
                        assert(message@ =~= "Multiple errors:\n"@ + (lines + line));
                        assert(error_lines(self.errors.deep_view(), i as int + 1) =~= lines + line);
                    }
                    i += 1;
                }
                message
            };
            Err(
                ParseError {
                    kind: ParseErrorKind::StyleSheetParseError,
                    message,
                    location: SourceLocation::from_file(origin),
                },
            )
        }
    }

    /// Parses an input of an origin, with imports nested no deeper than
    /// `depth`. Where something is needed from outside, what was changed so
    /// far is of no use.
    fn parse_text(
        &mut self,
        input: &str,
        origin: &str,
        functions: &FunctionRegistry,
        properties: &mut PropertyRegistry,
        answers: &Answers,
        depth: usize,
    ) -> (outcome: Flow<Result<(), ParseError>>)
        ensures
            outcome matches Flow::Need(request) ==> unanswered(
                answers.deep_view(),
                request.deep_view(),
            ),
            sheet_agrees(
                outcome,
                sheet_at(
                    input@,
                    origin@,
                    functions.deep_view(),
                    old(properties).deep_view(),
                    answers.deep_view(),
                    old(self).record(),
                    depth as nat,
                ),
                final(self).record(),
                final(self).errors.deep_view(),
                final(properties).deep_view(),
            ),
        decreases depth,
    {
        let mut prefixed_text = owned("/*# sourceURL=");
        prefixed_text.append(origin);
        prefixed_text.append(" */\n");
        prefixed_text.append(input);
        let text = prefixed_text.as_str();
        let to = text.len();
        let ghost whole = sheet_at(
            input@,
            origin@,
            functions.deep_view(),
            properties.deep_view(),
            answers.deep_view(),
            self.record(),
            depth as nat,
        );
        let mut rules: Vec<StyleRule> = Vec::new();
        let mut errors: Vec<ParseError> = Vec::new();
        let mut at: usize = 0;
        proof {
            assert(rules.deep_view() =~= Seq::empty());
            assert(flaws(errors@) =~= Seq::empty());
        }
        loop
            invariant
                text@ == prefixed(origin@, input@),
                to == byte_length(text@),
                at <= to,
                whole == sheet_at(
                    input@,
                    origin@,
                    functions.deep_view(),
                    old(properties).deep_view(),
                    answers.deep_view(),
                    old(self).record(),
                    depth as nat,
                ),
                whole == sheet_items_at(
                    text@,
                    at as int,
                    to as int,
                    origin@,
                    functions.deep_view(),
                    properties.deep_view(),
                    answers.deep_view(),
                    self.record(),
                    SheetView { rules: rules.deep_view(), errors: flaws(errors@) },
                    depth as nat,
                ),
            decreases to - at,
        {
            match mark_token(text, at, to) {
                Some((Mark::Cdo, next)) => {
                    at = next;
                    continue ;
                },
                Some((Mark::Cdc, next)) => {
                    at = next;
                    continue ;
                },
                _ => {},
            }
            if token_end(text, at, to).is_none() {
                return Flow::Done(self.finish(rules, errors, origin));
            }
            let parser: TopLevelParser = RulesParser;
            let read = match text_token(text, at, to) {
                Some((TextKind::AtKeyword, name, after)) => match parser.at_rule(
                    text,
                    at,
                    to,
                    name.as_str(),
                    after,
                    functions,
                    properties,
                    answers,
                ) {
                    Flow::Need(request) => {
                        return Flow::Need(request);
                    },
                    Flow::Done(read) => read,
                },
                _ => match read_qualified_rule(text, at, to, false, functions, properties, answers) {
                    Flow::Need(request) => {
                        return Flow::Need(request);
                    },
                    Flow::Done(read) => Consumed {
                        result: match read.result {
                            Ok(rule) => Ok(ParseResult::Rule(rule)),
                            Err(error) => Err(error),
                        },
                        next: read.next,
                    },
                },
            };
            if !(at < read.next && read.next <= to) {
                return Flow::Done(
                    Err(
                        ParseError {
                            kind: ParseErrorKind::StyleSheetParseError,
                            message: owned("The parser made no progress"),
                            location: SourceLocation::from_file(origin),
                        },
                    ),
                );
            }
            match read.result {
                Err(error) => {
                    let ghost before = flaws(errors@);
                    errors.push(error);
                    proof {
                        assert(flaws(errors@) =~= before.push(shown(error)));
                    }
                },
                Ok(ParseResult::Rule(rule)) => {
                    extend_rules(&mut rules, StyleRule::from_parsed_rule(&rule));
                },
                Ok(ParseResult::PropertyDefinition(definition)) => {
                    properties.add_property_definition(definition);
                },
                Ok(ParseResult::Property(_)) => {},
                Ok(ParseResult::Import(name)) => {
                    match answers.file(name.as_str()) {
                        None => {
                            return Flow::Need(Request::File { name });
                        },
                        Some(answer) => match &answer.outcome {
                            Err(message) => {
                                return Flow::Done(
                                    Err(
                                        ParseError {
                                            kind: ParseErrorKind::FileError,
                                            message: message.clone(),
                                            location: SourceLocation::from_file(name.as_str()),
                                        },
                                    ),
                                );
                            },
                            Ok(file) => {
                                if depth == 0 {
                                    return Flow::Done(
                                        Err(
                                            ParseError {
                                                kind: ParseErrorKind::StyleSheetParseError,
                                                message: owned("Imports are nested too deeply"),
                                                location: SourceLocation::from_file(
                                                    file.origin.as_str(),
                                                ),
                                            },
                                        ),
                                    );
                                }
                                match self.parse_text(
                                    file.contents.as_str(),
                                    file.origin.as_str(),
                                    functions,
                                    properties,
                                    answers,
                                    depth - 1,
                                ) {
                                    Flow::Need(request) => {
                                        return Flow::Need(request);
                                    },
                                    Flow::Done(Err(error)) => {
                                        return Flow::Done(Err(error));
                                    },
                                    Flow::Done(Ok(_)) => {},
                                }
                            },
                        },
                    }
                },
            }
            at = read.next;
        }
    }

    /// Parses an input of an origin and puts what it gives on record: its
    /// rules, flattened, after those of its imports, and its errors. The
    /// properties that the input defines are registered. The input was parsed
    /// well if no error is on record at its end.
    ///
    /// Where the selectors of a prelude or the content of an import are
    /// needed and not among the answers, the request for them is returned,
    /// and neither the stylesheet nor the registry is changed.
    pub fn parse_string(
        &mut self,
        input: &str,
        origin: &str,
        functions: &FunctionRegistry,
        properties: &mut PropertyRegistry,
        answers: &Answers,
    ) -> (outcome: Flow<Result<(), ParseError>>)
        ensures
            outcome matches Flow::Need(request) ==> unanswered(
                answers.deep_view(),
                request.deep_view(),
            ),
            final(self).root_path == old(self).root_path,
            match outcome {
                Flow::Done(_) => sheet_agrees(
                    outcome,
                    sheet_at(
                        input@,
                        origin@,
                        functions.deep_view(),
                        old(properties).deep_view(),
                        answers.deep_view(),
                        old(self).record(),
                        IMPORT_DEPTH as nat,
                    ),
                    final(self).record(),
                    final(self).errors.deep_view(),
                    final(properties).deep_view(),
                ),
                Flow::Need(request) => {
                    &&& sheet_at(
                        input@,
                        origin@,
                        functions.deep_view(),
                        old(properties).deep_view(),
                        answers.deep_view(),
                        old(self).record(),
                        IMPORT_DEPTH as nat,
                    ) == FlowView::<SheetRead>::Need(request.deep_view())
                    &&& *final(self) == *old(self)
                    &&& *final(properties) == *old(properties)
                },
            },
    {
        let mut working = StyleSheet {
            rules: clone_rules(&self.rules),
            errors: clone_errors(&self.errors),
            root_path: String::new(),
        };
        let mut registry = properties.clone();
        match working.parse_text(input, origin, functions, &mut registry, answers, IMPORT_DEPTH) {
            Flow::Need(request) => Flow::Need(request),
            Flow::Done(result) => {
                self.rules = working.rules;
                self.errors = working.errors;
                *properties = registry;
                Flow::Done(result)
            },
        }
    }
}

} // verus!

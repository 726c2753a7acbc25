//! Errors and where in the source they arose.

use vstd::prelude::*;
use crate::text::{decimal, decimal_text, owned};

verus! {

/// What went wrong.
#[derive(Debug, Clone, Copy, PartialEq, Eq, Structural)]
pub enum ParseErrorKind {
    Unspecified,
    Unimplemented,
    UnexpectedEndOfInput,
    Unknown,
    UnknownProperty,
    UnexpectedToken,
    InvalidSelectors,
    InvalidPropertySyntax,
    InvalidPropertyValue,
    UnknownFunction,
    InvalidPropertyDefinition,
    PropertyValueDoesNotMatchSyntax,
    UnsupportedAtRule,
    InvalidAtRule,
    InvalidQualifiedRule,
    FileError,
    StyleSheetParseError,
}

/// A place in a source text.
#[derive(Debug, PartialEq, Eq)]
pub struct SourceLocation {
    pub file: String,
    pub line: u32,
    pub column: u32,
}

/// The mathematical value of a [`SourceLocation`].
pub struct SourceLocationView {
    pub file: Seq<char>,
    pub line: u32,
    pub column: u32,
}

impl DeepView for SourceLocation {
    type V = SourceLocationView;

    open spec fn deep_view(&self) -> SourceLocationView {
        SourceLocationView { file: self.file@, line: self.line, column: self.column }
    }
}

impl Clone for SourceLocation {
    fn clone(&self) -> (copy: SourceLocation)
        ensures
            copy.deep_view() == self.deep_view(),
    {
        SourceLocation { file: self.file.clone(), line: self.line, column: self.column }
    }
}

impl SourceLocation {
    /// The place at `line` and `column` of `file`.
    pub fn from_file_location(file: String, line: u32, column: u32) -> (location: SourceLocation)
        ensures
            location.deep_view() == (SourceLocationView { file: file@, line, column }),
    {
        SourceLocation { file, line, column }
    }

    /// The start of `file`.
    pub fn from_file(file: &str) -> (location: SourceLocation)
        ensures
            location.deep_view() == (SourceLocationView { file: file@, line: 0, column: 0 }),
    {
        SourceLocation { file: owned(file), line: 0, column: 0 }
    }
}

/// An error: its kind, a text for people, and the place where it arose.
#[derive(Debug, PartialEq, Eq)]
pub struct ParseError {
    pub kind: ParseErrorKind,
    pub message: String,
    pub location: SourceLocation,
}

/// The mathematical value of a [`ParseError`].
pub struct ParseErrorView {
    pub kind: ParseErrorKind,
    pub message: Seq<char>,
    pub location: SourceLocationView,
}

impl DeepView for ParseError {
    type V = ParseErrorView;

    open spec fn deep_view(&self) -> ParseErrorView {
        ParseErrorView {
            kind: self.kind,
            message: self.message@,
            location: self.location.deep_view(),
        }
    }
}

impl Clone for ParseError {
    fn clone(&self) -> (copy: ParseError)
        ensures
            copy.deep_view() == self.deep_view(),
    {
        ParseError {
            kind: self.kind,
            message: self.message.clone(),
            location: self.location.clone(),
        }
    }
}

/// How the kind of an error is put into words. Where the words end with a
/// colon and a blank, the message of the error follows them.
pub open spec fn kind_text(kind: ParseErrorKind) -> Seq<char> {
    match kind {
        ParseErrorKind::Unspecified => "Unspecified error"@,
        ParseErrorKind::Unimplemented => "Feature is not yet implemented"@,
        ParseErrorKind::UnexpectedEndOfInput => "Unexpected end of input"@,
        ParseErrorKind::Unknown => "Unknown error: "@,
        ParseErrorKind::UnknownProperty => "Unknown Property: "@,
        ParseErrorKind::UnexpectedToken => "Unexpected Token: "@,
        ParseErrorKind::InvalidSelectors => "Invalid Selectors: "@,
        ParseErrorKind::InvalidPropertySyntax => "Invalid property syntax: "@,
        ParseErrorKind::InvalidPropertyValue => "Invalid property value: "@,
        ParseErrorKind::UnknownFunction => "Unknown function: "@,
        ParseErrorKind::InvalidPropertyDefinition => "Invalid property definition: "@,
        ParseErrorKind::PropertyValueDoesNotMatchSyntax => "Property value does not match syntax: "@,
        ParseErrorKind::UnsupportedAtRule => "Unsupported @-rule: "@,
        ParseErrorKind::InvalidAtRule => "Invalid @-rule: "@,
        ParseErrorKind::InvalidQualifiedRule => "Invalid qualified rule"@,
        ParseErrorKind::FileError => "IO Error: "@,
        ParseErrorKind::StyleSheetParseError => "Stylesheet failed to parse: "@,
    }
}

/// Whether the message of an error of the kind is part of its text.
pub open spec fn shows_message(kind: ParseErrorKind) -> bool {
    !(kind is Unspecified || kind is Unimplemented || kind is UnexpectedEndOfInput
        || kind is InvalidQualifiedRule)
}

/// The text of an error: where it arose, what went wrong, and for most kinds
/// the message.
pub open spec fn error_text(error: ParseErrorView) -> Seq<char> {
    "In file \""@ + error.location.file + "\" at line "@ + decimal_text(
        error.location.line as nat,
    ) + " column "@ + decimal_text(error.location.column as nat) + ": "@ + kind_text(error.kind)
        + (if shows_message(error.kind) {
        error.message
    } else {
        Seq::empty()
    })
}

/// How the kind of an error is put into words.
pub fn kind_words(kind: ParseErrorKind) -> (words: &'static str)
    ensures
        words@ == kind_text(kind),
{
    match kind {
        ParseErrorKind::Unspecified => "Unspecified error",
        ParseErrorKind::Unimplemented => "Feature is not yet implemented",
        ParseErrorKind::UnexpectedEndOfInput => "Unexpected end of input",
        ParseErrorKind::Unknown => "Unknown error: ",
        ParseErrorKind::UnknownProperty => "Unknown Property: ",
        ParseErrorKind::UnexpectedToken => "Unexpected Token: ",
        ParseErrorKind::InvalidSelectors => "Invalid Selectors: ",
        ParseErrorKind::InvalidPropertySyntax => "Invalid property syntax: ",
        ParseErrorKind::InvalidPropertyValue => "Invalid property value: ",
        ParseErrorKind::UnknownFunction => "Unknown function: ",
        ParseErrorKind::InvalidPropertyDefinition => "Invalid property definition: ",
        ParseErrorKind::PropertyValueDoesNotMatchSyntax => "Property value does not match syntax: ",
        ParseErrorKind::UnsupportedAtRule => "Unsupported @-rule: ",
        ParseErrorKind::InvalidAtRule => "Invalid @-rule: ",
        ParseErrorKind::InvalidQualifiedRule => "Invalid qualified rule",
        ParseErrorKind::FileError => "IO Error: ",
        ParseErrorKind::StyleSheetParseError => "Stylesheet failed to parse: ",
    }
}

impl ParseError {
    /// The text of the error.
    pub fn to_string(&self) -> (text: String)
        ensures
            text@ == error_text(self.deep_view()),
    {
        let mut text = owned("In file \"");
        text.append(self.location.file.as_str());
        text.append("\" at line ");
        text.append(decimal(self.location.line).as_str());
        text.append(" column ");
        text.append(decimal(self.location.column).as_str());
        text.append(": ");
        text.append(kind_words(self.kind));
        match self.kind {
            ParseErrorKind::Unspecified => {},
            ParseErrorKind::Unimplemented => {},
            ParseErrorKind::UnexpectedEndOfInput => {},
            ParseErrorKind::InvalidQualifiedRule => {},
            _ => {
                text.append(self.message.as_str());
            },
        }
        proof {
            assert(text@ =~= error_text(self.deep_view()));
        }
        text
    }

    /// An error of `kind` at `location` that says `message`.
    pub fn new(kind: ParseErrorKind, message: &str, location: SourceLocation) -> (error:
        ParseError)
        ensures
            error.deep_view() == (ParseErrorView {
                kind,
                message: message@,
                location: location.deep_view(),
            }),
    {
        ParseError { kind, message: owned(message), location }
    }
}

} // verus!

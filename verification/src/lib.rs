//! A stylesheet engine: it reads a CSS-like text and yields flat style rules
//! whose declarations are typed and checked against registered property
//! grammars.
//!
//! The parts, leaves first:
//!
//! - [`tokens`]: the token source. The tokenizer and the color parser are
//!   those of `cssparser` and `cssparser_color`; what they find is held as
//!   plain values, and a place in a text is a byte offset.
//! - [`value`], [`number`]: values, colors and dimensions. Numbers are held
//!   as the bit patterns of single-precision numbers.
//! - [`syntax`], [`grammar`]: the syntax of a property, the reading of a
//!   syntax descriptor, and the check of values against a syntax.
//! - [`values`], [`function`]: the value parser and the functions that can
//!   stand in the place of a value.
//! - [`selector`], [`selectorparser`]: selectors, how nested selectors are
//!   combined, and how the components that a selector library yields become
//!   selectors.
//! - [`property`]: property definitions and their registry.
//! - [`rulesparser`], [`definitionparser`], [`stylerule`]: rules, the block of
//!   `@property`, and the flattening of nested rules.
//! - [`stylesheet`]: the stylesheet, which parses a text from end to end.
//! - [`answers`]: what parsing needs from outside, and how it is handed in.
//! - [`details`]: errors and their places.
//!
//! Parsing never reaches outside by itself. A text is parsed with
//! [`stylesheet::StyleSheet::parse_string`]; where that returns a request, its
//! caller adds the answer to the [`answers::Answers`] and calls it again with
//! the same text.

pub mod answers;
pub mod definitionparser;
pub mod details;
pub mod function;
pub mod grammar;
pub mod number;
pub mod property;
pub mod rulesparser;
pub mod selector;
pub mod selectorparser;
pub mod stylerule;
pub mod stylesheet;
pub mod syntax;
pub mod text;
pub mod tokens;
pub mod value;
pub mod values;

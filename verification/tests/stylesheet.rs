use selectors::attr::AttrSelectorOperator;
use selectors::parser::{Combinator, Component};
use style_rules::answers::{Answers, LoadedFile, Request};
use style_rules::details::{ParseError, ParseErrorKind};
use style_rules::function::FunctionRegistry;
use style_rules::property::{Property, PropertyDefinition, PropertyRegistry};
use style_rules::rulesparser::Flow;
use style_rules::selector::{
    AttributeOperator, Selector, SelectorKind, SelectorPart, SelectorValue,
};
use style_rules::selectorparser::{ParseRelative, SelectorComponent};
use style_rules::stylerule::StyleRule;
use style_rules::stylesheet::StyleSheet;
use style_rules::syntax::ParsedPropertySyntax;
use style_rules::value::{Color, Dimension, Unit, Value};

#[derive(Eq, PartialEq, Clone, Default, Debug)]
struct Identifier(String);

impl precomputed_hash::PrecomputedHash for Identifier {
    fn precomputed_hash(&self) -> u32 {
        0
    }
}

impl cssparser::ToCss for Identifier {
    fn to_css<W>(&self, dest: &mut W) -> std::fmt::Result
    where
        W: std::fmt::Write,
    {
        dest.write_str(&self.0)
    }
}

impl<'a> From<&'a str> for Identifier {
    fn from(value: &'a str) -> Self {
        Identifier(value.to_string())
    }
}

impl std::borrow::Borrow<String> for Identifier {
    fn borrow(&self) -> &String {
        &self.0
    }
}

#[derive(Eq, PartialEq, Clone, Debug)]
struct PseudoElement(String);

impl selectors::parser::PseudoElement for PseudoElement {}

impl cssparser::ToCss for PseudoElement {
    fn to_css<W>(&self, dest: &mut W) -> std::fmt::Result
    where
        W: std::fmt::Write,
    {
        dest.write_str(self.0.as_str())
    }
}

#[derive(Eq, PartialEq, Clone, Debug)]
struct PseudoClass(String);

impl selectors::parser::NonTSPseudoClass for PseudoClass {
    fn is_active_or_hover(&self) -> bool {
        false
    }

    fn is_user_action_state(&self) -> bool {
        false
    }
}

impl cssparser::ToCss for PseudoClass {
    fn to_css<W>(&self, dest: &mut W) -> std::fmt::Result
    where
        W: std::fmt::Write,
    {
        dest.write_str(self.0.as_str())
    }
}

#[derive(Clone, Debug, PartialEq)]
struct Dialect;

impl selectors::SelectorImpl for Dialect {
    type PseudoElement = PseudoElement;
    type NonTSPseudoClass = PseudoClass;
    type Identifier = Identifier;
    type AttrValue = Identifier;
    type LocalName = Identifier;
    type NamespacePrefix = Identifier;
    type NamespaceUrl = Identifier;
    type BorrowedLocalName = String;
    type BorrowedNamespaceUrl = String;
    type ExtraMatchingData<'a> = ();
}

struct Reader;

impl<'i> selectors::Parser<'i> for Reader {
    type Impl = Dialect;
    type Error = selectors::parser::SelectorParseErrorKind;

    fn parse_non_ts_pseudo_class(
        &self,
        name: cssparser::CowRcStr<'i>,
    ) -> Result<PseudoClass, cssparser::ParseError<Self::Error>> {
        Ok(PseudoClass(name.to_string()))
    }

    fn parse_pseudo_element(
        &self,
        name: cssparser::CowRcStr<'i>,
    ) -> Result<PseudoElement, cssparser::ParseError<Self::Error>> {
        Ok(PseudoElement(name.to_string()))
    }

    fn parse_parent_selector(&self) -> bool {
        true
    }
}

fn component(part: &selectors::parser::Component<Dialect>) -> SelectorComponent {
    match part {
        Component::LocalName(local) => SelectorComponent::LocalName(local.name.0.clone()),
        Component::ID(name) => SelectorComponent::Id(name.0.clone()),
        Component::Class(name) => SelectorComponent::Class(name.0.clone()),
        Component::NonTSPseudoClass(class) => SelectorComponent::PseudoClass(class.0.clone()),
        Component::ParentSelector => SelectorComponent::ParentSelector,
        Component::Root => SelectorComponent::Root,
        Component::ExplicitUniversalType => SelectorComponent::ExplicitUniversalType,
        Component::AttributeInNoNamespaceExists { local_name, .. } => {
            SelectorComponent::AttributeExists { name: local_name.0.clone() }
        }
        Component::AttributeInNoNamespace { local_name, operator, value, .. } => {
            SelectorComponent::Attribute {
                name: local_name.0.clone(),
                operator: match operator {
                    AttrSelectorOperator::Equal => AttributeOperator::Equals,
                    AttrSelectorOperator::Includes => AttributeOperator::Includes,
                    AttrSelectorOperator::Prefix => AttributeOperator::Prefixed,
                    AttrSelectorOperator::Suffix => AttributeOperator::Suffixed,
                    AttrSelectorOperator::Substring => AttributeOperator::Substring,
                    AttrSelectorOperator::DashMatch => AttributeOperator::DashMatch,
                },
                value: value.0.clone(),
            }
        }
        Component::Combinator(Combinator::Descendant) => SelectorComponent::DescendantCombinator,
        Component::Combinator(Combinator::Child) => SelectorComponent::ChildCombinator,
        Component::Combinator(_) => SelectorComponent::OtherCombinator,
        _ => SelectorComponent::Other,
    }
}

fn read_selectors(
    prelude: &str,
    relative: ParseRelative,
) -> Result<Vec<Vec<SelectorComponent>>, String> {
    let mut input = cssparser::Parser::new(prelude);
    let mode = match relative {
        ParseRelative::No => selectors::parser::ParseRelative::No,
        ParseRelative::Nested => selectors::parser::ParseRelative::ForNesting,
    };
    match selectors::SelectorList::parse(&Reader, &mut input, mode) {
        Ok(list) => Ok(list
            .slice()
            .iter()
            .map(|selector| selector.iter_raw_parse_order_from(0).map(component).collect())
            .collect()),
        Err(error) => Err(format!("{:?}", error)),
    }
}

struct Session {
    functions: FunctionRegistry,
    properties: PropertyRegistry,
    files: Vec<(String, String)>,
    requests: usize,
}

impl Session {
    fn new() -> Session {
        Session {
            functions: FunctionRegistry::new(),
            properties: PropertyRegistry::new(),
            files: Vec::new(),
            requests: 0,
        }
    }

    fn define(&mut self, name: &str, syntax: &str) {
        let definition =
            PropertyDefinition::from_name_syntax(name, syntax, "Test Input", 0, 0).unwrap();
        self.properties.add_property_definition(definition);
    }

    fn parse(&mut self, sheet: &mut StyleSheet, input: &str, origin: &str) -> Result<(), ParseError> {
        let mut answers = Answers::new();
        loop {
            match sheet.parse_string(input, origin, &self.functions, &mut self.properties, &answers)
            {
                Flow::Done(result) => return result,
                Flow::Need(Request::Selectors { prelude, relative }) => {
                    self.requests += 1;
                    let outcome = read_selectors(&prelude, relative);
                    answers.add_selectors(&prelude, relative, outcome);
                }
                Flow::Need(Request::File { name }) => {
                    self.requests += 1;
                    let outcome = match self.files.iter().find(|file| file.0 == name) {
                        Some(file) => {
                            Ok(LoadedFile { origin: file.0.clone(), contents: file.1.clone() })
                        }
                        None => Err(String::from("No such file")),
                    };
                    answers.add_file(&name, outcome);
                }
                Flow::Need(Request::Function { name, arguments }) => {
                    self.requests += 1;
                    let outcome = match arguments.trim().parse::<u8>() {
                        Ok(shade) => Ok(vec![Value::from(Color::rgba(shade, shade, shade, 255))]),
                        Err(_) => Err(String::from("Expected a shade")),
                    };
                    answers.add_function(&name, &arguments, outcome);
                }
            }
        }
    }
}

fn setup() -> Session {
    let mut session = Session::new();
    session.define("test", "<color>");
    session
}

fn type_selector(name: &str) -> Selector {
    Selector::from_parts(&[SelectorPart::new_with_value(SelectorKind::Type, Value::from(name))])
}

#[test]
fn minimal() {
    let mut session = Session::new();
    let mut stylesheet = StyleSheet::new();

    let result = session.parse(&mut stylesheet, "test { }", "Test Input");
    assert!(result.is_ok());

    assert_eq!(
        stylesheet.rules,
        Vec::from([StyleRule { selector: type_selector("test"), properties: Vec::new() }])
    );
    assert!(stylesheet.errors.is_empty());
}

#[test]
fn property_registration() {
    let mut session = setup();

    let mut stylesheet = StyleSheet::new();
    let property_definition = session.properties.property_definition("test").unwrap();

    let result = session.parse(&mut stylesheet, "example { test: red; }", "Test Input");
    assert!(result.is_ok(), "Parsing stylesheet failed with error: {:?}", result.err().unwrap());

    assert_eq!(
        stylesheet.rules,
        vec![StyleRule {
            selector: type_selector("example"),
            properties: vec![Property {
                name: String::from("test"),
                definition: property_definition.clone(),
                values: Vec::from([Value::from(Color::rgba(255, 0, 0, 255))])
            }],
        }]
    );
}

#[test]
fn custom_properties() {
    let mut session = setup();

    let mut stylesheet = StyleSheet::new();

    let result = session.parse(
        &mut stylesheet,
        ":root {
            --test-color: #ff0000;
            --test-length: 24px;
        }

        example {
            test: var(--test-color);
        }",
        "Test Input",
    );
    assert!(result.is_ok(), "Parsing stylesheet failed with error: {:?}", result.err().unwrap());

    let color_definition = session.properties.property_definition("--test-color").unwrap();
    assert_eq!(
        color_definition,
        PropertyDefinition::from_name_syntax_initial(
            "--test-color",
            "*",
            &[Value::from(Color::rgba(255, 0, 0, 255))],
            "Test Input",
            0,
            0
        )
        .unwrap()
    );

    let length_definition = session.properties.property_definition("--test-length").unwrap();
    assert_eq!(
        length_definition,
        PropertyDefinition::from_name_syntax_initial(
            "--test-length",
            "*",
            &[Value::from(Dimension { value: 24.0f32.to_bits(), unit: Unit::Px })],
            "Test Input",
            0,
            0
        )
        .unwrap()
    );
    assert_eq!(color_definition.syntax, ParsedPropertySyntax::Universal);

    assert_eq!(
        stylesheet.rules,
        vec![
            StyleRule {
                selector: Selector::from_parts(&[SelectorPart::new_with_empty(
                    SelectorKind::DocumentRoot
                ),]),
                properties: Vec::new(),
            },
            StyleRule {
                selector: type_selector("example"),
                properties: vec![Property {
                    name: String::from("test"),
                    definition: session.properties.property_definition("test").unwrap(),
                    values: vec![Value::from(Color::rgba(255, 0, 0, 255))]
                }]
            }
        ]
    );
}

#[test]
fn nested_block() {
    let mut session = setup();

    let mut stylesheet = StyleSheet::new();
    let property_definition = session.properties.property_definition("test").unwrap();

    let result = session.parse(
        &mut stylesheet,
        "example {
            test: red;

            nested {
                test: blue;
            }
        }",
        "Test Input",
    );
    assert!(result.is_ok(), "Parsing stylesheet failed with error: {:?}", result.err().unwrap());

    let expected = Vec::from([
        StyleRule {
            selector: type_selector("example"),
            properties: Vec::from([Property {
                name: String::from("test"),
                definition: property_definition.clone(),
                values: Vec::from([Value::from(Color::rgba(255, 0, 0, 255))]),
            }]),
        },
        StyleRule {
            selector: Selector::from_parts(&[
                SelectorPart::new_with_value(SelectorKind::Type, Value::from("example")),
                SelectorPart::new_with_empty(SelectorKind::DescendantCombinator),
                SelectorPart::new_with_value(SelectorKind::Type, Value::from("nested")),
            ]),
            properties: Vec::from([Property {
                name: String::from("test"),
                definition: property_definition.clone(),
                values: Vec::from([Value::from(Color::rgba(0, 0, 255, 255))]),
            }]),
        },
    ]);

    let rules = &stylesheet.rules;
    assert_eq!(rules.len(), expected.len());
    assert_eq!(rules, &expected);

    stylesheet = StyleSheet::new();
    let result = session.parse(
        &mut stylesheet,
        "example {
        test: red;

        & nested {
            test: blue;
        }
    }",
        "Test Input",
    );
    assert!(result.is_ok(), "Parsing stylesheet failed with error: {:?}", result.err().unwrap());

    let rules = &stylesheet.rules;
    assert_eq!(rules.len(), expected.len());
    assert_eq!(rules, &expected);
}

const COMPLEX: &str = "
@property width { syntax: \"<length>\"; inherits: false; }
@property height { syntax: \"<length>\"; inherits: false; }
@property color { syntax: \"<color>\"; inherits: true; }
@property padding { syntax: \"<length>{1,4}\"; inherits: false; }
@property padding-top { syntax: \"<length>\"; inherits: false; }
@property background-image { syntax: \"<url>\"; inherits: false; }

button, toolbutton {
    width: 32px;
    height: 32px;
    color: red;
    padding: 4px 4px 4px 4px;
    padding-top: 2rem;
    background-image: url(\"background.svg\");

    :hovered& {
        color: blue;
    }

    [display=\"something\"]& {
        color: green;
    }
}
";

#[test]
fn complex() {
    let mut session = Session::new();
    let mut stylesheet = StyleSheet::new();
    stylesheet.set_root_path("/tests/data");

    let result = session.parse(&mut stylesheet, COMPLEX, "complex.css");
    assert!(result.is_ok(), "Parsing stylesheet failed with error: {:?}", result.err().unwrap());

    let rules = &stylesheet.rules;
    assert_eq!(rules.len(), 6);

    let attribute = || SelectorPart {
        kind: SelectorKind::Attribute,
        value: SelectorValue::Attribute {
            name: String::from("display"),
            operator: AttributeOperator::Equals,
            value: Value::from("something"),
        },
    };
    let expected_selectors = [
        type_selector("button"),
        Selector::from_parts(&[
            SelectorPart::new_with_value(SelectorKind::PseudoClass, Value::from("hovered")),
            SelectorPart::new_with_value(SelectorKind::Type, Value::from("button")),
        ]),
        Selector::from_parts(&[
            attribute(),
            SelectorPart::new_with_value(SelectorKind::Type, Value::from("button")),
        ]),
        type_selector("toolbutton"),
        Selector::from_parts(&[
            SelectorPart::new_with_value(SelectorKind::PseudoClass, Value::from("hovered")),
            SelectorPart::new_with_value(SelectorKind::Type, Value::from("toolbutton")),
        ]),
        Selector::from_parts(&[
            attribute(),
            SelectorPart::new_with_value(SelectorKind::Type, Value::from("toolbutton")),
        ]),
    ];

    let selectors: Vec<Selector> = rules.iter().map(|item| item.selector.clone()).collect();
    assert_eq!(selectors, expected_selectors);

    let definition = |name: &str| session.properties.property_definition(name).unwrap();
    let expected_properties = vec![
        Property {
            name: String::from("width"),
            definition: definition("width"),
            values: vec![Value::from(Dimension { value: 32.0f32.to_bits(), unit: Unit::Px })],
        },
        Property {
            name: String::from("height"),
            definition: definition("height"),
            values: vec![Value::from(Dimension { value: 32.0f32.to_bits(), unit: Unit::Px })],
        },
        Property {
            name: String::from("color"),
            definition: definition("color"),
            values: vec![Value::from(Color::rgba(255, 0, 0, 255))],
        },
        Property {
            name: String::from("padding"),
            definition: definition("padding"),
            values: vec![
                Value::from(Dimension { value: 4.0f32.to_bits(), unit: Unit::Px }),
                Value::from(Dimension { value: 4.0f32.to_bits(), unit: Unit::Px }),
                Value::from(Dimension { value: 4.0f32.to_bits(), unit: Unit::Px }),
                Value::from(Dimension { value: 4.0f32.to_bits(), unit: Unit::Px }),
            ],
        },
        Property {
            name: String::from("padding-top"),
            definition: definition("padding-top"),
            values: vec![Value::from(Dimension { value: 2.0f32.to_bits(), unit: Unit::Rem })],
        },
        Property {
            name: String::from("background-image"),
            definition: definition("background-image"),
            values: vec![Value::new_url("background.svg")],
        },
    ];
    let properties: Vec<Property> = rules.first().unwrap().properties.clone();
    assert_eq!(properties, expected_properties);
    assert!(definition("color").inherit);
}

#[test]
fn import() {
    let mut session = Session::new();
    session.files.push((
        String::from("base.css"),
        String::from("@property color { syntax: \"<color>\"; } a { color: red; } b { }"),
    ));
    let mut stylesheet = StyleSheet::new();
    stylesheet.set_root_path("/tests/data");

    let result = session.parse(
        &mut stylesheet,
        "@import url(\"base.css\");\nc { color: blue; }\nd { }",
        "import.css",
    );
    assert!(result.is_ok(), "Parsing stylesheet failed with error: {:?}", result.err().unwrap());

    let rules = stylesheet.rules;
    assert_eq!(rules.len(), 4);
    let selectors: Vec<Selector> = rules.iter().map(|item| item.selector.clone()).collect();
    assert_eq!(
        selectors,
        vec![type_selector("a"), type_selector("b"), type_selector("c"), type_selector("d")]
    );
}

#[test]
fn import_of_a_missing_file_ends_the_parsing() {
    let mut session = Session::new();
    let mut stylesheet = StyleSheet::new();
    let result =
        session.parse(&mut stylesheet, "a { }\n@import \"missing.css\";\nb { }", "import.css");
    let error = result.err().unwrap();
    assert_eq!(error.kind, ParseErrorKind::FileError);
    assert_eq!(error.message, "No such file");
    assert_eq!(error.location.file, "missing.css");
    assert!(stylesheet.rules.is_empty());
    assert!(stylesheet.errors.is_empty());
}

#[test]
fn nested_import_is_an_error() {
    let mut session = Session::new();
    let mut stylesheet = StyleSheet::new();
    let result = session.parse(&mut stylesheet, "a { @import \"x.css\"; }", "Test Input");
    assert_eq!(result.err().unwrap().kind, ParseErrorKind::StyleSheetParseError);
    assert!(stylesheet.rules.is_empty());
    assert_eq!(stylesheet.errors.len(), 1);
    assert_eq!(stylesheet.errors[0].kind, ParseErrorKind::UnsupportedAtRule);
}

#[test]
fn syntax_mismatch() {
    let mut session = Session::new();
    session.define("padding", "<length>+");
    let mut stylesheet = StyleSheet::new();
    let result = session.parse(&mut stylesheet, "a { padding: red; }", "T");
    assert_eq!(result.err().unwrap().message, stylesheet.errors[0].message);
    assert!(stylesheet.rules.is_empty());
    assert_eq!(stylesheet.errors.len(), 1);
    let error = &stylesheet.errors[0];
    assert_eq!(error.kind, ParseErrorKind::PropertyValueDoesNotMatchSyntax);
    assert_eq!(error.location.file, "T");
    assert_eq!(error.location.line, 1);
    assert_eq!(error.location.column, 17);
}

#[test]
fn unknown_property_and_unsupported_at_rule() {
    let mut session = Session::new();
    let mut stylesheet = StyleSheet::new();
    let result = session.parse(&mut stylesheet, "a { nothing: 1px; }\n@media print { }\nb { }", "T");
    assert!(result.is_err());
    let kinds: Vec<ParseErrorKind> = stylesheet.errors.iter().map(|error| error.kind).collect();
    assert_eq!(kinds, vec![ParseErrorKind::UnknownProperty, ParseErrorKind::UnsupportedAtRule]);
    assert_eq!(stylesheet.rules.len(), 1);
    assert_eq!(stylesheet.rules[0].selector, type_selector("b"));
}

#[test]
fn invalid_selectors() {
    let mut session = Session::new();
    let mut stylesheet = StyleSheet::new();
    let result = session.parse(&mut stylesheet, "a > { }\nb { }", "T");
    assert!(result.is_err());
    assert_eq!(stylesheet.errors.len(), 1);
    assert_eq!(stylesheet.errors[0].kind, ParseErrorKind::InvalidSelectors);
    assert!(stylesheet.errors[0].message.contains("DanglingCombinator"));
    assert_eq!(stylesheet.rules.len(), 1);
}

#[test]
fn property_rule_defines_and_is_idempotent() {
    let mut session = setup();
    let first = session.properties.property_definition("test").unwrap();
    let mut stylesheet = StyleSheet::new();
    let result = session.parse(
        &mut stylesheet,
        "@property test { syntax: \"<length>\"; inherits: TRUE; initial-value: 3px; }
         @property gap { syntax: \"<length>\"; inherits: True; initial-value: 3px; }
         a { test: red; gap: var(gap); }",
        "T",
    );
    assert!(result.is_ok(), "{:?}", result);
    assert_eq!(session.properties.property_definition("test").unwrap(), first);
    let gap = session.properties.property_definition("gap").unwrap();
    assert!(gap.inherit);
    assert_eq!(gap.initial, vec![Value::from(Dimension { value: 3.0f32.to_bits(), unit: Unit::Px })]);
    assert_eq!(stylesheet.rules[0].properties[1].values, gap.initial);
}

#[test]
fn property_rule_without_syntax_is_invalid() {
    let mut session = Session::new();
    let mut stylesheet = StyleSheet::new();
    let result = session.parse(&mut stylesheet, "@property gap { inherits: true; }", "T");
    assert!(result.is_err());
    assert_eq!(stylesheet.errors[0].kind, ParseErrorKind::InvalidPropertyDefinition);
    assert!(session.properties.property_definition("gap").is_none());
}

#[test]
fn two_selectors_with_a_nested_rule() {
    let mut session = setup();
    let mut stylesheet = StyleSheet::new();
    let result = session.parse(&mut stylesheet, "a, b { inner { test: red; } }", "T");
    assert!(result.is_ok(), "{:?}", result);
    let selectors: Vec<Selector> =
        stylesheet.rules.iter().map(|item| item.selector.clone()).collect();
    let under = |name: &str| {
        Selector::from_parts(&[
            SelectorPart::new_with_value(SelectorKind::Type, Value::from(name)),
            SelectorPart::new_with_empty(SelectorKind::DescendantCombinator),
            SelectorPart::new_with_value(SelectorKind::Type, Value::from("inner")),
        ])
    };
    assert_eq!(selectors, vec![type_selector("a"), under("a"), type_selector("b"), under("b")]);
}

#[test]
fn a_request_leaves_everything_as_it_was() {
    let functions = FunctionRegistry::new();
    let mut properties = PropertyRegistry::new();
    let mut stylesheet = StyleSheet::new();
    let answers = Answers::new();
    let outcome =
        stylesheet.parse_string("--a: 1px; b { --c: 2px; }", "T", &functions, &mut properties, &answers);
    match outcome {
        Flow::Need(Request::Selectors { prelude, relative }) => {
            assert_eq!(prelude, "--a: 1px; b ");
            assert_eq!(relative, ParseRelative::No);
        }
        other => panic!("{:?}", other),
    }
    assert_eq!(properties, PropertyRegistry::new());
    assert_eq!(stylesheet, StyleSheet::new());
}

fn check_selector(input: &str, expected: Vec<Selector>, relative: ParseRelative) {
    let components = read_selectors(input, relative).unwrap();
    let parser = style_rules::selectorparser::SelectorParser;
    assert_eq!(parser.parse(&components, relative), expected)
}

fn check_selector_toplevel(input: &str, expected: Vec<Selector>) {
    check_selector(input, expected, ParseRelative::No);
}

fn check_selector_nested(input: &str, expected: Vec<Selector>) {
    check_selector(input, expected, ParseRelative::Nested);
}

fn value_part(kind: SelectorKind, value: &str) -> SelectorPart {
    SelectorPart::new_with_value(kind, Value::from(value))
}

fn bare_part(kind: SelectorKind) -> SelectorPart {
    SelectorPart::new_with_empty(kind)
}

#[test]
fn simple() {
    check_selector_toplevel(
        "type",
        vec![Selector::from_parts(&[value_part(SelectorKind::Type, "type")])],
    );
}

#[test]
fn descendant() {
    check_selector_toplevel(
        "type .class #id",
        vec![Selector::from_parts(&[
            value_part(SelectorKind::Type, "type"),
            bare_part(SelectorKind::DescendantCombinator),
            value_part(SelectorKind::Class, "class"),
            bare_part(SelectorKind::DescendantCombinator),
            value_part(SelectorKind::Id, "id"),
        ])],
    );
}

#[test]
fn child() {
    check_selector_toplevel(
        "type > .class",
        vec![Selector::from_parts(&[
            value_part(SelectorKind::Type, "type"),
            bare_part(SelectorKind::ChildCombinator),
            value_part(SelectorKind::Class, "class"),
        ])],
    );
}

#[test]
fn pseudoclass() {
    check_selector_toplevel(
        "type:hovered",
        vec![Selector::from_parts(&[
            value_part(SelectorKind::Type, "type"),
            value_part(SelectorKind::PseudoClass, "hovered"),
        ])],
    );
}

#[test]
fn multiple_selectors() {
    check_selector_toplevel(
        "type1 .class, type2 .class",
        vec![
            Selector::from_parts(&[
                value_part(SelectorKind::Type, "type1"),
                bare_part(SelectorKind::DescendantCombinator),
                value_part(SelectorKind::Class, "class"),
            ]),
            Selector::from_parts(&[
                value_part(SelectorKind::Type, "type2"),
                bare_part(SelectorKind::DescendantCombinator),
                value_part(SelectorKind::Class, "class"),
            ]),
        ],
    );
}

#[test]
fn pseudoclass_child() {
    check_selector_toplevel(
        "type:hovered > .class",
        vec![Selector::from_parts(&[
            value_part(SelectorKind::Type, "type"),
            value_part(SelectorKind::PseudoClass, "hovered"),
            bare_part(SelectorKind::ChildCombinator),
            value_part(SelectorKind::Class, "class"),
        ])],
    );
}

#[test]
fn nested() {
    check_selector_nested(
        "type",
        vec![Selector::from_parts(&[
            bare_part(SelectorKind::RelativeParent),
            bare_part(SelectorKind::DescendantCombinator),
            value_part(SelectorKind::Type, "type"),
        ])],
    );
}

#[test]
fn parent_descendant() {
    check_selector_nested(
        "& type",
        vec![Selector::from_parts(&[
            bare_part(SelectorKind::RelativeParent),
            bare_part(SelectorKind::DescendantCombinator),
            value_part(SelectorKind::Type, "type"),
        ])],
    );
}

#[test]
fn parent_same() {
    check_selector_nested(
        "&.class:hovered",
        vec![Selector::from_parts(&[
            bare_part(SelectorKind::RelativeParent),
            value_part(SelectorKind::Class, "class"),
            value_part(SelectorKind::PseudoClass, "hovered"),
        ])],
    );
}

#[test]
fn all() {
    check_selector_toplevel("*", vec![Selector::from_parts(&[bare_part(SelectorKind::AnyElement)])]);
}

#[test]
fn attribute_exists() {
    check_selector_toplevel(
        "type[test]",
        vec![Selector::from_parts(&[
            value_part(SelectorKind::Type, "type"),
            SelectorPart {
                kind: SelectorKind::Attribute,
                value: SelectorValue::Attribute {
                    name: String::from("test"),
                    operator: AttributeOperator::Exists,
                    value: Value::empty(),
                },
            },
        ])],
    );
}

#[test]
fn attribute_equal() {
    check_selector_toplevel(
        ".class[test=\"test\"]",
        vec![Selector::from_parts(&[
            value_part(SelectorKind::Class, "class"),
            SelectorPart {
                kind: SelectorKind::Attribute,
                value: SelectorValue::Attribute {
                    name: String::from("test"),
                    operator: AttributeOperator::Equals,
                    value: Value::from("test"),
                },
            },
        ])],
    );
}

#[test]
fn attribute_nested_substring() {
    check_selector_nested(
        "&[test*=\"test\"]",
        vec![Selector::from_parts(&[
            bare_part(SelectorKind::RelativeParent),
            SelectorPart {
                kind: SelectorKind::Attribute,
                value: SelectorValue::Attribute {
                    name: String::from("test"),
                    operator: AttributeOperator::Substring,
                    value: Value::from("test"),
                },
            },
        ])],
    );
}

#[test]
fn multiple_relative() {
    check_selector_nested(
        ".class & & &",
        vec![Selector::from_parts(&[
            value_part(SelectorKind::Class, "class"),
            bare_part(SelectorKind::DescendantCombinator),
            bare_part(SelectorKind::RelativeParent),
            bare_part(SelectorKind::DescendantCombinator),
            bare_part(SelectorKind::RelativeParent),
            bare_part(SelectorKind::DescendantCombinator),
            bare_part(SelectorKind::RelativeParent),
        ])],
    );
}

#[test]
fn document_root_and_other_combinators() {
    check_selector_toplevel(
        ":root",
        vec![Selector::from_parts(&[bare_part(SelectorKind::DocumentRoot)])],
    );
    check_selector_toplevel(
        "a.b + c#d.e",
        vec![Selector::from_parts(&[
            value_part(SelectorKind::Type, "a"),
            value_part(SelectorKind::Class, "b"),
            value_part(SelectorKind::Type, "c"),
            value_part(SelectorKind::Id, "d"),
            value_part(SelectorKind::Class, "e"),
        ])],
    );
}

#[test]
fn components_without_the_selector_library() {
    let parser = style_rules::selectorparser::SelectorParser;
    let component = |name: &str| SelectorComponent::Class(String::from(name));
    let selector = parser.selector(&vec![
        component("b"),
        component("a"),
        SelectorComponent::ChildCombinator,
        SelectorComponent::Other,
        component("d"),
        SelectorComponent::LocalName(String::from("c")),
        SelectorComponent::OtherCombinator,
        SelectorComponent::ParentSelector,
    ]);
    assert_eq!(
        selector,
        Selector::from_parts(&[
            value_part(SelectorKind::Class, "a"),
            value_part(SelectorKind::Class, "b"),
            bare_part(SelectorKind::ChildCombinator),
            value_part(SelectorKind::Type, "c"),
            value_part(SelectorKind::Class, "d"),
            bare_part(SelectorKind::RelativeParent),
        ])
    );
    assert_eq!(parser.selector(&Vec::new()), Selector::new());
    assert_eq!(parser.parse(&Vec::new(), ParseRelative::Nested), Vec::<Selector>::new());
    let bare = vec![vec![SelectorComponent::Class(String::from("a"))]];
    assert_eq!(
        parser.parse(&bare, ParseRelative::No),
        vec![Selector::from_parts(&[value_part(SelectorKind::Class, "a")])]
    );
    assert_eq!(
        parser.parse(&bare, ParseRelative::Nested),
        vec![Selector::from_parts(&[
            bare_part(SelectorKind::RelativeParent),
            bare_part(SelectorKind::DescendantCombinator),
            value_part(SelectorKind::Class, "a"),
        ])]
    );
    let named = vec![vec![SelectorComponent::Class(String::from("a")), SelectorComponent::ParentSelector]];
    assert_eq!(parser.parse(&named, ParseRelative::Nested), parser.parse(&named, ParseRelative::No));
}

#[test]
fn kinds_of_errors_in_rules() {
    let kinds = |input: &str| -> Vec<ParseErrorKind> {
        let mut session = setup();
        let mut stylesheet = StyleSheet::new();
        let _ = session.parse(&mut stylesheet, input, "T");
        stylesheet.errors.iter().map(|error| error.kind).collect()
    };
    assert_eq!(kinds("a { test red; }"), vec![ParseErrorKind::UnexpectedToken]);
    assert_eq!(kinds("a "), vec![ParseErrorKind::UnexpectedEndOfInput]);
    assert_eq!(kinds("@property gap;"), vec![ParseErrorKind::InvalidAtRule]);
    assert_eq!(kinds("@property { }"), vec![ParseErrorKind::UnexpectedEndOfInput]);
    assert_eq!(kinds("@property 3 { }"), vec![ParseErrorKind::UnexpectedToken]);
    assert_eq!(kinds("@import \"a.css\" { }"), vec![ParseErrorKind::UnsupportedAtRule]);
    assert_eq!(kinds("@charset \"utf-8\";"), vec![ParseErrorKind::UnsupportedAtRule]);
    assert_eq!(
        kinds("@property gap { syntax: \"<lenght>\"; }"),
        vec![ParseErrorKind::InvalidPropertyDefinition]
    );
    assert_eq!(
        kinds("@property gap { syntax: mix(red, blue, 1); }"),
        vec![ParseErrorKind::InvalidPropertyDefinition]
    );
    assert_eq!(
        kinds("@property gap { syntax: \"<length>\" more; }"),
        vec![ParseErrorKind::InvalidPropertyDefinition]
    );
    assert_eq!(
        kinds("@property gap { syntax: \"<length>\"; inherits: maybe; }"),
        vec![ParseErrorKind::InvalidPropertyDefinition]
    );
    assert_eq!(
        kinds("@property gap { syntax: \"<length>\"; initial-value: red; }"),
        vec![ParseErrorKind::InvalidPropertyDefinition]
    );
    assert_eq!(kinds("a { test: frobnicate(1); }"), vec![ParseErrorKind::UnknownFunction]);
    assert_eq!(kinds("a { test: 3furlongs; }"), vec![ParseErrorKind::InvalidPropertyValue]);
    assert_eq!(kinds("a { test: red !important; } <!-- b { } -->"), Vec::new());
    assert_eq!(
        kinds("a { .b { .c { test: 1px; } } }"),
        vec![ParseErrorKind::PropertyValueDoesNotMatchSyntax]
    );
    assert_eq!(kinds("a { b { test: 1px; } }"), vec![ParseErrorKind::UnexpectedToken]);
}

#[test]
fn property_rule_descriptors() {
    let mut session = Session::new();
    session.define("--kind", "*");
    let mut stylesheet = StyleSheet::new();
    let result = session.parse(
        &mut stylesheet,
        "holder { --text: \"<color>#\"; }
         @property tint { SYNTAX: var(--text); other: 1 2 3; Inherits: FALSE; initial-value: red, blue }
         @property any { syntax: *; }
         a { tint: red, green; any: 1 two 3px; }",
        "T",
    );
    assert!(result.is_ok(), "{:?}", stylesheet.errors);
    let tint = session.properties.property_definition("tint").unwrap();
    assert_eq!(
        tint.syntax,
        ParsedPropertySyntax::Expression(vec![style_rules::syntax::SyntaxAlternatives::Component(
            style_rules::syntax::SyntaxComponent::CommaSeparatedList(
                style_rules::syntax::DataType::Color
            )
        )])
    );
    assert_eq!(
        tint.initial,
        vec![Value::from(Color::rgba(255, 0, 0, 255)), Value::from(Color::rgba(0, 0, 255, 255))]
    );
    assert_eq!(
        session.properties.property_definition("any").unwrap().syntax,
        ParsedPropertySyntax::Universal
    );
    assert_eq!(stylesheet.rules.len(), 2);
    assert_eq!(stylesheet.rules[1].properties.len(), 2);
    assert_eq!(stylesheet.rules[1].properties[1].values.len(), 3);
}

#[test]
fn errors_as_they_are_reported() {
    let mut session = Session::new();
    let mut stylesheet = StyleSheet::new();
    let result = session.parse(&mut stylesheet, "a { x: 1; }\n\n  b { y: 2; }", "sheet.css");
    let error = result.err().unwrap();
    assert_eq!(error.kind, ParseErrorKind::StyleSheetParseError);
    assert_eq!(error.location.file, "sheet.css");
    assert_eq!((error.location.line, error.location.column), (0, 0));
    let reported = stylesheet.errors();
    assert_eq!(reported.len(), 2);
    assert_eq!(reported[0].file, "sheet.css");
    assert_eq!((reported[0].line, reported[0].column), (1, 7));
    assert_eq!((reported[1].line, reported[1].column), (3, 9));
    assert_eq!(
        reported[1].message,
        "In file \"sheet.css\" at line 3 column 9: Unknown Property: No definition for this property"
    );
    assert_eq!(
        error.message,
        format!("Multiple errors:\n{}\n{}\n", reported[0].message, reported[1].message)
    );
    assert_eq!(stylesheet.rules(), Vec::new());

    let again = session.parse(&mut stylesheet, "c { }", "later.css");
    assert_eq!(again.err().unwrap().location.file, "later.css");
    assert_eq!(stylesheet.rules().len(), 1);
    assert_eq!(stylesheet.errors().len(), 2);
}

#[test]
fn imports_come_first_and_share_the_registry() {
    let mut session = Session::new();
    session.files.push((String::from("inner.css"), String::from("@property tint { syntax: \"<color>\"; } deep { tint: red; }")));
    session.files.push((String::from("outer.css"), String::from("shallow { } @import \"inner.css\"; late { tint: blue; }")));
    let mut stylesheet = StyleSheet::new();
    let result = session.parse(&mut stylesheet, "first { }\n@import url(outer.css);\nlast { tint: green; }", "T");
    assert!(result.is_ok(), "{:?}", stylesheet.errors);
    let selectors: Vec<Selector> =
        stylesheet.rules.iter().map(|item| item.selector.clone()).collect();
    assert_eq!(
        selectors,
        vec![
            type_selector("deep"),
            type_selector("shallow"),
            type_selector("late"),
            type_selector("first"),
            type_selector("last")
        ]
    );
    assert!(session.requests >= 7);
}

#[test]
fn function_of_the_embedder_in_a_rule() {
    let mut session = setup();
    session.functions.add_property_function("gray", style_rules::function::PropertyFunction::External);
    let mut stylesheet = StyleSheet::new();
    let result = session.parse(
        &mut stylesheet,
        "@property shade { syntax: \"<color>\"; initial-value: gray(7); }
         a { test: gray(128); .b { test: mix(gray(0), gray( 255 ), 0.5); } }
         c { test: gray(dark); }",
        "T",
    );
    assert!(result.is_err());
    let kinds: Vec<ParseErrorKind> = stylesheet.errors.iter().map(|error| error.kind).collect();
    assert_eq!(kinds, vec![ParseErrorKind::InvalidPropertyValue]);
    assert_eq!(
        session.properties.property_definition("shade").unwrap().initial,
        vec![Value::from(Color::rgba(7, 7, 7, 255))]
    );
    assert_eq!(stylesheet.rules.len(), 2);
    assert_eq!(
        stylesheet.rules[0].properties[0].values,
        vec![Value::from(Color::rgba(128, 128, 128, 255))]
    );
    assert_eq!(
        stylesheet.rules[1].properties[0].values,
        vec![Value::from(Color::modified(
            &Color::rgba(0, 0, 0, 255),
            style_rules::value::ColorOperation::mix(
                &Color::rgba(255, 255, 255, 255),
                0.5f32.to_bits()
            )
        ))]
    );
}

#[test]
fn imports_that_never_end() {
    let mut session = Session::new();
    session.files.push((String::from("loop.css"), String::from("a { } @import \"loop.css\";")));
    let mut stylesheet = StyleSheet::new();
    let result = session.parse(&mut stylesheet, "@import \"loop.css\";", "T");
    let error = result.err().unwrap();
    assert_eq!(error.kind, ParseErrorKind::StyleSheetParseError);
    assert_eq!(error.message, "Imports are nested too deeply");
    assert_eq!(error.location.file, "loop.css");
    assert!(stylesheet.rules.is_empty());
}

#[test]
fn custom_properties_beside_declarations() {
    let mut session = setup();
    let mut stylesheet = StyleSheet::new();
    let result = session.parse(
        &mut stylesheet,
        ":root { --c: #ff0000; test: var(--c); --d: 1px 2px; }
         other { --c: #0000ff; test: var(--c); }",
        "T",
    );
    assert!(result.is_ok(), "{:?}", stylesheet.errors);
    let definition = session.properties.property_definition("test").unwrap();
    let custom = session.properties.property_definition("--c").unwrap();
    assert_eq!(custom.syntax, ParsedPropertySyntax::Universal);
    assert_eq!(custom.initial, vec![Value::from(Color::rgba(255, 0, 0, 255))]);
    assert!(!custom.inherit);
    assert_eq!(session.properties.property_definition("--d").unwrap().initial.len(), 2);
    let red = Property {
        name: String::from("test"),
        definition: definition.clone(),
        values: vec![Value::from(Color::rgba(255, 0, 0, 255))],
    };
    assert_eq!(
        stylesheet.rules,
        vec![
            StyleRule {
                selector: Selector::from_parts(&[SelectorPart::new_with_empty(
                    SelectorKind::DocumentRoot
                )]),
                properties: vec![red.clone()],
            },
            StyleRule {
                selector: type_selector("other"),
                properties: vec![
                    Property {
                        name: String::from("--c"),
                        definition: custom,
                        values: vec![Value::from(Color::rgba(0, 0, 255, 255))],
                    },
                    red,
                ],
            },
        ]
    );
}

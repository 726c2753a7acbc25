use style_rules::details::{ParseError, ParseErrorKind, SourceLocation};
use style_rules::function::{FunctionRegistry, PropertyFunction};
use style_rules::grammar::parse_syntax;
use style_rules::property::{PropertyDefinition, PropertyRegistry};
use style_rules::selector::{AttributeOperator, SelectorKind, SelectorPart};
use style_rules::syntax::{
    validate_syntax, DataType, ParseValuesResult, ParsedPropertySyntax, SyntaxAlternatives,
    SyntaxComponent,
};
use style_rules::value::{
    Color, ColorOperation, ColorOperationType, ColorType, Dimension, Rgba,
    SetColorOperationValues, Unit, Value, ValueType,
};

#[test]
fn units_of_suffixes() {
    assert_eq!(Unit::parse("px"), Unit::Px);
    assert_eq!(Unit::parse("em"), Unit::Em);
    assert_eq!(Unit::parse("rem"), Unit::Rem);
    assert_eq!(Unit::parse("pt"), Unit::Pt);
    assert_eq!(Unit::parse("%"), Unit::Percent);
    assert_eq!(Unit::parse("deg"), Unit::Degrees);
    assert_eq!(Unit::parse("rad"), Unit::Radians);
    assert_eq!(Unit::parse("s"), Unit::Seconds);
    assert_eq!(Unit::parse("ms"), Unit::Milliseconds);
    for suffix in ["mm", "cm", "Q", "in", "pc", "vh", "vw", "lh", "rlh", "grad", "turn"] {
        assert_eq!(Unit::parse(suffix), Unit::Unsupported);
    }
    assert_eq!(Unit::parse(""), Unit::Unknown);
    assert_eq!(Unit::parse("PX"), Unit::Unknown);
    assert_eq!(Unit::parse("q"), Unit::Unknown);
    assert_eq!(Unit::parse("furlong"), Unit::Unknown);
}

#[test]
fn kinds_of_dimensions() {
    let of = |unit| Dimension { value: 1.0f32.to_bits(), unit };
    assert!(of(Unit::Number).is_number());
    assert!(!of(Unit::Px).is_number());
    for unit in [Unit::Px, Unit::Em, Unit::Rem, Unit::Pt] {
        assert!(of(unit).is_length());
    }
    assert!(!of(Unit::Percent).is_length());
    assert!(of(Unit::Percent).is_percent());
    assert!(of(Unit::Degrees).is_angle());
    assert!(of(Unit::Radians).is_angle());
    assert!(!of(Unit::Seconds).is_angle());
    assert_eq!(Dimension::px(7), Dimension { value: 7, unit: Unit::Px });
}

#[test]
fn kinds_of_values() {
    assert_eq!(Value::empty().value_type(), ValueType::Empty);
    assert_eq!(Value::from(3).value_type(), ValueType::Integer);
    assert_eq!(Value::from("text").value_type(), ValueType::String);
    assert_eq!(Value::from(Color::rgba(1, 2, 3, 4)).value_type(), ValueType::Color);
    assert_eq!(Value::from(Dimension::px(0)).value_type(), ValueType::Dimension);
    assert_eq!(Value::number(0).value_type(), ValueType::Dimension);
    assert_eq!(Value::new_url("a.svg").value_type(), ValueType::Url);
    assert_eq!(Value::from("text").to_string(), "text");
    assert_eq!(Value::from(3).to_string(), "");
    assert_eq!(Color::from(Value::from(Color::rgba(1, 2, 3, 4))), Color::rgba(1, 2, 3, 4));
    assert_eq!(Color::from(Value::from(3)), Color::empty());
    assert_eq!(Dimension::from(Value::from(Dimension::px(5))), Dimension::px(5));
    assert_eq!(Dimension::from(Value::empty()), Dimension { value: 0, unit: Unit::Unknown });
}

#[test]
fn values_as_what_they_hold() {
    assert_eq!(Value::from(3).to_integer().unwrap(), 3);
    assert!(Value::from("3").to_integer().is_err());
    assert_eq!(Value::from(Dimension::px(9)).to_dimension().unwrap(), Dimension::px(9));
    assert!(Value::from(9).to_dimension().is_err());
    assert_eq!(*Value::from(Color::rgba(1, 2, 3, 4)).to_color().unwrap(), Color::rgba(1, 2, 3, 4));
    assert!(Value::empty().to_color().is_err());
    assert_eq!(Value::new_url("a.svg").to_url().unwrap(), "a.svg");
    assert!(Value::from("a.svg").to_url().is_err());
    assert!(Value::new_url("a.svg").to_image().is_err());
}

#[test]
fn colors_as_what_they_hold() {
    let red = Color::rgba(255, 0, 0, 255);
    assert_eq!(red.color_type(), ColorType::Rgba);
    assert_eq!(red.to_rgba().unwrap(), Rgba { r: 255, g: 0, b: 0, a: 255 });
    assert!(red.to_custom().is_err());
    assert!(red.to_modified().is_err());
    assert_eq!(Color::empty().color_type(), ColorType::Empty);
    assert!(Color::empty().to_rgba().is_err());

    let custom = Color::custom(String::from("theme"), vec![String::from("accent")]);
    assert_eq!(custom.color_type(), ColorType::Custom);
    let held = custom.to_custom().unwrap();
    assert_eq!(held.source, "theme");
    assert_eq!(held.arguments, vec![String::from("accent")]);

    let set = Color::modified(&red, ColorOperation::set(None, Some(7), None, Some(0)));
    assert_eq!(set.color_type(), ColorType::Modified);
    let modified = set.to_modified().unwrap();
    assert_eq!(*modified.color, red);
    assert_eq!(modified.operation_type(), ColorOperationType::SetChannels);
    assert_eq!(
        modified.set_values().unwrap(),
        SetColorOperationValues { r: -1, g: 7, b: -1, a: 0 }
    );
    assert!(modified.color_value().is_err());
    assert!(modified.mix_values().is_err());

    let added = Color::modified(&red, ColorOperation::add(&custom)).to_modified().unwrap();
    assert_eq!(added.operation_type(), ColorOperationType::Add);
    assert_eq!(*added.color_value().unwrap(), custom);
    assert!(added.set_values().is_err());

    let mixed = Color::modified(&red, ColorOperation::mix(&custom, 5)).to_modified().unwrap();
    assert_eq!(mixed.operation_type(), ColorOperationType::Mix);
    let values = mixed.mix_values().unwrap();
    assert_eq!(*values.other, custom);
    assert_eq!(values.amount, 5);
    assert_eq!(
        Color::modified(&red, ColorOperation::subtract(&red)).to_modified().unwrap().operation_type(),
        ColorOperationType::Subtract
    );
    assert_eq!(
        Color::modified(&red, ColorOperation::multiply(&red)).to_modified().unwrap().operation_type(),
        ColorOperationType::Multiply
    );
}

#[test]
fn parts_as_what_they_hold() {
    let class = SelectorPart::new_with_value(SelectorKind::Class, Value::from("big"));
    assert_eq!(class.kind(), SelectorKind::Class);
    assert_eq!(class.value(), &Value::from("big"));
    assert_eq!(class.attribute_name(), "");
    assert_eq!(class.attribute_operator(), AttributeOperator::Unset);
    assert_eq!(class.attribute_value(), Value::empty_ref());

    let attribute = SelectorPart::new_attribute("lang", AttributeOperator::DashMatch, Value::from("en"));
    assert_eq!(attribute.kind(), SelectorKind::Attribute);
    assert_eq!(attribute.value(), &Value::empty());
    assert_eq!(attribute.attribute_name(), "lang");
    assert_eq!(attribute.attribute_operator(), AttributeOperator::DashMatch);
    assert_eq!(attribute.attribute_value(), &Value::from("en"));

    let marker = SelectorPart::new_with_empty(SelectorKind::RelativeParent);
    assert_eq!(marker.value(), Value::empty_ref());
}

#[test]
fn registering_a_property_twice() {
    let mut registry = PropertyRegistry::new();
    let first = PropertyDefinition::from_name_syntax("gap", "<length>", "T", 0, 0).unwrap();
    let second = PropertyDefinition::from_name_syntax("gap", "<color>", "T", 0, 0).unwrap();
    let other = PropertyDefinition::from_name_syntax("Gap", "<color>", "T", 0, 0).unwrap();
    assert!(registry.property_definition("gap").is_none());
    assert!(registry.add_property_definition(first.clone()));
    let once = registry.clone();
    assert!(!registry.add_property_definition(second));
    assert_eq!(registry, once);
    assert_eq!(registry.property_definition("gap"), Some(first.clone()));
    assert!(registry.add_property_definition(other.clone()));
    assert_eq!(registry.property_definition("gap"), Some(first));
    assert_eq!(registry.property_definition("Gap"), Some(other));
    assert_eq!(registry.definitions.len(), 2);
}

#[test]
fn definitions_from_descriptors() {
    assert_eq!(PropertyDefinition::empty().syntax, ParsedPropertySyntax::Empty);
    let definition = PropertyDefinition::from_name_syntax("gap", "<length>", "T", 3, 4).unwrap();
    assert_eq!(definition.name, "gap");
    assert!(!definition.inherit);
    assert!(definition.initial.is_empty());
    assert_eq!(
        definition.syntax,
        ParsedPropertySyntax::Expression(vec![SyntaxAlternatives::Component(
            SyntaxComponent::DataType(DataType::Length)
        )])
    );
    let error = PropertyDefinition::from_name_syntax("gap", "<lenght>", "T", 3, 4).err().unwrap();
    assert_eq!(error.kind, ParseErrorKind::InvalidPropertySyntax);
    assert_eq!(error.location, SourceLocation { file: String::from("T"), line: 3, column: 4 });
}

#[test]
fn registering_a_function_twice() {
    let mut registry = FunctionRegistry::new();
    assert_eq!(registry.property_function("var"), Some(PropertyFunction::Var));
    assert_eq!(registry.property_function("mix"), Some(PropertyFunction::Mix));
    assert_eq!(registry.property_function("custom-color"), Some(PropertyFunction::CustomColor));
    assert_eq!(registry.property_function("modify-color"), Some(PropertyFunction::ModifyColor));
    assert_eq!(registry.property_function("blend"), None);
    assert!(registry.add_property_function("blend", PropertyFunction::Mix));
    assert!(!registry.add_property_function("blend", PropertyFunction::Var));
    assert!(!registry.add_property_function("var", PropertyFunction::Mix));
    assert_eq!(registry.property_function("blend"), Some(PropertyFunction::Mix));
    assert_eq!(registry.property_function("var"), Some(PropertyFunction::Var));
}

fn verdict(syntax: &str, values: ParseValuesResult) -> Result<(), ParseErrorKind> {
    let syntax = parse_syntax(syntax, SourceLocation::from_file("T")).unwrap();
    validate_syntax(&syntax, &values, SourceLocation::from_file("T")).map_err(|error| error.kind)
}

fn px(value: f32) -> Value {
    Value::from(Dimension::px(value.to_bits()))
}

#[test]
fn values_against_syntaxes() {
    let wrong = Err(ParseErrorKind::PropertyValueDoesNotMatchSyntax);
    assert_eq!(verdict("<length>", ParseValuesResult::Single(vec![px(1.0)])), Ok(()));
    assert_eq!(verdict("<length>", ParseValuesResult::Single(vec![Value::from(1)])), wrong);
    assert_eq!(verdict("<length>", ParseValuesResult::Single(vec![])), wrong);
    assert_eq!(verdict("<length>+", ParseValuesResult::Single(vec![])), wrong);
    assert_eq!(verdict("*", ParseValuesResult::Single(vec![Value::empty()])), Ok(()));
    assert_eq!(
        verdict("<length>+", ParseValuesResult::SpaceSeparated(vec![px(1.0), px(2.0)])),
        Ok(())
    );
    assert_eq!(
        verdict("<length>+", ParseValuesResult::CommaSeparated(vec![px(1.0), px(2.0)])),
        wrong
    );
    assert_eq!(
        verdict("<length>#", ParseValuesResult::CommaSeparated(vec![px(1.0), px(2.0)])),
        Ok(())
    );
    assert_eq!(
        verdict("<length>#", ParseValuesResult::SpaceSeparated(vec![px(1.0), px(2.0)])),
        wrong
    );
    assert_eq!(
        verdict("<length>+ auto", ParseValuesResult::SpaceSeparated(vec![px(1.0), Value::from("auto")])),
        Ok(())
    );
    assert_eq!(
        verdict("<length>{2,3}", ParseValuesResult::SpaceSeparated(vec![px(1.0), px(2.0)])),
        Ok(())
    );
    assert_eq!(verdict("<length>{2,3}", ParseValuesResult::Single(vec![px(1.0)])), wrong);
    assert_eq!(
        verdict(
            "<length>{2,3}",
            ParseValuesResult::SpaceSeparated(vec![px(1.0), px(2.0), px(3.0), px(4.0)])
        ),
        wrong
    );
    assert_eq!(verdict("auto", ParseValuesResult::Single(vec![Value::from("auto")])), Ok(()));
    assert_eq!(verdict("auto", ParseValuesResult::Single(vec![Value::from("Auto")])), wrong);
    assert_eq!(
        verdict("<length-percentage>", ParseValuesResult::Single(vec![Value::from(Dimension {
            value: 0.5f32.to_bits(),
            unit: Unit::Percent
        })])),
        Ok(())
    );
    for descriptor in ["<time>", "<resolution>", "<transform-function>", "<custom-ident>"] {
        assert_eq!(
            verdict(descriptor, ParseValuesResult::Single(vec![Value::from("x")])),
            Err(ParseErrorKind::Unimplemented)
        );
    }
    assert_eq!(
        verdict("(<time> | <length>) auto", ParseValuesResult::SpaceSeparated(vec![px(1.0), Value::from("auto")])),
        Ok(())
    );
}

#[test]
fn descriptors_that_write_no_syntax() {
    for descriptor in ["", "   ", "<", "<length", "<lenght>", "<length> | <invalid>", "(auto", "|", "<length>{99999999999999999999999,2}"] {
        let error = parse_syntax(descriptor, SourceLocation::from_file("T")).err();
        assert_eq!(
            error.map(|error| error.kind),
            Some(ParseErrorKind::InvalidPropertySyntax),
            "{:?}",
            descriptor
        );
    }
}

#[test]
fn descriptors_with_trimmings() {
    let length = || SyntaxAlternatives::Component(SyntaxComponent::DataType(DataType::Length));
    let parse = |descriptor| parse_syntax(descriptor, SourceLocation::from_file("T")).unwrap();
    assert_eq!(parse("  *  "), ParsedPropertySyntax::Universal);
    assert_eq!(parse(" \t<length>\t "), ParsedPropertySyntax::Expression(vec![length()]));
    assert_eq!(parse("<length> )"), ParsedPropertySyntax::Expression(vec![length()]));
    assert_eq!(parse("<length>{1,4"), ParsedPropertySyntax::Expression(vec![length()]));
    assert_eq!(
        parse("<length>, _a-1"),
        ParsedPropertySyntax::Expression(vec![
            length(),
            SyntaxAlternatives::Component(SyntaxComponent::Comma),
            SyntaxAlternatives::Component(SyntaxComponent::Keyword(String::from("_a-1"))),
        ])
    );
    assert_eq!(
        parse("(<length>)"),
        ParsedPropertySyntax::Expression(vec![SyntaxAlternatives::Group(
            style_rules::syntax::SyntaxGroup::Expression(vec![length()])
        )])
    );
    assert_eq!(
        parse("<length-percentage>#"),
        ParsedPropertySyntax::Expression(vec![SyntaxAlternatives::Component(
            SyntaxComponent::CommaSeparatedList(DataType::LengthPercentage)
        )])
    );
}

#[test]
fn errors_in_words() {
    let error = |kind| ParseError::new(kind, "details", SourceLocation::from_file_location(String::from("a.css"), 12, 340));
    assert_eq!(
        error(ParseErrorKind::UnknownProperty).to_string(),
        "In file \"a.css\" at line 12 column 340: Unknown Property: details"
    );
    assert_eq!(
        error(ParseErrorKind::InvalidQualifiedRule).to_string(),
        "In file \"a.css\" at line 12 column 340: Invalid qualified rule"
    );
    assert_eq!(
        error(ParseErrorKind::Unimplemented).to_string(),
        "In file \"a.css\" at line 12 column 340: Feature is not yet implemented"
    );
    assert_eq!(
        ParseError::new(ParseErrorKind::FileError, "gone", SourceLocation::from_file("b")).to_string(),
        "In file \"b\" at line 0 column 0: IO Error: gone"
    );
    assert_eq!(
        ParseError::new(
            ParseErrorKind::StyleSheetParseError,
            "x",
            SourceLocation::from_file_location(String::new(), 4294967295, 10)
        )
        .to_string(),
        "In file \"\" at line 4294967295 column 10: Stylesheet failed to parse: x"
    );
}

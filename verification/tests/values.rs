use style_rules::answers::{Answers, Request};
use style_rules::details::{ParseErrorKind, SourceLocation};
use style_rules::function::{FunctionRegistry, PropertyFunction};
use style_rules::grammar::parse_syntax;
use style_rules::property::PropertyRegistry;
use style_rules::tokens::TokenSource;
use style_rules::value::{Color, ColorOperation, Dimension, Unit, Value};
use style_rules::values::{parse_values, Interrupt};

fn px(value: f32) -> Value {
    Value::from(Dimension::px(value.to_bits()))
}

fn dimension(value: f32, unit: Unit) -> Value {
    Value::from(Dimension { value: value.to_bits(), unit })
}

fn check_value(input: (&str, &str), expected: Vec<Value>) {
    let functions = FunctionRegistry::new();
    let properties = PropertyRegistry::new();
    let mut source = TokenSource::new(input.1);
    let parsed_syntax = parse_syntax(input.0, SourceLocation::from_file("Test Input")).unwrap();

    let result =
        parse_values(&parsed_syntax, &mut source, &functions, &properties, &Answers::new());
    match result {
        Ok(values) => assert_eq!(values, expected),
        Err(error) => panic!("{:?}", error),
    }
}

#[test]
fn length_px() {
    check_value(("<length>", "24px"), vec![px(24.0)]);
}

#[test]
fn length_em() {
    check_value(("<length>", "3em"), vec![dimension(3.0, Unit::Em)]);
}

#[test]
fn length_list() {
    check_value(("<length>+", "1px 2px 3px"), vec![px(1.0), px(2.0), px(3.0)]);
}

#[test]
fn number() {
    check_value(("<number>", "66.6"), vec![Value::number(66.6f32.to_bits())]);
}

#[test]
fn color_hex() {
    check_value(("<color>", "#ff0000"), vec![Value::from(Color::rgba(255, 0, 0, 255))]);
}

#[test]
fn color_hex_short() {
    check_value(("<color>", "#0f0"), vec![Value::from(Color::rgba(0, 255, 0, 255))]);
}

#[test]
fn color_named() {
    check_value(("<color>", "blue"), vec![Value::from(Color::rgba(0, 0, 255, 255))]);
}

#[test]
fn color_comma_list() {
    check_value(
        ("<color>#", "red, green, blue"),
        vec![
            Value::from(Color::rgba(255, 0, 0, 255)),
            Value::from(Color::rgba(0, 128, 0, 255)),
            Value::from(Color::rgba(0, 0, 255, 255)),
        ],
    );
}

#[test]
fn color_by_hue() {
    check_value(("<color>", "hsl(120, 100%, 50%)"), vec![Value::from(Color::rgba(0, 255, 0, 255))]);
    check_value(
        ("<color>", "hsla(0, 100%, 50%, 0.5)"),
        vec![Value::from(Color::rgba(255, 0, 0, 127))],
    );
    check_value(("<color>", "hwb(240 0% 0%)"), vec![Value::from(Color::rgba(0, 0, 255, 255))]);
}

#[test]
fn universal() {
    check_value(("*", "#ff0000"), vec![Value::from(Color::rgba(255, 0, 0, 255))]);
}

#[test]
fn alternative_keyword() {
    check_value(("auto | <length>", "auto"), vec![Value::from("auto")]);
}

#[test]
fn alternative_value() {
    check_value(("auto | <length>", "24px"), vec![px(24.0)]);
}

#[test]
fn group_keyword() {
    check_value(("(auto | <number>) | (<length> <length>)", "auto"), vec![Value::from("auto")]);
}

#[test]
fn group_number() {
    check_value(
        ("(auto | <number>) | (<length> <length>)", "24.0"),
        vec![Value::number(24.0f32.to_bits())],
    );
}

#[test]
fn group_lengths() {
    check_value(
        ("(auto | <number>) | (<length> <length>)", "24px 24px"),
        vec![px(24.0), px(24.0)],
    );
}

#[test]
fn repeat() {
    check_value(
        ("<angle>{2,4}", "90deg 180deg 270deg"),
        vec![
            dimension(90.0, Unit::Degrees),
            dimension(180.0, Unit::Degrees),
            dimension(270.0, Unit::Degrees),
        ],
    );
}

#[test]
fn important_is_left_out() {
    check_value(("<length>", "24px !important"), vec![px(24.0)]);
}

#[test]
fn url_values() {
    check_value(("<url>", "url(background.svg)"), vec![Value::new_url("background.svg")]);
    check_value(("<url>", "url(\"background.svg\")"), vec![Value::new_url("background.svg")]);
}

#[test]
fn integer_and_percentage() {
    check_value(("<integer>", "42"), vec![Value::from(42)]);
    check_value(("<percentage>", "50%"), vec![dimension(0.5, Unit::Percent)]);
}

fn check_error(syntax: &str, input: &str, kind: ParseErrorKind) {
    let functions = FunctionRegistry::new();
    let properties = PropertyRegistry::new();
    let mut source = TokenSource::new(input);
    let parsed_syntax = parse_syntax(syntax, SourceLocation::from_file("Test Input")).unwrap();

    let result =
        parse_values(&parsed_syntax, &mut source, &functions, &properties, &Answers::new());
    match result {
        Ok(values) => panic!("Expected error, got Ok({:?})", values),
        Err(Interrupt::Error(error)) => assert_eq!(error.kind, kind),
        Err(Interrupt::Need(request)) => panic!("Expected error, got {:?}", request),
    }
}

#[test]
fn length_for_color() {
    check_error("<color>", "24px", ParseErrorKind::PropertyValueDoesNotMatchSyntax);
}

#[test]
fn insufficient_values() {
    check_error("<length> <length>", "24px", ParseErrorKind::PropertyValueDoesNotMatchSyntax);
}

#[test]
fn too_many_values() {
    check_error("<percentage>", "100% 100%", ParseErrorKind::PropertyValueDoesNotMatchSyntax);
}

#[test]
fn unsupported_unit() {
    check_error("*", "3cm", ParseErrorKind::InvalidPropertyValue);
    check_error("*", "3parsecs", ParseErrorKind::InvalidPropertyValue);
}

#[test]
fn unknown_function() {
    check_error("*", "frobnicate(1)", ParseErrorKind::UnknownFunction);
    check_error("*", "mix(frobnicate(1), red, 1)", ParseErrorKind::UnknownFunction);
}

#[test]
fn unimplemented_data_type() {
    check_error("<time>", "3s", ParseErrorKind::Unimplemented);
    check_value(("<time> | auto", "auto"), vec![Value::from("auto")]);
}

#[test]
fn unknown_variable() {
    check_error("*", "var(--missing)", ParseErrorKind::InvalidPropertyValue);
}

fn check_function(input: &str, expected: Vec<Value>) {
    check_value(("*", input), expected);
}

#[test]
fn mix() {
    check_function(
        "mix(black, white, 0.5)",
        vec![Value::from(Color::modified(
            &Color::rgba(0, 0, 0, 255),
            ColorOperation::mix(&Color::rgba(255, 255, 255, 255), 0.5f32.to_bits()),
        ))],
    );
}

#[test]
fn mix_alpha() {
    check_function(
        "mix(rgba(255, 0, 255, 0.25), rgba(255, 255, 0, 0.75), 0.25)",
        vec![Value::from(Color::modified(
            &Color::rgba(255, 0, 255, 63),
            ColorOperation::mix(&Color::rgba(255, 255, 0, 191), 0.25f32.to_bits()),
        ))],
    );
}

#[test]
fn custom_color() {
    check_function(
        "custom-color('test', 'some', 'arguments')",
        vec![Value::from(Color::custom(
            String::from("test"),
            vec![String::from("some"), String::from("arguments")],
        ))],
    );
}

#[test]
fn modify_color_add() {
    check_function(
        "modify-color(black add white)",
        vec![Value::from(Color::modified(
            &Color::rgba(0, 0, 0, 255),
            ColorOperation::add(&Color::rgba(255, 255, 255, 255)),
        ))],
    );
}

#[test]
fn modify_color_subtract() {
    check_function(
        "modify-color(black subtract white)",
        vec![Value::from(Color::modified(
            &Color::rgba(0, 0, 0, 255),
            ColorOperation::subtract(&Color::rgba(255, 255, 255, 255)),
        ))],
    );
}

#[test]
fn modify_color_multiply() {
    check_function(
        "modify-color(black multiply white)",
        vec![Value::from(Color::modified(
            &Color::rgba(0, 0, 0, 255),
            ColorOperation::multiply(&Color::rgba(255, 255, 255, 255)),
        ))],
    );
}

#[test]
fn modify_color_set_alpha() {
    check_function(
        "modify-color(black set-alpha 0.5)",
        vec![Value::from(Color::modified(
            &Color::rgba(0, 0, 0, 255),
            ColorOperation::set(None, None, None, Some(127)),
        ))],
    );
}

#[test]
fn variable_with_fallback() {
    check_function("var(--missing, 24px)", vec![px(24.0)]);
}

#[test]
fn variable_of_registered_property() {
    let functions = FunctionRegistry::new();
    let mut properties = PropertyRegistry::new();
    let definition = style_rules::property::PropertyDefinition::from_name_syntax_initial(
        "--accent",
        "*",
        &[Value::from(Color::rgba(1, 2, 3, 255))],
        "Test Input",
        0,
        0,
    )
    .unwrap();
    assert!(properties.add_property_definition(definition));
    let mut source = TokenSource::new("var(--accent, red)");
    let syntax = parse_syntax("<color>", SourceLocation::from_file("Test Input")).unwrap();
    let values =
        parse_values(&syntax, &mut source, &functions, &properties, &Answers::new()).unwrap();
    assert_eq!(values, vec![Value::from(Color::rgba(1, 2, 3, 255))]);
    assert_eq!(source.position, 18);
}

#[test]
fn function_of_the_embedder() {
    let mut functions = FunctionRegistry::new();
    assert!(functions.add_property_function("twice", PropertyFunction::External));
    let properties = PropertyRegistry::new();
    let syntax = parse_syntax("<integer>+", SourceLocation::from_file("Test Input")).unwrap();
    let mut answers = Answers::new();

    let mut source = TokenSource::new("twice( 21 ) twice(4)");
    let first = parse_values(&syntax, &mut source, &functions, &properties, &answers);
    assert_eq!(
        first,
        Err(Interrupt::Need(Request::Function {
            name: String::from("twice"),
            arguments: String::from(" 21 ")
        }))
    );
    assert_eq!(source.position, 0);

    answers.add_function("twice", " 21 ", Ok(vec![Value::from(42)]));
    let second = parse_values(&syntax, &mut source, &functions, &properties, &answers);
    assert_eq!(
        second,
        Err(Interrupt::Need(Request::Function {
            name: String::from("twice"),
            arguments: String::from("4")
        }))
    );

    answers.add_function("twice", "4", Ok(vec![Value::from(8)]));
    let third = parse_values(&syntax, &mut source, &functions, &properties, &answers);
    assert_eq!(third, Ok(vec![Value::from(42), Value::from(8)]));
    assert_eq!(source.position, 20);

    let mut refused = Answers::new();
    refused.add_function("twice", "x", Err(String::from("not a number")));
    let mut source = TokenSource::new("twice(x)");
    match parse_values(&syntax, &mut source, &functions, &properties, &refused) {
        Err(Interrupt::Error(error)) => assert_eq!(error.kind, ParseErrorKind::InvalidPropertyValue),
        other => panic!("{:?}", other),
    }
}


#[test]
fn hues_beyond_all_measure() {
    check_error("<color>", "hsl(3e38turn, 50%, 50%)", ParseErrorKind::UnknownFunction);
    check_error("<color>", "hwb(3e38turn 10% 10%)", ParseErrorKind::UnknownFunction);
    check_value(
        ("<color>", "hsl(360, 100%, 50%)"),
        vec![Value::from(Color::rgba(255, 0, 0, 255))],
    );
    check_value(
        ("<color>", "hsl(-120deg 100% 50%)"),
        vec![Value::from(Color::rgba(0, 0, 255, 255))],
    );
    check_value(
        ("<color>", "hsl(none 100% 50% / 0.5)"),
        vec![Value::from(Color::rgba(255, 0, 0, 127))],
    );
    check_value(("<color>", "hsl(1e30 50% 50%)"), vec![Value::from(Color::rgba(191, 64, 64, 255))]);
}

#[test]
fn opacity_of_hex_colors() {
    for alpha in [0u8, 1, 2, 51, 127, 128, 129, 200, 254, 255] {
        let text = format!("#102030{:02x}", alpha);
        let written = alpha as f32 / 255.0;
        check_value(
            ("<color>", &text),
            vec![Value::from(Color::rgba(0x10, 0x20, 0x30, (written * 255.0) as u8))],
        );
    }
    check_value(("<color>", "rgb(10% 20% 30% / 50%)"), vec![Value::from(Color::rgba(26, 51, 77, 127))]);
    check_value(("<color>", "transparent"), vec![Value::from(Color::rgba(0, 0, 0, 0))]);
}

#[test]
fn colors_that_are_no_values() {
    check_value(("*", "currentcolor"), vec![Value::from("currentcolor")]);
    check_error("<color>", "currentcolor", ParseErrorKind::PropertyValueDoesNotMatchSyntax);
    check_error("<color>", "lab(50% 40 59.5)", ParseErrorKind::UnknownFunction);
    check_error("<color>", "#12", ParseErrorKind::InvalidPropertyValue);
}

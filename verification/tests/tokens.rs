use style_rules::details::SourceLocation;
use style_rules::tokens::{Stop, TokenSource};

#[test]
fn tokens_one_after_the_other() {
    let mut source = TokenSource::new("  name /* note */ 'quoted' , 12 1.5 url(a.png) rest");
    assert_eq!(source.limit, 51);
    assert!(!source.is_exhausted());
    assert_eq!(source.expect_string(), None);
    assert_eq!(source.position, 0);
    assert_eq!(source.expect_ident(), Some(String::from("name")));
    assert_eq!(source.position, 6);
    assert_eq!(source.expect_ident(), None);
    assert_eq!(source.expect_string(), Some(String::from("quoted")));
    assert!(!source.expect_comma() || source.position == 28);
    assert_eq!(source.expect_integer(), Some(12));
    assert_eq!(source.expect_integer(), None);
    assert_eq!(source.expect_number(), Some(1.5f32.to_bits()));
    assert_eq!(source.expect_number(), None);
    assert_eq!(source.expect_url(), Some(String::from("a.png")));
    assert_eq!(source.expect_url(), None);
    assert_eq!(source.expect_ident(), Some(String::from("rest")));
    assert!(source.is_exhausted());
    assert_eq!(source.position, source.limit);
}

#[test]
fn integers_are_numbers() {
    let mut source = TokenSource::new("7");
    assert_eq!(source.expect_number(), Some(7.0f32.to_bits()));
    assert!(source.is_exhausted());
}

#[test]
fn functions_and_their_arguments() {
    let mut source = TokenSource::new("outer(a, inner(b; c), [d)]) after");
    let (name, mut arguments) = source.expect_function().unwrap();
    assert_eq!(name, "outer");
    assert_eq!(source.position, 27);
    assert_eq!((arguments.position, arguments.limit), (6, 26));
    assert_eq!(arguments.expect_ident(), Some(String::from("a")));
    assert!(arguments.expect_comma());
    let (inner_name, mut inner) = arguments.expect_function().unwrap();
    assert_eq!(inner_name, "inner");
    assert_eq!((inner.position, inner.limit), (15, 19));
    let mut before = inner.until_before(Stop::Semicolon);
    assert_eq!((before.position, before.limit), (15, 16));
    assert_eq!(before.expect_ident(), Some(String::from("b")));
    assert!(before.is_exhausted());
    assert_eq!(inner.position, 16);
    assert!(!inner.is_exhausted());
    assert!(arguments.expect_comma());
    assert!(!arguments.is_exhausted());
    assert_eq!(arguments.expect_function(), None);
    assert_eq!(source.expect_function(), None);
    assert_eq!(source.expect_ident(), Some(String::from("after")));
}

#[test]
fn stops_outside_of_blocks() {
    let text = "a (b ! c) { d; } [e !] ! f; g";
    let mut source = TokenSource::new(text);
    let part = source.until_before(Stop::Bang);
    assert_eq!((part.position, part.limit, source.position), (0, 23, 23));
    let mut source = TokenSource::new(text);
    source.until_before(Stop::Semicolon);
    assert_eq!(source.position, 26);
    let mut source = TokenSource::new(text);
    source.until_before(Stop::CurlyBracketBlock);
    assert_eq!(source.position, 10);
    let mut source = TokenSource::new(text);
    source.until_before(Stop::SemicolonOrCurlyBracketBlock);
    assert_eq!(source.position, 10);
    let mut source = TokenSource::new("no stop here");
    source.until_before(Stop::Bang);
    assert_eq!(source.position, 12);
}

#[test]
fn places_in_a_text() {
    let text = "/*# sourceURL=sheet.css */\nfirst\n  second é third";
    let source = TokenSource::over(text, 35, text.len());
    assert_eq!(
        source.current_source_location(),
        SourceLocation { file: String::from("sheet.css"), line: 2, column: 3 }
    );
    let source = TokenSource::over(text, text.len(), text.len());
    assert_eq!(
        source.current_source_location(),
        SourceLocation { file: String::from("sheet.css"), line: 2, column: 17 }
    );
    let source = TokenSource::new("plain");
    assert_eq!(
        source.current_source_location(),
        SourceLocation { file: String::new(), line: 0, column: 1 }
    );
}

#[test]
fn ranges_that_are_none() {
    let mut source = TokenSource::over("abc def", 5, 2);
    assert!(source.is_exhausted());
    assert_eq!(source.expect_ident(), None);
    let mut source = TokenSource::over("abc def", 4, 100);
    assert!(source.is_exhausted());
    assert_eq!(source.expect_ident(), None);
    let mut source = TokenSource::over("é é", 1, 4);
    assert!(source.is_exhausted());
    assert_eq!(source.expect_ident(), None);
    let mut source = TokenSource::over("abc def", 0, 3);
    assert_eq!(source.expect_ident(), Some(String::from("abc")));
    assert!(source.is_exhausted());
}

use tablefy::header::{parse_header_name_param, HeaderError};
use tablefy::schema::{get_field_header_name, Field, TypeRepr};
use tablefy::tokens::{Attribute, Token};

fn header_attr(args: Vec<Token>) -> Attribute {
    Attribute { path: vec![String::from("header")], tts: vec![Token::Group(args)] }
}

fn text_field(name: &str, attrs: Vec<Attribute>) -> Field {
    Field {
        name: String::from(name),
        ty: TypeRepr::Path(vec![String::from("String")]),
        attrs,
    }
}

#[test]
fn parses_well_formed_header() {
    let attr = header_attr(vec![
        Token::Ident(String::from("name")),
        Token::Punct(String::from("=")),
        Token::Literal(String::from("\"Hmm... Nice Header\"")),
    ]);
    let r = parse_header_name_param(&attr);
    assert_eq!(r.ok(), Some(String::from("Hmm... Nice Header")));
}

#[test]
fn rejects_wrong_key_identifier() {
    let attr = header_attr(vec![
        Token::Ident(String::from("nam")),
        Token::Punct(String::from("=")),
        Token::Literal(String::from("\"X\"")),
    ]);
    match parse_header_name_param(&attr) {
        Err(HeaderError::KeyNotName { found }) => assert_eq!(found, "nam"),
        _ => panic!("expected the wrong-identifier error"),
    }
}

#[test]
fn rejects_missing_equals_sign() {
    // header(name "X"): the second token is a literal, not punctuation.
    let attr = header_attr(vec![
        Token::Ident(String::from("name")),
        Token::Literal(String::from("\"X\"")),
        Token::Literal(String::from("\"X\"")),
    ]);
    assert!(matches!(parse_header_name_param(&attr), Err(HeaderError::SeparatorNotPunct)));
}

#[test]
fn rejects_wrong_punctuation() {
    let attr = header_attr(vec![
        Token::Ident(String::from("name")),
        Token::Punct(String::from(":")),
        Token::Literal(String::from("\"X\"")),
    ]);
    match parse_header_name_param(&attr) {
        Err(HeaderError::SeparatorNotEquals { found }) => assert_eq!(found, ":"),
        _ => panic!("expected the wrong-punctuation error"),
    }
}

#[test]
fn rejects_unquoted_value() {
    // header(name = X): the third token is an identifier, not a literal.
    let attr = header_attr(vec![
        Token::Ident(String::from("name")),
        Token::Punct(String::from("=")),
        Token::Ident(String::from("X")),
    ]);
    assert!(matches!(parse_header_name_param(&attr), Err(HeaderError::ValueNotLiteral)));
}

#[test]
fn rejects_non_string_literal() {
    let attr = header_attr(vec![
        Token::Ident(String::from("name")),
        Token::Punct(String::from("=")),
        Token::Literal(String::from("42")),
    ]);
    match parse_header_name_param(&attr) {
        Err(HeaderError::ValueNotString { found }) => assert_eq!(found, "42"),
        _ => panic!("expected the non-string-literal error"),
    }
}

#[test]
fn rejects_key_of_wrong_kind() {
    let attr = header_attr(vec![
        Token::Literal(String::from("\"name\"")),
        Token::Punct(String::from("=")),
        Token::Literal(String::from("\"X\"")),
    ]);
    assert!(matches!(parse_header_name_param(&attr), Err(HeaderError::KeyNotIdent)));
}

#[test]
fn rejects_too_few_tokens() {
    let attr = header_attr(vec![
        Token::Ident(String::from("name")),
        Token::Punct(String::from("=")),
    ]);
    assert!(matches!(parse_header_name_param(&attr), Err(HeaderError::MissingTokens)));
}

#[test]
fn rejects_extra_tokens() {
    let attr = header_attr(vec![
        Token::Ident(String::from("name")),
        Token::Punct(String::from("=")),
        Token::Literal(String::from("\"X\"")),
        Token::Punct(String::from(",")),
    ]);
    assert!(matches!(parse_header_name_param(&attr), Err(HeaderError::ExtraTokens)));
}

#[test]
fn rejects_missing_argument_group() {
    let no_tts = Attribute { path: vec![String::from("header")], tts: vec![] };
    assert!(matches!(parse_header_name_param(&no_tts), Err(HeaderError::NoArgumentList)));
    let no_group = Attribute {
        path: vec![String::from("header")],
        tts: vec![Token::Ident(String::from("name"))],
    };
    assert!(matches!(parse_header_name_param(&no_group), Err(HeaderError::NoArgumentList)));
}

#[test]
fn malformed_annotations_give_distinct_errors() {
    // The three canonical malformed shapes are told apart by position.
    let wrong_key = header_attr(vec![
        Token::Ident(String::from("nam")),
        Token::Punct(String::from("=")),
        Token::Literal(String::from("\"X\"")),
    ]);
    let missing_equals = header_attr(vec![
        Token::Ident(String::from("name")),
        Token::Literal(String::from("\"X\"")),
        Token::Literal(String::from("\"X\"")),
    ]);
    let unquoted = header_attr(vec![
        Token::Ident(String::from("name")),
        Token::Punct(String::from("=")),
        Token::Ident(String::from("X")),
    ]);
    assert!(matches!(
        parse_header_name_param(&wrong_key),
        Err(HeaderError::KeyNotName { .. })
    ));
    assert!(matches!(
        parse_header_name_param(&missing_equals),
        Err(HeaderError::SeparatorNotPunct)
    ));
    assert!(matches!(
        parse_header_name_param(&unquoted),
        Err(HeaderError::ValueNotLiteral)
    ));
}

#[test]
fn field_without_header_annotation_keeps_its_name() {
    let field = text_field("something", vec![]);
    assert_eq!(get_field_header_name(&field).ok(), Some(String::from("something")));
}

#[test]
fn field_with_override_uses_the_label() {
    let field = text_field(
        "something",
        vec![header_attr(vec![
            Token::Ident(String::from("name")),
            Token::Punct(String::from("=")),
            Token::Literal(String::from("\"We Have Here!\"")),
        ])],
    );
    assert_eq!(get_field_header_name(&field).ok(), Some(String::from("We Have Here!")));
}

#[test]
fn unrelated_annotations_are_ignored() {
    let other = Attribute {
        path: vec![String::from("serde"), String::from("rename")],
        tts: vec![Token::Group(vec![Token::Ident(String::from("all"))])],
    };
    let field = text_field("plain", vec![other]);
    assert_eq!(get_field_header_name(&field).ok(), Some(String::from("plain")));
}

#[test]
fn first_header_annotation_wins() {
    let first = header_attr(vec![
        Token::Ident(String::from("name")),
        Token::Punct(String::from("=")),
        Token::Literal(String::from("\"First\"")),
    ]);
    let second = header_attr(vec![
        Token::Ident(String::from("name")),
        Token::Punct(String::from("=")),
        Token::Literal(String::from("\"Second\"")),
    ]);
    let field = text_field("f", vec![first, second]);
    assert_eq!(get_field_header_name(&field).ok(), Some(String::from("First")));
}

#[test]
fn malformed_annotation_never_defaults_to_field_name() {
    let field = text_field(
        "f",
        vec![header_attr(vec![
            Token::Ident(String::from("nam")),
            Token::Punct(String::from("=")),
            Token::Literal(String::from("\"X\"")),
        ])],
    );
    assert!(get_field_header_name(&field).is_err());
}

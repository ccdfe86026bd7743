use com_shim::ClassDefinition;
use com_shim::Expected;
use com_shim::GenerationError;
use com_shim::Member;
use com_shim::Type;
use com_shim::parse_class;
use com_shim::tokenize;

fn parse(input: &str) -> Result<ClassDefinition, GenerationError> {
    let tokens = tokenize(input)?;
    parse_class(&tokens, input.chars().count())
}

#[test]
fn missing_colon_names_the_expected_token() {
    // The member `Bar i32` lacks its `:`; generation fails at once, naming
    // `:` as the expected token, and produces no output.
    let r = parse("class Foo { Bar i32 }");
    match r {
        Err(GenerationError::ExpectedToken { token, at }) => {
            assert_eq!(token, Expected::Colon);
            assert_eq!(token.describe(), ":");
            assert_eq!(at, 16);
        },
        other => panic!("expected a missing-colon failure, got {:?}", other),
    }
}

#[test]
fn empty_class_parses() {
    let c = parse("class Foo { }").unwrap();
    assert_eq!(c.name, "Foo");
    assert!(c.parents.is_empty());
    assert!(c.members.is_empty());
    assert!(c.attributes.is_empty());
}

#[test]
fn property_parses() {
    let c = parse("class Foo { Bar: i32 }").unwrap();
    assert_eq!(c.members.len(), 1);
    match &c.members[0] {
        Member::Property { name, ty, mutable, attributes } => {
            assert_eq!(name, "Bar");
            assert_eq!(*ty, Type::I32);
            assert!(!*mutable);
            assert!(attributes.is_empty());
        },
        other => panic!("expected a property, got {:?}", other),
    }
}

#[test]
fn mutable_property_parses() {
    let c = parse("class Foo { mut Bar: bool }").unwrap();
    match &c.members[0] {
        Member::Property { name, ty, mutable, .. } => {
            assert_eq!(name, "Bar");
            assert_eq!(*ty, Type::Bool);
            assert!(*mutable);
        },
        other => panic!("expected a property, got {:?}", other),
    }
}

#[test]
fn method_with_params_and_return_parses() {
    let c = parse("class Foo { fn Baz(String, u64) -> bool }").unwrap();
    match &c.members[0] {
        Member::Method { name, params, ret, .. } => {
            assert_eq!(name, "Baz");
            assert_eq!(params, &vec![Type::Str, Type::U64]);
            assert_eq!(*ret, Some(Type::Bool));
        },
        other => panic!("expected a method, got {:?}", other),
    }
}

#[test]
fn method_without_return_parses() {
    let c = parse("class Foo { fn SetFocus() }").unwrap();
    match &c.members[0] {
        Member::Method { name, params, ret, .. } => {
            assert_eq!(name, "SetFocus");
            assert!(params.is_empty());
            assert_eq!(*ret, None);
        },
        other => panic!("expected a method, got {:?}", other),
    }
}

#[test]
fn parents_parse_in_order() {
    let c = parse("class GuiTextField: GuiVComponent + GuiComponent { }").unwrap();
    assert_eq!(c.parents, vec!["GuiVComponent".to_string(), "GuiComponent".to_string()]);
}

#[test]
fn trailing_comma_is_allowed() {
    let c = parse("class Foo { Bar: i32, mut Baz: u8, }").unwrap();
    assert_eq!(c.members.len(), 2);
}

#[test]
fn trailing_comma_in_params_is_allowed() {
    let c = parse("class Foo { fn F(i32,) }").unwrap();
    match &c.members[0] {
        Member::Method { params, .. } => assert_eq!(params, &vec![Type::I32]),
        other => panic!("expected a method, got {:?}", other),
    }
}

#[test]
fn doc_comments_attach_to_members() {
    let c = parse("/// The class\nclass Foo {\n    /// The caret position\n    Bar: i64,\n}")
        .unwrap();
    assert_eq!(c.attributes, vec!["/// The class".to_string()]);
    match &c.members[0] {
        Member::Property { attributes, .. } => {
            assert_eq!(attributes, &vec!["/// The caret position".to_string()]);
        },
        other => panic!("expected a property, got {:?}", other),
    }
}

#[test]
fn attribute_groups_attach_verbatim() {
    let c = parse("#[cfg(test_helper)] class Foo { #[allow(dead_code)] Bar: u16 }").unwrap();
    assert_eq!(c.attributes, vec!["#[cfg(test_helper)]".to_string()]);
    match &c.members[0] {
        Member::Property { attributes, .. } => {
            assert_eq!(attributes, &vec!["#[allow(dead_code)]".to_string()]);
        },
        other => panic!("expected a property, got {:?}", other),
    }
}

#[test]
fn plain_comments_are_dropped() {
    let c = parse("class Foo { // not kept\n Bar: i32 }").unwrap();
    match &c.members[0] {
        Member::Property { attributes, name, .. } => {
            assert!(attributes.is_empty());
            assert_eq!(name, "Bar");
        },
        other => panic!("expected a property, got {:?}", other),
    }
}

#[test]
fn object_type_references_another_wrapper() {
    let c = parse("class Foo { fn GetListProperty(String) -> GuiComponent }").unwrap();
    match &c.members[0] {
        Member::Method { ret, .. } => {
            assert_eq!(*ret, Some(Type::Object("GuiComponent".to_string())));
        },
        other => panic!("expected a method, got {:?}", other),
    }
}

#[test]
fn unsupported_scalar_is_rejected_citing_the_identifier() {
    let r = parse("class Foo { Bar: f32 }");
    match r {
        Err(GenerationError::UnknownType { ident, at }) => {
            assert_eq!(ident, "f32");
            assert_eq!(at, 17);
        },
        other => panic!("expected an unknown-type failure, got {:?}", other),
    }
}

#[test]
fn unsupported_scalar_in_params_is_rejected() {
    let r = parse("class Foo { fn F(i8) }");
    assert!(matches!(r, Err(GenerationError::UnknownType { .. })));
}

#[test]
fn wrong_keyword_fails() {
    let r = parse("struct Foo { }");
    match r {
        Err(GenerationError::ExpectedToken { token, at }) => {
            assert_eq!(token, Expected::ClassKeyword);
            assert_eq!(at, 0);
        },
        other => panic!("expected a class-keyword failure, got {:?}", other),
    }
}

#[test]
fn missing_brace_fails() {
    let r = parse("class Foo Bar: i32 }");
    match r {
        Err(GenerationError::ExpectedToken { token, .. }) => {
            assert_eq!(token, Expected::LeftBrace);
        },
        other => panic!("expected a left-brace failure, got {:?}", other),
    }
}

#[test]
fn unclosed_class_fails_at_input_end() {
    let r = parse("class Foo { Bar: i32");
    match r {
        Err(GenerationError::ExpectedToken { token, at }) => {
            assert_eq!(token, Expected::Comma);
            assert_eq!(at, 20);
        },
        other => panic!("expected a separator failure, got {:?}", other),
    }
}

#[test]
fn trailing_tokens_after_class_fail() {
    let r = parse("class Foo { } extra");
    match r {
        Err(GenerationError::ExpectedToken { token, at }) => {
            assert_eq!(token, Expected::End);
            assert_eq!(at, 14);
        },
        other => panic!("expected an end-of-input failure, got {:?}", other),
    }
}

#[test]
fn missing_separator_between_members_fails() {
    let r = parse("class Foo { Bar: i32 Baz: u8 }");
    match r {
        Err(GenerationError::ExpectedToken { token, .. }) => {
            assert_eq!(token, Expected::Comma);
        },
        other => panic!("expected a separator failure, got {:?}", other),
    }
}

#[test]
fn stray_character_fails_the_scan() {
    let r = parse("class Foo { Bar: i32 % }");
    match r {
        Err(GenerationError::UnexpectedChar { at }) => assert_eq!(at, 21),
        other => panic!("expected an unexpected-character failure, got {:?}", other),
    }
}

#[test]
fn unterminated_attribute_fails() {
    let r = parse("#[doc class Foo { }");
    match r {
        Err(GenerationError::ExpectedToken { token, .. }) => {
            assert_eq!(token, Expected::RightBracket);
        },
        other => panic!("expected a right-bracket failure, got {:?}", other),
    }
}

#[test]
fn missing_paren_after_method_name_fails() {
    let r = parse("class Foo { fn Baz -> bool }");
    match r {
        Err(GenerationError::ExpectedToken { token, .. }) => {
            assert_eq!(token, Expected::LeftParen);
        },
        other => panic!("expected a left-paren failure, got {:?}", other),
    }
}

#[test]
fn full_example_parses() {
    let c = parse(
        "/// A text field component\n\
         class GuiTextField: GuiVComponent + GuiComponent {\n\
             /// The caret position\n\
             CaretPosition: i64,\n\
             /// The displayed text\n\
             DisplayedText: String,\n\
             /// Whether the field is highlighted\n\
             mut Highlighted: bool,\n\
             /// Get a property from the component\n\
             fn GetListProperty(String) -> GuiComponent,\n\
         }",
    )
    .unwrap();
    assert_eq!(c.name, "GuiTextField");
    assert_eq!(c.parents.len(), 2);
    assert_eq!(c.members.len(), 4);
}

#[test]
fn empty_input_has_no_tokens_and_no_class() {
    assert_eq!(tokenize("").unwrap().len(), 0);
    let r = parse("");
    match r {
        Err(GenerationError::ExpectedToken { token, at }) => {
            assert_eq!(token, Expected::ClassKeyword);
            assert_eq!(at, 0);
        },
        other => panic!("expected a class-keyword failure, got {:?}", other),
    }
}

#[test]
fn tokenizer_reads_the_arrow_as_one_token() {
    let ts = tokenize("->").unwrap();
    assert_eq!(ts.len(), 1);
    assert!(matches!(ts[0].kind, com_shim::TokenKind::Arrow));
    assert_eq!(ts[0].at, 0);
}

#[test]
fn lone_dash_fails_the_scan() {
    let r = tokenize("- >");
    assert!(matches!(r, Err(GenerationError::UnexpectedChar { at: 0 })));
}

#[test]
fn expected_tokens_describe_themselves() {
    assert_eq!(Expected::ClassKeyword.describe(), "class");
    assert_eq!(Expected::Ident.describe(), "identifier");
    assert_eq!(Expected::Colon.describe(), ":");
    assert_eq!(Expected::Comma.describe(), ",");
    assert_eq!(Expected::LeftBrace.describe(), "{");
    assert_eq!(Expected::RightBrace.describe(), "}");
    assert_eq!(Expected::LeftParen.describe(), "(");
    assert_eq!(Expected::RightParen.describe(), ")");
    assert_eq!(Expected::End.describe(), "end of input");
}

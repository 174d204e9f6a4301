use boil::parse::{BoilParse, ParseError};
use boil::token::{Delim, Token};

fn id(s: &str) -> Token {
    Token::Ident(s.to_string())
}

fn punct(c: char) -> Token {
    Token::Punct(c)
}

fn body(ts: Vec<Token>) -> Token {
    Token::Group(Delim::Paren, ts)
}

fn parse(ts: &Vec<Token>) -> BoilParse {
    match BoilParse::new(ts) {
        Ok(d) => d,
        Err(e) => panic!("{}", e.message()),
    }
}

#[test]
fn plain_wrapper_declaration() {
    // struct Foo(u8);
    let ts = vec![id("struct"), id("Foo"), body(vec![id("u8")]), punct(';')];
    let d = parse(&ts);
    assert_eq!(d.name, "Foo");
    assert_eq!(d.imp, "u8");
    assert_eq!(d.wrap_generics_complex, "");
    assert_eq!(d.wrap_generics_simple, "");
    assert_eq!(d.imp_generics, "");
    assert_eq!(d.vis, "");
    assert_eq!(d.where_clause, "");
}

#[test]
fn bounded_generic_declaration() {
    // struct Foo<G: Sync>(Imp<G>);
    let ts = vec![
        id("struct"),
        id("Foo"),
        punct('<'),
        id("G"),
        punct(':'),
        id("Sync"),
        punct('>'),
        body(vec![id("Imp"), punct('<'), id("G"), punct('>')]),
        punct(';'),
    ];
    let d = parse(&ts);
    assert_eq!(d.name, "Foo");
    assert_eq!(d.wrap_generics_complex, "<G: Sync>");
    assert_eq!(d.wrap_generics_simple, "<G>");
    assert_eq!(d.imp, "Imp");
    assert_eq!(d.imp_generics, "<G>");
}

#[test]
fn simple_form_is_bare_names_in_source_order() {
    // struct A<'a,'b: 'a, C: Sync + Send, D: Tr<Assoc = E>>(X);
    let ts = vec![
        id("struct"),
        id("A"),
        punct('<'),
        punct('\''),
        id("a"),
        punct(','),
        punct('\''),
        id("b"),
        punct(':'),
        punct('\''),
        id("a"),
        punct(','),
        id("C"),
        punct(':'),
        id("Sync"),
        punct('+'),
        id("Send"),
        punct(','),
        id("D"),
        punct(':'),
        id("Tr"),
        punct('<'),
        id("Assoc"),
        punct('='),
        id("E"),
        punct('>'),
        punct('>'),
        body(vec![id("X")]),
        punct(';'),
    ];
    let d = parse(&ts);
    assert_eq!(d.wrap_generics_simple, "<'a,'b,C,D>");
    assert_eq!(d.wrap_generics_complex, "<'a,'b: 'a,C: Sync+Send,D: Tr<Assoc=E>>");
    assert_eq!(d.imp, "X");
}

#[test]
fn nested_associated_type_equality_balances() {
    // struct F<C: Tr<Assoc = dyn Other<Assoc = D>>>(u8);
    let ts = vec![
        id("struct"),
        id("F"),
        punct('<'),
        id("C"),
        punct(':'),
        id("Tr"),
        punct('<'),
        id("Assoc"),
        punct('='),
        id("dyn"),
        id("Other"),
        punct('<'),
        id("Assoc"),
        punct('='),
        id("D"),
        punct('>'),
        punct('>'),
        punct('>'),
        body(vec![id("u8")]),
        punct(';'),
    ];
    let d = parse(&ts);
    assert_eq!(d.wrap_generics_complex, "<C: Tr<Assoc=dyn Other<Assoc=D>>>");
    let opens = d.wrap_generics_complex.chars().filter(|c| *c == '<').count();
    let closes = d.wrap_generics_complex.chars().filter(|c| *c == '>').count();
    assert_eq!(opens, closes);
    assert_eq!(d.wrap_generics_simple, "<C>");
}

#[test]
fn parsing_twice_yields_identical_fields() {
    let ts = vec![
        id("struct"),
        id("Foo"),
        punct('<'),
        id("G"),
        punct(':'),
        id("Sync"),
        punct('>'),
        body(vec![id("pub"), id("Imp"), punct('<'), id("G"), punct('>')]),
        punct(';'),
    ];
    let d1 = parse(&ts);
    let d2 = parse(&ts);
    assert_eq!(d1.name, d2.name);
    assert_eq!(d1.wrap_generics_complex, d2.wrap_generics_complex);
    assert_eq!(d1.wrap_generics_simple, d2.wrap_generics_simple);
    assert_eq!(d1.imp, d2.imp);
    assert_eq!(d1.imp_generics, d2.imp_generics);
    assert_eq!(d1.vis, d2.vis);
    assert_eq!(d1.where_clause, d2.where_clause);
}

#[test]
fn payload_visibility_pub() {
    // struct Foo(pub u8);
    let ts = vec![id("struct"), id("Foo"), body(vec![id("pub"), id("u8")]), punct(';')];
    let d = parse(&ts);
    assert_eq!(d.vis, "pub");
    assert_eq!(d.imp, "u8");
}

#[test]
fn payload_visibility_pub_crate() {
    // struct Foo(pub(crate) u8);
    let ts = vec![
        id("struct"),
        id("Foo"),
        body(vec![id("pub"), Token::Group(Delim::Paren, vec![id("crate")]), id("u8")]),
        punct(';'),
    ];
    let d = parse(&ts);
    assert_eq!(d.vis, "pub(crate)");
    assert_eq!(d.imp, "u8");
}

#[test]
fn payload_path_with_separators() {
    // struct Foo(imp::Foo);
    let ts = vec![
        id("struct"),
        id("Foo"),
        body(vec![id("imp"), punct(':'), punct(':'), id("Foo")]),
        punct(';'),
    ];
    let d = parse(&ts);
    assert_eq!(d.imp, "imp::Foo");
}

#[test]
fn trait_object_payload_keeps_word_separation() {
    // struct Wrap(dyn Trait);
    let ts = vec![id("struct"), id("Wrap"), body(vec![id("dyn"), id("Trait")]), punct(';')];
    let d = parse(&ts);
    assert_eq!(d.imp, "dyn Trait");
}

#[test]
fn where_clause_is_kept() {
    // struct Foo(u8) where u8: Sync;
    let ts = vec![
        id("struct"),
        id("Foo"),
        body(vec![id("u8")]),
        id("where"),
        id("u8"),
        punct(':'),
        id("Sync"),
        punct(';'),
    ];
    let d = parse(&ts);
    assert_eq!(d.where_clause, "where u8:Sync");
}

#[test]
fn tokens_before_struct_are_skipped() {
    let ts = vec![
        punct('#'),
        Token::Group(Delim::Bracket, vec![id("derive")]),
        id("pub"),
        id("struct"),
        id("Foo"),
        body(vec![id("u8")]),
        punct(';'),
    ];
    let d = parse(&ts);
    assert_eq!(d.name, "Foo");
}

#[test]
fn malformed_body_is_a_fatal_diagnostic() {
    // struct Foo(; — the body never opens a valid path before `;`.
    let ts = vec![id("struct"), id("Foo"), body(vec![punct(';')])];
    match BoilParse::new(&ts) {
        Ok(_) => panic!("a body without a path must not parse"),
        Err(e) => {
            assert!(matches!(e, ParseError::MalformedBody(_)));
            assert!(e.message().contains("expected the body of a struct"));
        }
    }
}

#[test]
fn missing_struct_keyword() {
    let ts = vec![id("enum"), id("Foo")];
    match BoilParse::new(&ts) {
        Ok(_) => panic!("no `struct` keyword must not parse"),
        Err(e) => {
            assert!(matches!(e, ParseError::MissingKeyword(_)));
            // The diagnostic cites the most recently consumed token.
            assert_eq!(e.message(), "expected a `struct` keyword near Foo");
        }
    }
}

#[test]
fn empty_input_has_no_content() {
    let ts: Vec<Token> = vec![];
    match BoilParse::new(&ts) {
        Ok(_) => panic!("empty input must not parse"),
        Err(e) => {
            assert!(matches!(e, ParseError::MissingKeyword(_)));
            assert_eq!(e.message(), "expected a `struct` keyword, but the input has no content");
        }
    }
}

#[test]
fn missing_name_identifier() {
    let ts = vec![id("struct"), punct('!')];
    match BoilParse::new(&ts) {
        Ok(_) => panic!("a non-identifier name must not parse"),
        Err(e) => {
            assert!(matches!(e, ParseError::MissingIdentifier(_)));
            assert_eq!(e.message(), "expected an identifier near !");
        }
    }
}

#[test]
fn unbalanced_generics_never_close() {
    let ts = vec![id("struct"), id("Foo"), punct('<'), id("G")];
    match BoilParse::new(&ts) {
        Ok(_) => panic!("unbalanced generics must not parse"),
        Err(e) => assert!(matches!(e, ParseError::UnbalancedGenerics(_))),
    }
}

#[test]
fn unbalanced_nested_capture_never_closes() {
    let ts = vec![
        id("struct"),
        id("Foo"),
        punct('<'),
        id("C"),
        punct(':'),
        id("Tr"),
        punct('<'),
        id("Assoc"),
    ];
    match BoilParse::new(&ts) {
        Ok(_) => panic!("an unclosed capture must not parse"),
        Err(e) => assert!(matches!(e, ParseError::UnbalancedGenerics(_))),
    }
}

#[test]
fn missing_body_group() {
    let ts = vec![id("struct"), id("Foo"), punct(';')];
    match BoilParse::new(&ts) {
        Ok(_) => panic!("a declaration without a body must not parse"),
        Err(e) => assert!(matches!(e, ParseError::MalformedBody(_))),
    }
}

#[test]
fn unterminated_where_clause() {
    let ts = vec![id("struct"), id("Foo"), body(vec![id("u8")]), id("where"), id("u8")];
    match BoilParse::new(&ts) {
        Ok(_) => panic!("an unterminated where-clause must not parse"),
        Err(e) => {
            assert!(matches!(e, ParseError::MalformedWhere(_)));
            assert_eq!(e.message(), "expected end of where clause near u8");
        }
    }
}

#[test]
fn unsupported_token_in_generics() {
    let ts = vec![
        id("struct"),
        id("Foo"),
        punct('<'),
        Token::Literal("3".to_string()),
        punct('>'),
        body(vec![id("u8")]),
        punct(';'),
    ];
    match BoilParse::new(&ts) {
        Ok(_) => panic!("a literal generic parameter must not parse"),
        Err(e) => {
            assert!(matches!(e, ParseError::Unsupported(_)));
            assert_eq!(e.message(), "unsupported construct near 3");
        }
    }
}

#[test]
fn unsupported_token_after_body() {
    let ts = vec![id("struct"), id("Foo"), body(vec![id("u8")]), id("oops"), punct(';')];
    match BoilParse::new(&ts) {
        Ok(_) => panic!("a stray token after the body must not parse"),
        Err(e) => assert!(matches!(e, ParseError::Unsupported(_))),
    }
}

use boil::{Example, ExamplePayload, ExampleUnsized, is_scoped};
use boil::parse::BoilParse;
use boil::token::{Delim, Token, char_string, str_eq, token_text};

fn ident(s: &str) -> Token {
    Token::Ident(s.to_string())
}

fn pt(c: char) -> Token {
    Token::Punct(c)
}

fn paren(ts: Vec<Token>) -> Token {
    Token::Group(Delim::Paren, ts)
}

fn parse(ts: &Vec<Token>) -> BoilParse {
    match BoilParse::new(ts) {
        Ok(d) => d,
        Err(e) => panic!("{}", e.message()),
    }
}

fn foo_u8() -> BoilParse {
    let ts = vec![ident("struct"), ident("Foo"), paren(vec![ident("u8")]), pt(';')];
    parse(&ts)
}

fn wrap_dyn() -> BoilParse {
    let ts = vec![ident("struct"), ident("Wrap"), paren(vec![ident("dyn"), ident("Trait")]), pt(';')];
    parse(&ts)
}

#[test]
fn sized_catalog_for_plain_wrapper() {
    let out = foo_u8().implement(false);
    // Both view directions, for each reference-view trait.
    assert!(out.contains("AsRef<Foo> for u8"));
    assert!(out.contains("AsRef<u8> for Foo"));
    assert!(out.contains("AsMut<Foo> for u8"));
    assert!(out.contains("AsMut<u8> for Foo"));
    assert!(out.contains("std::borrow::Borrow<Foo> for u8"));
    assert!(out.contains("std::borrow::BorrowMut<u8> for Foo"));
    // Ownership transfer by value, both directions.
    assert!(out.contains("From<u8> for Foo"));
    assert!(out.contains("From<Foo> for u8"));
    assert!(out.contains("Self(t)"));
    // Heap, pin and shared-ownership projections.
    assert!(out.contains("From<Box<u8>> for Box<Foo>"));
    assert!(out.contains("From<Box<Foo>> for Box<u8>"));
    assert!(out.contains("core::pin::Pin<&mut Foo>"));
    assert!(out.contains("fn from_arc(arc: std::sync::Arc<u8>) -> std::sync::Arc<Foo>"));
    assert!(out.contains("fn to_arc(self: std::sync::Arc<Self>) -> std::sync::Arc<u8>"));
    assert!(out.contains("fn from_rc(rc: std::rc::Rc<u8>) -> std::rc::Rc<Foo>"));
    assert!(out.contains("fn to_rc(self: std::rc::Rc<Self>) -> std::rc::Rc<u8>"));
    // Result adaptation by value.
    assert!(out.contains("fn from_result<T: Into<Self>, E: Into<ErrWrapped>, ErrWrapped>"));
    assert!(out.contains("-> Result<u8, EUnwrapped>"));
    // Pointer-indirection accessors, since not scoped.
    assert!(out.contains("std::ops::Deref for Foo"));
    assert!(out.contains("std::ops::DerefMut for Foo"));
}

#[test]
fn zero_generics_render_no_generic_headers() {
    let d = foo_u8();
    assert_eq!(d.wrap_generics_complex, "");
    assert_eq!(d.wrap_generics_simple, "");
    let out = d.implement(false);
    // No `impl` header carries a generic parameter list.
    assert!(!out.contains("impl <"));
    assert!(!out.contains("impl<"));
}

#[test]
fn generics_are_carried_onto_every_header() {
    let ts = vec![
        ident("struct"),
        ident("Foo"),
        pt('<'),
        ident("G"),
        pt(':'),
        ident("Sync"),
        pt('>'),
        paren(vec![ident("Imp"), pt('<'), ident("G"), pt('>')]),
        pt(';'),
    ];
    let out = parse(&ts).implement(false);
    assert!(out.contains("impl <G: Sync> AsRef<Foo<G>> for Imp<G>"));
    assert!(out.contains("impl <G: Sync> From<Imp<G>> for Foo<G>"));
    assert!(out.contains("impl <G: Sync> std::ops::Deref for Foo<G>"));
}

#[test]
fn scoped_mode_omits_indirection_accessors_only() {
    let out = foo_u8().implement(true);
    assert!(!out.contains("Deref"));
    assert!(out.contains("AsRef<Foo> for u8"));
    assert!(out.contains("From<u8> for Foo"));
    assert!(out.contains("From<Box<u8>> for Box<Foo>"));
    assert!(out.contains("core::pin::Pin<&Foo>"));
    assert!(out.contains("fn from_arc"));
    assert!(out.contains("fn from_result"));
}

#[test]
fn private_payload_accessibility_is_kept() {
    // A private payload field: every generated free function stays private.
    let d = foo_u8();
    assert_eq!(d.vis, "");
    let out = d.implement(true);
    assert!(!out.contains("pub fn"));
    // A pub payload field: the generated free functions are pub.
    let ts = vec![ident("struct"), ident("Foo"), paren(vec![ident("pub"), ident("u8")]), pt(';')];
    let out_pub = parse(&ts).implement(true);
    assert!(out_pub.contains("pub fn from_arc"));
    assert!(out_pub.contains("pub fn from_result"));
}

#[test]
fn unsized_catalog_omits_by_value_conversions() {
    let out = wrap_dyn().implement_unsized(false);
    // No ownership transfer by value, no by-value result adaptation.
    assert!(!out.contains("Self(t)"));
    assert!(!out.contains("from_result<T:"));
    // Reference views carry the explicit 'static annotation.
    assert!(out.contains("fn as_ref(&self) -> &(dyn Trait + 'static)"));
    assert!(out.contains("AsRef<Wrap> for dyn Trait"));
    // Reference conversions stand in for the by-value ones.
    assert!(out.contains("From<&dyn Trait> for &Wrap"));
    assert!(out.contains("From<&mut Wrap> for &mut dyn Trait"));
    // Result adaptation comes as the split reference pairs.
    assert!(out.contains("fn from_result<E: Into<ErrWrapped>, ErrWrapped>(r: Result<&dyn Trait, E>)"));
    assert!(out.contains("fn from_result_mut"));
    assert!(out.contains("fn into_result_mut"));
    // Projections and accessors are still present.
    assert!(out.contains("From<Box<Wrap>> for Box<dyn Trait>"));
    assert!(out.contains("fn to_rc"));
    assert!(out.contains("std::ops::Deref for Wrap"));
}

#[test]
fn unsized_scoped_omits_indirection_accessors() {
    let out = wrap_dyn().implement_unsized(true);
    assert!(!out.contains("Deref"));
    assert!(out.contains("from_result_mut"));
}

#[test]
fn display_forwarding_impl() {
    let out = foo_u8().implement_display();
    assert!(out.contains("impl  std::fmt::Display for Foo"));
    assert!(out.contains("std::fmt::Display::fmt(&self.0, formatter)"));
    assert!(!out.contains("std::error::Error"));
}

#[test]
fn error_forwarding_impl() {
    let out = foo_u8().implement_error();
    assert!(out.contains("impl  std::error::Error for Foo"));
    assert!(out.contains("fn source(&self) -> Option<&(dyn std::error::Error + 'static)>"));
    assert!(out.contains("self.0.description()"));
    assert!(out.contains("fn cause(&self) -> Option<&dyn std::error::Error>"));
}

#[test]
fn where_clause_is_rendered_on_headers() {
    let ts = vec![
        ident("struct"),
        ident("Foo"),
        paren(vec![ident("u8")]),
        ident("where"),
        ident("u8"),
        pt(':'),
        ident("Sync"),
        pt(';'),
    ];
    let out = parse(&ts).implement(false);
    assert!(out.contains("AsRef<Foo> for u8 where u8:Sync {"));
}

#[test]
fn scoped_modifier_is_found_anywhere() {
    assert!(is_scoped(&vec![ident("scoped")]));
    assert!(is_scoped(&vec![ident("other"), pt(','), ident("scoped")]));
    assert!(!is_scoped(&vec![]));
    assert!(!is_scoped(&vec![ident("scope")]));
    assert!(!is_scoped(&vec![ident("unscoped")]));
}

#[test]
fn token_text_renders_groups_and_words() {
    let g = Token::Group(Delim::Paren, vec![ident("dyn"), ident("Trait")]);
    assert_eq!(token_text(&g), "(dyn Trait)");
    let b = Token::Group(Delim::Bracket, vec![ident("u8"), pt(';'), Token::Literal("4".to_string())]);
    assert_eq!(token_text(&b), "[u8;4]");
    let n = Token::Group(Delim::Brace, vec![]);
    assert_eq!(token_text(&n), "{}");
}

struct SamplePayload;

impl ExamplePayload for SamplePayload {}

#[test]
fn example_wrappers_hold_one_payload_field() {
    let e = Example(7);
    assert_eq!(e.0, 7);
    let u = ExampleUnsized(Box::new(SamplePayload));
    let _payload: &dyn ExamplePayload = &*u.0;
}

#[test]
fn character_helpers_depend_on_their_arguments() {
    assert_eq!(char_string('<'), "<");
    assert_eq!(char_string('z'), "z");
    assert!(str_eq("abc", "abc"));
    assert!(!str_eq("abc", "abd"));
    assert!(!str_eq("abc", "ab"));
}

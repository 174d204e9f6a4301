//! The declaration parser.
//!
//! [`BoilParse::new`] consumes a token sequence of the form
//! `[visibility] struct Name[<generics>](visibility Payload[<generics>])[where ...];`
//! with a forward-only cursor and no backtracking, and produces a structured
//! declaration record. Generic parameter lists may carry lifetime bounds,
//! trait bounds, `+`-combined bounds, and associated-type equality
//! constraints (`Trait<Assoc = Type>`) to arbitrary nesting depth; the latter
//! are captured as opaque, bracket-balanced text.
//!
//! Parsing is total and deterministic: the functions below are specified
//! against spec-level readers (`spec_parse` and its stages) that consume one
//! token per step, so every outcome — the parsed record or the diagnostic —
//! is pinned down for every input. A failure never yields a partial result.

use vstd::prelude::*;

use crate::token::{
    Buf, BufView, Delim, Token, char_string, empty_buf, spec_push_sym, spec_push_token,
    spec_push_word, spec_splice, spec_token_text, str_eq, token_text,
};

verus! {

/// The mathematical content of a parsed declaration: the text of each field.
pub struct DeclView {
    pub name: Seq<char>,
    pub wrap_generics_complex: Seq<char>,
    pub wrap_generics_simple: Seq<char>,
    pub imp: Seq<char>,
    pub imp_generics: Seq<char>,
    pub vis: Seq<char>,
    pub where_clause: Seq<char>,
}

/// A parse failure, by kind, carrying the text of the nearby token.
pub enum ErrView {
    /// The keyword `struct` was not found before the input ended.
    MissingKeyword(Seq<char>),
    /// The token after `struct` is not an identifier, or is missing.
    MissingIdentifier(Seq<char>),
    /// An opened angle-bracket list never closes before the input ends.
    UnbalancedGenerics(Seq<char>),
    /// The parenthesized tuple body is absent or empty, or holds no path.
    MalformedBody(Seq<char>),
    /// A where-clause is opened but never terminated by `;`.
    MalformedWhere(Seq<char>),
    /// A token appears where the grammar has no rule for it.
    Unsupported(Seq<char>),
}

/// The structured output of the parser; one record per invocation.
pub struct BoilParse {
    /// The name of the wrapper type.
    pub name: String,
    /// Full generic parameter list with bounds, e.g. `<'a,'b: 'a, C: Sync>`.
    pub wrap_generics_complex: String,
    /// The same parameters as bare names, e.g. `<'a,'b,C>`.
    pub wrap_generics_simple: String,
    /// Path of the wrapped type, without its generic arguments.
    pub imp: String,
    /// The generic argument list applied to the payload path, e.g. `<A,B>`.
    pub imp_generics: String,
    /// Visibility qualifier of the payload field; empty means private.
    pub vis: String,
    /// The trailing where-clause, or empty.
    pub where_clause: String,
}

impl View for BoilParse {
    type V = DeclView;

    open spec fn view(&self) -> DeclView {
        DeclView {
            name: self.name@,
            wrap_generics_complex: self.wrap_generics_complex@,
            wrap_generics_simple: self.wrap_generics_simple@,
            imp: self.imp@,
            imp_generics: self.imp_generics@,
            vis: self.vis@,
            where_clause: self.where_clause@,
        }
    }
}

/// A parse failure, carrying the text of the nearby token for the diagnostic.
pub enum ParseError {
    MissingKeyword(String),
    MissingIdentifier(String),
    UnbalancedGenerics(String),
    MalformedBody(String),
    MalformedWhere(String),
    Unsupported(String),
}

impl View for ParseError {
    type V = ErrView;

    open spec fn view(&self) -> ErrView {
        match self {
            ParseError::MissingKeyword(s) => ErrView::MissingKeyword(s@),
            ParseError::MissingIdentifier(s) => ErrView::MissingIdentifier(s@),
            ParseError::UnbalancedGenerics(s) => ErrView::UnbalancedGenerics(s@),
            ParseError::MalformedBody(s) => ErrView::MalformedBody(s@),
            ParseError::MalformedWhere(s) => ErrView::MalformedWhere(s@),
            ParseError::Unsupported(s) => ErrView::Unsupported(s@),
        }
    }
}

/// The diagnostic text for a failure: the expected construct and the nearby
/// token.
pub open spec fn spec_message(e: ErrView) -> Seq<char> {
    match e {
        ErrView::MissingKeyword(near) => if near.len() == 0 {
            "expected a `struct` keyword, but the input has no content"@
        } else {
            "expected a `struct` keyword near "@ + near
        },
        ErrView::MissingIdentifier(near) => "expected an identifier near "@ + near,
        ErrView::UnbalancedGenerics(near) => "expected more `>` in the generics near "@ + near,
        ErrView::MalformedBody(near) => "expected the body of a struct near "@ + near,
        ErrView::MalformedWhere(near) => "expected end of where clause near "@ + near,
        ErrView::Unsupported(near) => "unsupported construct near "@ + near,
    }
}

impl ParseError {
    /// The diagnostic that aborts the invocation, naming the expected
    /// construct and the nearby token.
    pub fn message(&self) -> (r: String)
        ensures
            r@ == spec_message(self@),
    {
        match self {
            ParseError::MissingKeyword(near) => {
                if near.as_str().is_empty() {
                    String::from_str("expected a `struct` keyword, but the input has no content")
                } else {
                    let mut m = String::from_str("expected a `struct` keyword near ");
                    m.append(near.as_str());
                    m
                }
            },
            ParseError::MissingIdentifier(near) => {
                let mut m = String::from_str("expected an identifier near ");
                m.append(near.as_str());
                m
            },
            ParseError::UnbalancedGenerics(near) => {
                let mut m = String::from_str("expected more `>` in the generics near ");
                m.append(near.as_str());
                m
            },
            ParseError::MalformedBody(near) => {
                let mut m = String::from_str("expected the body of a struct near ");
                m.append(near.as_str());
                m
            },
            ParseError::MalformedWhere(near) => {
                let mut m = String::from_str("expected end of where clause near ");
                m.append(near.as_str());
                m
            },
            ParseError::Unsupported(near) => {
                let mut m = String::from_str("unsupported construct near ");
                m.append(near.as_str());
                m
            },
        }
    }
}

// ---------------------------------------------------------------------------
// Spec-level stages, in consumption order. Each takes the token sequence, a
// cursor, and the text of the most recently consumed token (for diagnostics),
// and consumes one token per recursive step.
// ---------------------------------------------------------------------------

/// Prefix skip: discards tokens until the keyword `struct`; the cursor comes
/// to rest just after it. Anything before `struct` is not interpreted.
pub open spec fn spec_find_struct(ts: Seq<Token>, i: int, near: Seq<char>) -> Result<
    (int, Seq<char>),
    ErrView,
>
    decreases ts.len() - i,
{
    if i < 0 || i >= ts.len() {
        Err(ErrView::MissingKeyword(near))
    } else {
        match ts[i] {
            Token::Ident(s) => if s@ == "struct"@ {
                Ok((i + 1, spec_token_text(ts[i])))
            } else {
                spec_find_struct(ts, i + 1, spec_token_text(ts[i]))
            },
            _ => spec_find_struct(ts, i + 1, spec_token_text(ts[i])),
        }
    }
}

/// The wrapper's name: the token right after `struct` must be an identifier.
pub open spec fn spec_take_name(ts: Seq<Token>, i: int, near: Seq<char>) -> Result<
    (Seq<char>, int),
    ErrView,
> {
    if i < 0 || i >= ts.len() {
        Err(ErrView::MissingIdentifier(near))
    } else {
        match ts[i] {
            Token::Ident(s) => Ok((s@, i + 1)),
            _ => Err(ErrView::MissingIdentifier(spec_token_text(ts[i]))),
        }
    }
}

/// Associated-type-equality capture: after a nested `<`, consume tokens
/// verbatim, tracking angle-bracket depth, until depth returns to zero. The
/// captured text is opaque: any token is accepted inside it.
pub open spec fn spec_assoc(
    ts: Seq<Token>,
    i: int,
    depth: int,
    acc: BufView,
    near: Seq<char>,
) -> Result<(BufView, int, Seq<char>), ErrView>
    decreases ts.len() - i,
{
    if i < 0 || i >= ts.len() {
        Err(ErrView::UnbalancedGenerics(near))
    } else {
        let t = ts[i];
        match t {
            Token::Punct(c) => if c == '>' {
                if depth <= 1 {
                    Ok((spec_push_sym(acc, seq!['>']), i + 1, seq!['>']))
                } else {
                    spec_assoc(ts, i + 1, depth - 1, spec_push_sym(acc, seq!['>']), seq!['>'])
                }
            } else if c == '<' {
                spec_assoc(ts, i + 1, depth + 1, spec_push_sym(acc, seq!['<']), seq!['<'])
            } else {
                spec_assoc(ts, i + 1, depth, spec_push_token(acc, t), spec_token_text(t))
            },
            _ => spec_assoc(ts, i + 1, depth, spec_push_token(acc, t), spec_token_text(t)),
        }
    }
}

/// A successful capture consumed at least one token and stayed within the
/// input; the parsers that splice a capture recurse on its end position.
pub proof fn lemma_assoc_advances(
    ts: Seq<Token>,
    i: int,
    depth: int,
    acc: BufView,
    near: Seq<char>,
)
    ensures
        spec_assoc(ts, i, depth, acc, near) matches Ok(r) ==> i < r.1 <= ts.len(),
    decreases ts.len() - i,
{
    if i < 0 || i >= ts.len() {
    } else {
        let t = ts[i];
        match t {
            Token::Punct(c) => if c == '>' {
                if depth <= 1 {
                } else {
                    lemma_assoc_advances(
                        ts,
                        i + 1,
                        depth - 1,
                        spec_push_sym(acc, seq!['>']),
                        seq!['>'],
                    );
                }
            } else if c == '<' {
                lemma_assoc_advances(ts, i + 1, depth + 1, spec_push_sym(acc, seq!['<']), seq!['<']);
            } else {
                lemma_assoc_advances(ts, i + 1, depth, spec_push_token(acc, t), spec_token_text(t));
            },
            _ => lemma_assoc_advances(ts, i + 1, depth, spec_push_token(acc, t), spec_token_text(t)),
        }
    }
}

/// The start of a capture: a `<` was just consumed, so the accumulator holds
/// `<` and the depth is one.
pub open spec fn spec_assoc_start(ts: Seq<Token>, i: int) -> Result<
    (BufView, int, Seq<char>),
    ErrView,
> {
    spec_assoc(ts, i, 1, spec_push_sym(empty_buf(), seq!['<']), seq!['<'])
}

/// The wrapper's generic parameter list, with bounds: two parallel texts are
/// built, the full list (`complex`) and the bare parameter names (`simple`).
/// Identifiers, `'`, `,` go to both; `>` at the top level ends the list.
/// A `:` switches into the bound sub-grammar, [`spec_complex_bound`].
pub open spec fn spec_complex_params(
    ts: Seq<Token>,
    i: int,
    complex: BufView,
    simple: BufView,
    near: Seq<char>,
) -> Result<(BufView, BufView, int, Seq<char>), ErrView>
    decreases ts.len() - i, 0int,
{
    if i < 0 || i >= ts.len() {
        Err(ErrView::UnbalancedGenerics(near))
    } else {
        let t = ts[i];
        match t {
            Token::Ident(s) => spec_complex_params(
                ts,
                i + 1,
                spec_push_word(complex, s@),
                spec_push_word(simple, s@),
                s@,
            ),
            Token::Punct(c) => if c == '>' {
                Ok(
                    (
                        spec_push_sym(complex, seq!['>']),
                        spec_push_sym(simple, seq!['>']),
                        i + 1,
                        seq!['>'],
                    ),
                )
            } else if c == ',' || c == '\'' {
                spec_complex_params(
                    ts,
                    i + 1,
                    spec_push_sym(complex, seq![c]),
                    spec_push_sym(simple, seq![c]),
                    seq![c],
                )
            } else if c == ':' {
                spec_complex_bound(ts, i + 1, spec_push_sym(complex, ": "@), simple, near)
            } else {
                Err(ErrView::Unsupported(spec_token_text(t)))
            },
            _ => Err(ErrView::Unsupported(spec_token_text(t))),
        }
    }
}

/// The bound of one generic parameter: its text goes to the complex list
/// only. A top-level `,` returns to the parameter list; a top-level `>` ends
/// everything; a nested `<` starts an associated-type capture, spliced back
/// verbatim.
pub open spec fn spec_complex_bound(
    ts: Seq<Token>,
    i: int,
    complex: BufView,
    simple: BufView,
    near: Seq<char>,
) -> Result<(BufView, BufView, int, Seq<char>), ErrView>
    decreases ts.len() - i, 1int,
    via spec_complex_bound_decreases
{
    if i < 0 || i >= ts.len() {
        Err(ErrView::UnbalancedGenerics(near))
    } else {
        let t = ts[i];
        match t {
            Token::Ident(s) => spec_complex_bound(ts, i + 1, spec_push_word(complex, s@), simple, s@),
            Token::Punct(c) => if c == '>' {
                Ok(
                    (
                        spec_push_sym(complex, seq!['>']),
                        spec_push_sym(simple, seq!['>']),
                        i + 1,
                        seq!['>'],
                    ),
                )
            } else if c == ',' {
                spec_complex_params(
                    ts,
                    i + 1,
                    spec_push_sym(complex, seq![',']),
                    spec_push_sym(simple, seq![',']),
                    seq![','],
                )
            } else if c == '<' {
                match spec_assoc_start(ts, i + 1) {
                    Ok(cap) => spec_complex_bound(
                        ts,
                        cap.1,
                        spec_splice(complex, cap.0),
                        simple,
                        cap.2,
                    ),
                    Err(e) => Err(e),
                }
            } else if c == '+' || c == ':' || c == '\'' {
                spec_complex_bound(ts, i + 1, spec_push_sym(complex, seq![c]), simple, seq![c])
            } else {
                Err(ErrView::Unsupported(spec_token_text(t)))
            },
            _ => Err(ErrView::Unsupported(spec_token_text(t))),
        }
    }
}

#[via_fn]
proof fn spec_complex_bound_decreases(
    ts: Seq<Token>,
    i: int,
    complex: BufView,
    simple: BufView,
    near: Seq<char>,
) {
    if 0 <= i < ts.len() {
        if ts[i] matches Token::Punct(c) && c == '<' {
            lemma_assoc_advances(ts, i + 1, 1, spec_push_sym(empty_buf(), seq!['<']), seq!['<']);
        }
    }
}

/// The payload's generic argument list, without bounds: identifiers, `'`,
/// `,`, `=` and nested associated-type captures, ended by a top-level `>`.
pub open spec fn spec_simple_params(
    ts: Seq<Token>,
    i: int,
    acc: BufView,
    near: Seq<char>,
) -> Result<(BufView, int, Seq<char>), ErrView>
    decreases ts.len() - i,
    via spec_simple_params_decreases
{
    if i < 0 || i >= ts.len() {
        Err(ErrView::UnbalancedGenerics(near))
    } else {
        let t = ts[i];
        match t {
            Token::Ident(s) => spec_simple_params(ts, i + 1, spec_push_word(acc, s@), s@),
            Token::Punct(c) => if c == '>' {
                Ok((spec_push_sym(acc, seq!['>']), i + 1, seq!['>']))
            } else if c == ',' || c == '\'' || c == '=' {
                spec_simple_params(ts, i + 1, spec_push_sym(acc, seq![c]), seq![c])
            } else if c == '<' {
                match spec_assoc_start(ts, i + 1) {
                    Ok(cap) => spec_simple_params(ts, cap.1, spec_splice(acc, cap.0), cap.2),
                    Err(e) => Err(e),
                }
            } else {
                Err(ErrView::Unsupported(spec_token_text(t)))
            },
            _ => Err(ErrView::Unsupported(spec_token_text(t))),
        }
    }
}

#[via_fn]
proof fn spec_simple_params_decreases(ts: Seq<Token>, i: int, acc: BufView, near: Seq<char>) {
    if 0 <= i < ts.len() {
        if ts[i] matches Token::Punct(c) && c == '<' {
            lemma_assoc_advances(ts, i + 1, 1, spec_push_sym(empty_buf(), seq!['<']), seq!['<']);
        }
    }
}

/// Payload generics as a whole: a no-op unless the token at `i` is `<`.
pub open spec fn spec_generics_simple(ts: Seq<Token>, i: int, near: Seq<char>) -> Result<
    (BufView, int, Seq<char>),
    ErrView,
> {
    if 0 <= i < ts.len() && ts[i] == Token::Punct('<') {
        spec_simple_params(ts, i + 1, spec_push_sym(empty_buf(), seq!['<']), near)
    } else {
        Ok((empty_buf(), i, near))
    }
}

/// Wrapper generics as a whole: a no-op unless the next token is `<`.
pub open spec fn spec_generics_complex(ts: Seq<Token>, i: int, near: Seq<char>) -> Result<
    (BufView, BufView, int, Seq<char>),
    ErrView,
> {
    if 0 <= i < ts.len() && ts[i] == Token::Punct('<') {
        spec_complex_params(
            ts,
            i + 1,
            spec_push_sym(empty_buf(), seq!['<']),
            spec_push_sym(empty_buf(), seq!['<']),
            near,
        )
    } else {
        Ok((empty_buf(), empty_buf(), i, near))
    }
}

/// The members of the parenthesized tuple body, in order: an optional `pub`
/// (and, right after one, an optional qualifier group forming `pub(crate)` or
/// `pub(in ...)`) into the visibility; then a path of identifiers and `:`
/// into the payload path; ended by `;`, by a `<` that starts the payload
/// generics, or by the end of the body. Returns path, visibility, payload
/// generics, and the last diagnostic token.
pub open spec fn spec_body_fields(
    inner: Seq<Token>,
    j: int,
    vis: BufView,
    path: BufView,
    near: Seq<char>,
) -> Result<(BufView, BufView, BufView, Seq<char>), ErrView>
    decreases inner.len() - j,
{
    if j < 0 || j >= inner.len() {
        Ok((path, vis, empty_buf(), near))
    } else {
        let t = inner[j];
        match t {
            Token::Ident(s) => if s@ == "pub"@ {
                spec_body_fields(inner, j + 1, spec_push_word(vis, s@), path, s@)
            } else {
                spec_body_fields(inner, j + 1, vis, spec_push_word(path, s@), s@)
            },
            Token::Group(_, _) => if vis.text == "pub"@ {
                spec_body_fields(inner, j + 1, spec_push_token(vis, t), path, spec_token_text(t))
            } else {
                spec_body_fields(inner, j + 1, vis, spec_push_token(path, t), spec_token_text(t))
            },
            Token::Punct(c) => if c == ':' {
                spec_body_fields(inner, j + 1, vis, spec_push_sym(path, seq![':']), seq![':'])
            } else if c == ';' {
                Ok((path, vis, empty_buf(), seq![';']))
            } else if c == '<' {
                match spec_generics_simple(inner, j, seq!['<']) {
                    Ok(g) => Ok((path, vis, g.0, g.2)),
                    Err(e) => Err(e),
                }
            } else {
                spec_body_fields(inner, j + 1, vis, spec_push_token(path, t), spec_token_text(t))
            },
            _ => spec_body_fields(inner, j + 1, vis, spec_push_token(path, t), spec_token_text(t)),
        }
    }
}

/// The payload body: the token at `i` must be a parenthesized group with at
/// least one member, and its members must yield a non-empty payload path.
pub open spec fn spec_body(ts: Seq<Token>, i: int, near: Seq<char>) -> Result<
    (BufView, BufView, BufView, int, Seq<char>),
    ErrView,
> {
    if i < 0 || i >= ts.len() {
        Err(ErrView::MalformedBody(near))
    } else {
        match ts[i] {
            Token::Group(d, g) => if d == Delim::Paren {
                if g@.len() == 0 {
                    Err(ErrView::MalformedBody(spec_token_text(ts[i])))
                } else {
                    match spec_body_fields(g@, 0, empty_buf(), empty_buf(), near) {
                        Ok(f) => if f.0.text.len() == 0 {
                            Err(ErrView::MalformedBody(f.3))
                        } else {
                            Ok((f.0, f.1, f.2, i + 1, f.3))
                        },
                        Err(e) => Err(e),
                    }
                }
            } else {
                Err(ErrView::MalformedBody(spec_token_text(ts[i])))
            },
            _ => Err(ErrView::MalformedBody(spec_token_text(ts[i]))),
        }
    }
}

/// The tail of a where-clause: token text is taken verbatim until a
/// top-level `;`.
pub open spec fn spec_where_tail(ts: Seq<Token>, i: int, acc: BufView, near: Seq<char>) -> Result<
    BufView,
    ErrView,
>
    decreases ts.len() - i,
{
    if i < 0 || i >= ts.len() {
        Err(ErrView::MalformedWhere(near))
    } else {
        let t = ts[i];
        match t {
            Token::Punct(c) => if c == ';' {
                Ok(acc)
            } else {
                spec_where_tail(ts, i + 1, spec_push_token(acc, t), spec_token_text(t))
            },
            _ => spec_where_tail(ts, i + 1, spec_push_token(acc, t), spec_token_text(t)),
        }
    }
}

/// After the payload body: either the keyword `where` followed by the clause
/// and its closing `;`, or directly `;` for an empty clause. Anything else is
/// unsupported. Tokens after the closing `;` are not interpreted.
pub open spec fn spec_after_body(ts: Seq<Token>, i: int, near: Seq<char>) -> Result<
    BufView,
    ErrView,
> {
    if i < 0 || i >= ts.len() {
        Err(ErrView::Unsupported(near))
    } else {
        match ts[i] {
            Token::Ident(s) => if s@ == "where"@ {
                spec_where_tail(ts, i + 1, spec_push_word(empty_buf(), s@), s@)
            } else {
                Err(ErrView::Unsupported(spec_token_text(ts[i])))
            },
            Token::Punct(c) => if c == ';' {
                Ok(empty_buf())
            } else {
                Err(ErrView::Unsupported(spec_token_text(ts[i])))
            },
            _ => Err(ErrView::Unsupported(spec_token_text(ts[i]))),
        }
    }
}

/// The whole parse, stage by stage: prefix skip, name, wrapper generics,
/// payload body, where-clause. The parsed record or the first failure.
pub open spec fn spec_parse(ts: Seq<Token>) -> Result<DeclView, ErrView> {
    match spec_find_struct(ts, 0, Seq::empty()) {
        Err(e) => Err(e),
        Ok(a) => match spec_take_name(ts, a.0, a.1) {
            Err(e) => Err(e),
            Ok(n) => match spec_generics_complex(ts, n.1, a.1) {
                Err(e) => Err(e),
                Ok(g) => match spec_body(ts, g.2, g.3) {
                    Err(e) => Err(e),
                    Ok(b) => match spec_after_body(ts, b.3, b.4) {
                        Err(e) => Err(e),
                        Ok(w) => Ok(
                            DeclView {
                                name: n.0,
                                wrap_generics_complex: g.0.text,
                                wrap_generics_simple: g.1.text,
                                imp: b.0.text,
                                imp_generics: b.2.text,
                                vis: b.1.text,
                                where_clause: w.text,
                            },
                        ),
                    },
                },
            },
        },
    }
}

// ---------------------------------------------------------------------------
// Relations between executable results and spec-level results.
// ---------------------------------------------------------------------------

/// An executable capture result agrees with a spec-level one.
pub open spec fn rel_capture(
    r: Result<(Buf, usize, String), ParseError>,
    s: Result<(BufView, int, Seq<char>), ErrView>,
) -> bool {
    match (r, s) {
        (Ok(rv), Ok(sv)) => rv.0@ == sv.0 && rv.1 as int == sv.1 && rv.2@ == sv.2,
        (Err(e), Err(ev)) => e@ == ev,
        _ => false,
    }
}

/// Captures one associated-type-equality constraint, e.g. the tail of
/// `Trait<Assoc = dyn Other<Assoc = D>>`, starting just after its opening `<`
/// (which already stands in the returned text). Returns the balanced captured
/// text, the position after the matching `>`, and the new diagnostic token.
pub fn parse_associated_type(ts: &Vec<Token>, start: usize) -> (r: Result<
    (Buf, usize, String),
    ParseError,
>)
    ensures
        rel_capture(r, spec_assoc_start(ts@, start as int)),
{
    let ghost s0 = spec_assoc_start(ts@, start as int);
    let mut acc = Buf::new();
    acc.push_char('<');
    let mut near = char_string('<');
    let mut depth: u128 = 1;
    let mut i: usize = start;
    while i < ts.len()
        invariant
            start <= i,
            i <= ts.len() || i == start,
            1 <= depth <= 1 + i - start,
            s0 == spec_assoc_start(ts@, start as int),
            s0 == spec_assoc(ts@, i as int, depth as int, acc@, near@),
        decreases ts.len() - i,
    {
        let t = &ts[i];
        match t {
            Token::Punct(c) => {
                if *c == '>' {
                    acc.push_char('>');
                    near = char_string('>');
                    if depth <= 1 {
                        return Ok((acc, i + 1, near));
                    }
                    depth = depth - 1;
                } else if *c == '<' {
                    acc.push_char('<');
                    near = char_string('<');
                    depth = depth + 1;
                } else {
                    acc.push_token(t);
                    near = token_text(t);
                }
            },
            _ => {
                acc.push_token(t);
                near = token_text(t);
            },
        }
        i = i + 1;
    }
    Err(ParseError::UnbalancedGenerics(near))
}

/// An executable generics result agrees with a spec-level one.
pub open spec fn rel_generics(
    r: Result<(Buf, Buf, usize, String), ParseError>,
    s: Result<(BufView, BufView, int, Seq<char>), ErrView>,
) -> bool {
    match (r, s) {
        (Ok(rv), Ok(sv)) => rv.0@ == sv.0 && rv.1@ == sv.1 && rv.2 as int == sv.2 && rv.3@ == sv.3,
        (Err(e), Err(ev)) => e@ == ev,
        _ => false,
    }
}

/// Parses the wrapper's generic parameter list, bounds included, e.g.
/// `<'a,'b: 'a, A: Sync>`. Returns the full list, the bare-names list, the
/// position after the closing `>`, and the new diagnostic token. When the
/// token at `start` is not `<`, both lists are empty and nothing is consumed.
pub fn parse_generics_complex(ts: &Vec<Token>, start: usize, near: &String) -> (r: Result<
    (Buf, Buf, usize, String),
    ParseError,
>)
    ensures
        rel_generics(r, spec_generics_complex(ts@, start as int, near@)),
{
    let ghost s0 = spec_generics_complex(ts@, start as int, near@);
    let open = if start < ts.len() {
        match &ts[start] {
            Token::Punct(c) => *c == '<',
            _ => false,
        }
    } else {
        false
    };
    if !open {
        return Ok((Buf::new(), Buf::new(), start, near.clone()));
    }
    let mut complex = Buf::new();
    complex.push_char('<');
    let mut simple = Buf::new();
    simple.push_char('<');
    let mut cur = near.clone();
    let mut i: usize = start + 1;
    let mut bound = false;
    while i < ts.len()
        invariant
            start < i,
            i <= ts.len(),
            s0 == spec_generics_complex(ts@, start as int, near@),
            bound ==> s0 == spec_complex_bound(ts@, i as int, complex@, simple@, cur@),
            !bound ==> s0 == spec_complex_params(ts@, i as int, complex@, simple@, cur@),
        decreases ts.len() - i,
    {
        let t = &ts[i];
        if !bound {
            match t {
                Token::Ident(s) => {
                    complex.push_word(s.as_str());
                    simple.push_word(s.as_str());
                    cur = s.clone();
                    i = i + 1;
                },
                Token::Punct(c) => {
                    if *c == '>' {
                        complex.push_char('>');
                        simple.push_char('>');
                        return Ok((complex, simple, i + 1, char_string('>')));
                    } else if *c == ',' || *c == '\'' {
                        complex.push_char(*c);
                        simple.push_char(*c);
                        cur = char_string(*c);
                        i = i + 1;
                    } else if *c == ':' {
                        complex.push_sym(": ");
                        bound = true;
                        i = i + 1;
                    } else {
                        return Err(ParseError::Unsupported(token_text(t)));
                    }
                },
                _ => {
                    return Err(ParseError::Unsupported(token_text(t)));
                },
            }
        } else {
            match t {
                Token::Ident(s) => {
                    complex.push_word(s.as_str());
                    cur = s.clone();
                    i = i + 1;
                },
                Token::Punct(c) => {
                    if *c == '>' {
                        complex.push_char('>');
                        simple.push_char('>');
                        return Ok((complex, simple, i + 1, char_string('>')));
                    } else if *c == ',' {
                        complex.push_char(',');
                        simple.push_char(',');
                        cur = char_string(',');
                        bound = false;
                        i = i + 1;
                    } else if *c == '<' {
                        proof {
                            lemma_assoc_advances(
                                ts@,
                                i as int + 1,
                                1,
                                spec_push_sym(empty_buf(), seq!['<']),
                                seq!['<'],
                            );
                        }
                        match parse_associated_type(ts, i + 1) {
                            Ok(capture) => {
                                let (cap, j, n2) = capture;
                                complex.splice(&cap);
                                cur = n2;
                                i = j;
                            },
                            Err(e) => {
                                return Err(e);
                            },
                        }
                    } else if *c == '+' || *c == ':' || *c == '\'' {
                        complex.push_char(*c);
                        cur = char_string(*c);
                        i = i + 1;
                    } else {
                        return Err(ParseError::Unsupported(token_text(t)));
                    }
                },
                _ => {
                    return Err(ParseError::Unsupported(token_text(t)));
                },
            }
        }
    }
    Err(ParseError::UnbalancedGenerics(cur))
}

/// Parses the payload's generic argument list, e.g. `<'a, A,B,C>`, without
/// bounds. When the token at `start` is not `<`, the list is empty and
/// nothing is consumed.
pub fn parse_generics_simple(ts: &Vec<Token>, start: usize, near: &String) -> (r: Result<
    (Buf, usize, String),
    ParseError,
>)
    ensures
        rel_capture(r, spec_generics_simple(ts@, start as int, near@)),
{
    let ghost s0 = spec_generics_simple(ts@, start as int, near@);
    let open = if start < ts.len() {
        match &ts[start] {
            Token::Punct(c) => *c == '<',
            _ => false,
        }
    } else {
        false
    };
    if !open {
        return Ok((Buf::new(), start, near.clone()));
    }
    let mut acc = Buf::new();
    acc.push_char('<');
    let mut cur = near.clone();
    let mut i: usize = start + 1;
    while i < ts.len()
        invariant
            start < i,
            i <= ts.len(),
            s0 == spec_generics_simple(ts@, start as int, near@),
            s0 == spec_simple_params(ts@, i as int, acc@, cur@),
        decreases ts.len() - i,
    {
        let t = &ts[i];
        match t {
            Token::Ident(s) => {
                acc.push_word(s.as_str());
                cur = s.clone();
                i = i + 1;
            },
            Token::Punct(c) => {
                if *c == '>' {
                    acc.push_char('>');
                    return Ok((acc, i + 1, char_string('>')));
                } else if *c == ',' || *c == '\'' || *c == '=' {
                    acc.push_char(*c);
                    cur = char_string(*c);
                    i = i + 1;
                } else if *c == '<' {
                    proof {
                        lemma_assoc_advances(
                            ts@,
                            i as int + 1,
                            1,
                            spec_push_sym(empty_buf(), seq!['<']),
                            seq!['<'],
                        );
                    }
                    match parse_associated_type(ts, i + 1) {
                        Ok(capture) => {
                            let (cap, j, n2) = capture;
                            acc.splice(&cap);
                            cur = n2;
                            i = j;
                        },
                        Err(e) => {
                            return Err(e);
                        },
                    }
                } else {
                    return Err(ParseError::Unsupported(token_text(t)));
                }
            },
            _ => {
                return Err(ParseError::Unsupported(token_text(t)));
            },
        }
    }
    Err(ParseError::UnbalancedGenerics(cur))
}

/// An executable body result agrees with a spec-level one.
pub open spec fn rel_body(
    r: Result<(Buf, Buf, Buf, usize, String), ParseError>,
    s: Result<(BufView, BufView, BufView, int, Seq<char>), ErrView>,
) -> bool {
    match (r, s) {
        (Ok(rv), Ok(sv)) => rv.0@ == sv.0 && rv.1@ == sv.1 && rv.2@ == sv.2 && rv.3 as int == sv.3
            && rv.4@ == sv.4,
        (Err(e), Err(ev)) => e@ == ev,
        _ => false,
    }
}

/// Parses the parenthesized tuple body at position `at`: the payload field's
/// visibility, its path, and its generic arguments. Returns them with the
/// position after the group and the new diagnostic token.
pub fn parse_body(ts: &Vec<Token>, at: usize, near: &String) -> (r: Result<
    (Buf, Buf, Buf, usize, String),
    ParseError,
>)
    ensures
        rel_body(r, spec_body(ts@, at as int, near@)),
{
    let ghost s0 = spec_body(ts@, at as int, near@);
    if at >= ts.len() {
        return Err(ParseError::MalformedBody(near.clone()));
    }
    let t = &ts[at];
    match t {
        Token::Group(d, g) => {
            if !matches!(d, Delim::Paren) {
                return Err(ParseError::MalformedBody(token_text(t)));
            }
            if g.len() == 0 {
                return Err(ParseError::MalformedBody(token_text(t)));
            }
            let ghost sf = spec_body_fields(g@, 0, empty_buf(), empty_buf(), near@);
            let mut vis = Buf::new();
            let mut path = Buf::new();
            let mut cur = near.clone();
            let mut j: usize = 0;
            while j < g.len()
                invariant
                    j <= g.len(),
                    at < ts.len(),
                    g@.len() > 0,
                    ts@[at as int] == Token::Group(Delim::Paren, *g),
                    s0 == spec_body(ts@, at as int, near@),
                    sf == spec_body_fields(g@, 0, empty_buf(), empty_buf(), near@),
                    sf == spec_body_fields(g@, j as int, vis@, path@, cur@),
                decreases g.len() - j,
            {
                let m = &g[j];
                match m {
                    Token::Ident(s) => {
                        if str_eq(s.as_str(), "pub") {
                            vis.push_word(s.as_str());
                        } else {
                            path.push_word(s.as_str());
                        }
                        cur = s.clone();
                        j = j + 1;
                    },
                    Token::Group(_, _) => {
                        if vis.text_equals("pub") {
                            vis.push_token(m);
                        } else {
                            path.push_token(m);
                        }
                        cur = token_text(m);
                        j = j + 1;
                    },
                    Token::Punct(c) => {
                        if *c == ':' {
                            path.push_char(':');
                            cur = char_string(':');
                            j = j + 1;
                        } else if *c == ';' {
                            if path.is_empty() {
                                return Err(ParseError::MalformedBody(char_string(';')));
                            }
                            return Ok((path, vis, Buf::new(), at + 1, char_string(';')));
                        } else if *c == '<' {
                            let head = char_string('<');
                            match parse_generics_simple(g, j, &head) {
                                Ok(gen) => {
                                    let (gbuf, _after, n2) = gen;
                                    if path.is_empty() {
                                        return Err(ParseError::MalformedBody(n2));
                                    }
                                    return Ok((path, vis, gbuf, at + 1, n2));
                                },
                                Err(e) => {
                                    return Err(e);
                                },
                            }
                        } else {
                            path.push_token(m);
                            cur = token_text(m);
                            j = j + 1;
                        }
                    },
                    _ => {
                        path.push_token(m);
                        cur = token_text(m);
                        j = j + 1;
                    },
                }
            }
            if path.is_empty() {
                return Err(ParseError::MalformedBody(cur));
            }
            Ok((path, vis, Buf::new(), at + 1, cur))
        },
        _ => Err(ParseError::MalformedBody(token_text(t))),
    }
}

/// An executable where-clause result agrees with a spec-level one.
pub open spec fn rel_where(r: Result<Buf, ParseError>, s: Result<BufView, ErrView>) -> bool {
    match (r, s) {
        (Ok(b), Ok(bv)) => b@ == bv,
        (Err(e), Err(ev)) => e@ == ev,
        _ => false,
    }
}

/// Parses what follows the payload body: either `;`, or a where-clause
/// `where ... ;`. Returns the where-clause text, or empty.
fn parse_after_body(ts: &Vec<Token>, at: usize, near: &String) -> (r: Result<Buf, ParseError>)
    ensures
        rel_where(r, spec_after_body(ts@, at as int, near@)),
{
    let ghost s0 = spec_after_body(ts@, at as int, near@);
    if at >= ts.len() {
        return Err(ParseError::Unsupported(near.clone()));
    }
    let t = &ts[at];
    match t {
        Token::Ident(s) => {
            if !str_eq(s.as_str(), "where") {
                return Err(ParseError::Unsupported(token_text(t)));
            }
            let mut acc = Buf::new();
            acc.push_word(s.as_str());
            let mut cur = s.clone();
            let mut i: usize = at + 1;
            while i < ts.len()
                invariant
                    at < i,
                    i <= ts.len(),
                    s0 == spec_after_body(ts@, at as int, near@),
                    s0 == spec_where_tail(ts@, i as int, acc@, cur@),
                decreases ts.len() - i,
            {
                let m = &ts[i];
                match m {
                    Token::Punct(c) => {
                        if *c == ';' {
                            return Ok(acc);
                        }
                        acc.push_token(m);
                        cur = token_text(m);
                        i = i + 1;
                    },
                    _ => {
                        acc.push_token(m);
                        cur = token_text(m);
                        i = i + 1;
                    },
                }
            }
            Err(ParseError::MalformedWhere(cur))
        },
        Token::Punct(c) => {
            if *c == ';' {
                Ok(Buf::new())
            } else {
                Err(ParseError::Unsupported(token_text(t)))
            }
        },
        _ => Err(ParseError::Unsupported(token_text(t))),
    }
}

/// An executable parse result agrees with a spec-level one.
pub open spec fn rel_parse(r: Result<BoilParse, ParseError>, s: Result<DeclView, ErrView>) -> bool {
    match (r, s) {
        (Ok(d), Ok(dv)) => d@ == dv,
        (Err(e), Err(ev)) => e@ == ev,
        _ => false,
    }
}

impl BoilParse {
    /// Parses one declaration `[visibility] struct Name[<generics>](visibility
    /// Payload[<generics>])[where ...];` from its token sequence. Total and
    /// deterministic: [`spec_parse`] gives the record for every well-formed
    /// input and the diagnostic kind and nearby token for every other input.
    pub fn new(tokens: &Vec<Token>) -> (r: Result<BoilParse, ParseError>)
        ensures
            rel_parse(r, spec_parse(tokens@)),
    {
        let ghost s0 = spec_parse(tokens@);
        let ghost sfind = spec_find_struct(tokens@, 0, Seq::empty());
        // Prefix skip: discard tokens until the keyword `struct`.
        let mut cur = String::new();
        let mut i: usize = 0;
        let mut after_struct: usize = 0;
        let mut near_struct = String::new();
        loop
            invariant
                i <= tokens.len(),
                sfind == spec_find_struct(tokens@, 0, Seq::empty()),
                sfind == spec_find_struct(tokens@, i as int, cur@),
            ensures
                sfind matches Ok(a) && a.0 == after_struct as int && a.1 == near_struct@,
            decreases tokens.len() - i,
        {
            if i >= tokens.len() {
                return Err(ParseError::MissingKeyword(cur));
            }
            let t = &tokens[i];
            let found = match t {
                Token::Ident(s) => str_eq(s.as_str(), "struct"),
                _ => false,
            };
            if found {
                after_struct = i + 1;
                near_struct = token_text(t);
                break;
            }
            cur = token_text(t);
            i = i + 1;
        }
        // The wrapper's name.
        if after_struct >= tokens.len() {
            return Err(ParseError::MissingIdentifier(near_struct));
        }
        let name = match &tokens[after_struct] {
            Token::Ident(s) => s.clone(),
            other => {
                return Err(ParseError::MissingIdentifier(token_text(other)));
            },
        };
        // The wrapper's generics, bounds included.
        let (complex, simple, after_generics, near_generics) = match parse_generics_complex(
            tokens,
            after_struct + 1,
            &near_struct,
        ) {
            Ok(g) => g,
            Err(e) => {
                return Err(e);
            },
        };
        // The payload body.
        let (path, vis, imp_generics, after_body, near_body) = match parse_body(
            tokens,
            after_generics,
            &near_generics,
        ) {
            Ok(b) => b,
            Err(e) => {
                return Err(e);
            },
        };
        // The where-clause, or the closing `;`.
        let where_clause = match parse_after_body(tokens, after_body, &near_body) {
            Ok(w) => w,
            Err(e) => {
                return Err(e);
            },
        };
        Ok(
            BoilParse {
                name,
                wrap_generics_complex: complex.into_text(),
                wrap_generics_simple: simple.into_text(),
                imp: path.into_text(),
                imp_generics: imp_generics.into_text(),
                vis: vis.into_text(),
                where_clause: where_clause.into_text(),
            },
        )
    }
}

} // verus!

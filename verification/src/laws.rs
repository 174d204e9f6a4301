//! Laws of the parser, stated against a declarative model of well-formed
//! generic parameter lists and proved from the spec-level stages alone.

use vstd::prelude::*;

use crate::parse::{
    BoilParse, ErrView, ParseError, rel_parse, spec_after_body, spec_assoc,
    spec_assoc_start, spec_body, spec_body_fields, spec_complex_bound, spec_complex_params,
    spec_find_struct, spec_generics_complex, spec_parse, spec_take_name,
};
use crate::token::{
    BufView, Delim, Token, empty_buf, is_word_token, spec_push, spec_push_sym, spec_push_token,
    spec_push_word, spec_splice, spec_token_text,
};

verus! {

// ---------------------------------------------------------------------------
// A declarative model of well-formed generic parameter lists.
// ---------------------------------------------------------------------------

/// One piece of a bound: a plain token, or an associated-type-equality
/// capture `<...>` given by the tokens after its opening `<`.
pub enum BoundAtom {
    Plain(Token),
    Capture(Seq<Token>),
}

/// The tokens of a capture close the angle bracket opened before them:
/// scanning from `depth`, the depth never returns to zero before the last
/// token, and the last token brings it to zero.
pub open spec fn bal(cap: Seq<Token>, depth: int) -> bool
    decreases cap.len(),
{
    if depth <= 0 {
        cap.len() == 0
    } else if cap.len() == 0 {
        false
    } else {
        match cap[0] {
            Token::Punct(c) => if c == '>' {
                bal(cap.drop_first(), depth - 1)
            } else if c == '<' {
                bal(cap.drop_first(), depth + 1)
            } else {
                bal(cap.drop_first(), depth)
            },
            _ => bal(cap.drop_first(), depth),
        }
    }
}

/// What may stand, outside captures, in the bound of one parameter.
pub open spec fn plain_bound_token(t: Token) -> bool {
    match t {
        Token::Ident(_) => true,
        Token::Punct(c) => c == '+' || c == ':' || c == '\'',
        _ => false,
    }
}

pub open spec fn wf_atom(a: BoundAtom) -> bool {
    match a {
        BoundAtom::Plain(t) => plain_bound_token(t),
        BoundAtom::Capture(cap) => bal(cap, 1),
    }
}

pub open spec fn wf_atoms(atoms: Seq<BoundAtom>) -> bool {
    forall|k: int| 0 <= k < atoms.len() ==> wf_atom(#[trigger] atoms[k])
}

/// The token sequence of one bound piece.
pub open spec fn atom_tokens(a: BoundAtom) -> Seq<Token> {
    match a {
        BoundAtom::Plain(t) => seq![t],
        BoundAtom::Capture(cap) => seq![Token::Punct('<')] + cap,
    }
}

/// The token sequence of a whole bound.
pub open spec fn atoms_tokens(atoms: Seq<BoundAtom>) -> Seq<Token>
    decreases atoms.len(),
{
    if atoms.len() == 0 {
        Seq::empty()
    } else {
        atom_tokens(atoms[0]) + atoms_tokens(atoms.drop_first())
    }
}

/// One well-formed generic parameter: an optional lifetime tick, an
/// identifier, and an optional bound introduced by `:`.
pub struct GenParam {
    pub lifetime: bool,
    pub name: Token,
    pub bound: Option<Seq<BoundAtom>>,
}

pub open spec fn wf_param(p: GenParam) -> bool {
    &&& p.name is Ident
    &&& match p.bound {
        Option::Some(atoms) => wf_atoms(atoms),
        Option::None => true,
    }
}

pub open spec fn wf_params(ps: Seq<GenParam>) -> bool {
    forall|k: int| 0 <= k < ps.len() ==> wf_param(#[trigger] ps[k])
}

/// The token sequence of one parameter.
pub open spec fn param_tokens(p: GenParam) -> Seq<Token> {
    let tick: Seq<Token> = if p.lifetime {
        seq![Token::Punct('\'')]
    } else {
        Seq::empty()
    };
    let bound: Seq<Token> = match p.bound {
        Option::Some(atoms) => seq![Token::Punct(':')] + atoms_tokens(atoms),
        Option::None => Seq::empty(),
    };
    tick + seq![p.name] + bound
}

/// The token sequence of a comma-separated parameter list (without the
/// surrounding angle brackets).
pub open spec fn params_tokens(ps: Seq<GenParam>) -> Seq<Token>
    decreases ps.len(),
{
    if ps.len() == 0 {
        Seq::empty()
    } else if ps.len() == 1 {
        param_tokens(ps[0])
    } else {
        param_tokens(ps[0]) + seq![Token::Punct(',')] + params_tokens(ps.drop_first())
    }
}

/// The parameter list's tokens from just after the opening `<` through the
/// closing `>`.
pub open spec fn params_tail(ps: Seq<GenParam>) -> Seq<Token> {
    params_tokens(ps) + seq![Token::Punct('>')]
}

/// The bare-names form of one parameter appended to a buffer: the lifetime
/// tick if any, then the name — never any bound text.
pub open spec fn simple_after_param(acc: BufView, p: GenParam) -> BufView {
    let a = if p.lifetime {
        spec_push_sym(acc, seq!['\''])
    } else {
        acc
    };
    spec_push_word(a, spec_token_text(p.name))
}

/// The bare-names form of a parameter list appended to a buffer: the names in
/// source order, separated by `,`, closed by `>`.
pub open spec fn expected_simple_from(ps: Seq<GenParam>, acc: BufView) -> BufView
    decreases ps.len(),
{
    if ps.len() == 0 {
        spec_push_sym(acc, seq!['>'])
    } else if ps.len() == 1 {
        spec_push_sym(simple_after_param(acc, ps[0]), seq!['>'])
    } else {
        expected_simple_from(
            ps.drop_first(),
            spec_push_sym(simple_after_param(acc, ps[0]), seq![',']),
        )
    }
}

/// The bare-names text of a whole parameter list, bracketed.
pub open spec fn expected_simple(ps: Seq<GenParam>) -> Seq<char> {
    expected_simple_from(ps, spec_push_sym(empty_buf(), seq!['<'])).text
}

// ---------------------------------------------------------------------------
// The capture consumes exactly its balanced token range.
// ---------------------------------------------------------------------------

/// An associated-type capture is never truncated: on a bracket-balanced token
/// range, of any nesting depth, it succeeds and consumes exactly through the
/// matching close.
pub proof fn lemma_assoc_capture_consumes(
    ts: Seq<Token>,
    i: int,
    depth: int,
    acc: BufView,
    near: Seq<char>,
    cap: Seq<Token>,
)
    requires
        depth >= 1,
        0 <= i,
        i + cap.len() <= ts.len(),
        ts.subrange(i, i + cap.len()) == cap,
        bal(cap, depth),
    ensures
        spec_assoc(ts, i, depth, acc, near) matches Ok(r) && r.1 == i + cap.len(),
    decreases cap.len(),
{
    assert(cap.len() > 0);
    assert(ts[i] == cap[0]) by {
        assert(ts.subrange(i, i + cap.len())[0] == ts[i]);
    }
    let rest = cap.drop_first();
    assert(ts.subrange(i + 1, i + 1 + rest.len()) =~= rest) by {
        assert(forall|k: int|
            0 <= k < rest.len() ==> ts.subrange(i + 1, i + 1 + rest.len())[k] == ts[i + 1 + k]
                && #[trigger] rest[k] == cap[k + 1] && cap[k + 1] == ts.subrange(
                i,
                i + cap.len(),
            )[k + 1]);
    }
    match cap[0] {
        Token::Punct(c) => {
            if c == '>' {
                if depth == 1 {
                    assert(bal(rest, 0));
                    assert(rest.len() == 0);
                } else {
                    lemma_assoc_capture_consumes(
                        ts,
                        i + 1,
                        depth - 1,
                        spec_push_sym(acc, seq!['>']),
                        seq!['>'],
                        rest,
                    );
                }
            } else if c == '<' {
                lemma_assoc_capture_consumes(
                    ts,
                    i + 1,
                    depth + 1,
                    spec_push_sym(acc, seq!['<']),
                    seq!['<'],
                    rest,
                );
            } else {
                lemma_assoc_capture_consumes(
                    ts,
                    i + 1,
                    depth,
                    spec_push_token(acc, ts[i]),
                    spec_token_text(ts[i]),
                    rest,
                );
            }
        },
        _ => {
            lemma_assoc_capture_consumes(
                ts,
                i + 1,
                depth,
                spec_push_token(acc, ts[i]),
                spec_token_text(ts[i]),
                rest,
            );
        },
    }
}

// ---------------------------------------------------------------------------
// The captured text balances its angle brackets.
// ---------------------------------------------------------------------------

/// How often a character occurs in a text.
pub open spec fn count_char(s: Seq<char>, c: char) -> int
    decreases s.len(),
{
    if s.len() == 0 {
        0
    } else {
        (if s[0] == c {
            1int
        } else {
            0int
        }) + count_char(s.drop_first(), c)
    }
}

proof fn lemma_count_concat(a: Seq<char>, b: Seq<char>, c: char)
    ensures
        count_char(a + b, c) == count_char(a, c) + count_char(b, c),
    decreases a.len(),
{
    if a.len() == 0 {
        assert(a + b =~= b);
    } else {
        assert((a + b).drop_first() =~= a.drop_first() + b);
        lemma_count_concat(a.drop_first(), b, c);
    }
}

/// A token whose own text carries no angle-bracket characters, other than the
/// angle punctuation itself.
pub open spec fn angle_clean(t: Token) -> bool {
    count_char(spec_token_text(t), '<') == 0 && count_char(spec_token_text(t), '>') == 0
}

proof fn lemma_count_push(b: BufView, word: bool, s: Seq<char>, c: char)
    requires
        c != ' ',
    ensures
        count_char(spec_push(b, word, s).text, c) == count_char(b.text, c) + count_char(s, c),
{
    if b.word && word {
        lemma_count_concat(b.text, seq![' '], c);
        lemma_count_concat(b.text + seq![' '], s, c);
        assert(seq![' '].drop_first() =~= Seq::<char>::empty());
        assert(count_char(Seq::<char>::empty(), c) == 0);
        assert(count_char(seq![' '], c) == 0);
    } else {
        lemma_count_concat(b.text, s, c);
    }
}

proof fn lemma_count_single(c: char, d: char)
    ensures
        count_char(seq![c], d) == if c == d {
            1int
        } else {
            0int
        },
{
    assert(seq![c].drop_first() =~= Seq::<char>::empty());
    assert(count_char(Seq::<char>::empty(), d) == 0);
}

/// The captured text of an associated-type capture balances its angle
/// brackets: when every consumed token is angle-clean — a literal whose own
/// text contains a stray `<` or `>` is not — the finished capture holds
/// exactly as many `>` as `<`, relative to what the accumulator held, closing
/// the `depth` already-open brackets.
pub proof fn lemma_assoc_capture_balanced(
    ts: Seq<Token>,
    i: int,
    depth: int,
    acc: BufView,
    near: Seq<char>,
)
    requires
        depth >= 1,
    ensures
        (spec_assoc(ts, i, depth, acc, near) matches Ok(r) && (forall|k: int|
            i <= k < r.1 ==> angle_clean(#[trigger] ts[k]) || ts[k] == Token::Punct('<') || ts[k]
                == Token::Punct('>'))) ==> (spec_assoc(ts, i, depth, acc, near) matches Ok(r)
            && count_char(r.0.text, '>') - count_char(r.0.text, '<') == count_char(acc.text, '>')
            - count_char(acc.text, '<') + depth),
    decreases ts.len() - i,
{
    if i < 0 || i >= ts.len() {
    } else {
        let t = ts[i];
        let res = spec_assoc(ts, i, depth, acc, near);
        if res is Ok {
            crate::parse::lemma_assoc_advances(ts, i, depth, acc, near);
            let r = res->Ok_0;
            if forall|k: int|
                i <= k < r.1 ==> angle_clean(#[trigger] ts[k]) || ts[k] == Token::Punct('<')
                    || ts[k] == Token::Punct('>') {
                lemma_count_single('>', '>');
                lemma_count_single('>', '<');
                lemma_count_single('<', '>');
                lemma_count_single('<', '<');
                match t {
                    Token::Punct(c) => {
                        if c == '>' {
                            lemma_count_push(acc, false, seq!['>'], '>');
                            lemma_count_push(acc, false, seq!['>'], '<');
                            if depth > 1 {
                                lemma_assoc_capture_balanced(
                                    ts,
                                    i + 1,
                                    depth - 1,
                                    spec_push_sym(acc, seq!['>']),
                                    seq!['>'],
                                );
                            }
                        } else if c == '<' {
                            lemma_count_push(acc, false, seq!['<'], '>');
                            lemma_count_push(acc, false, seq!['<'], '<');
                            lemma_assoc_capture_balanced(
                                ts,
                                i + 1,
                                depth + 1,
                                spec_push_sym(acc, seq!['<']),
                                seq!['<'],
                            );
                        } else {
                            assert(angle_clean(t));
                            lemma_count_push(acc, is_word_token(t), spec_token_text(t), '>');
                            lemma_count_push(acc, is_word_token(t), spec_token_text(t), '<');
                            lemma_assoc_capture_balanced(
                                ts,
                                i + 1,
                                depth,
                                spec_push_token(acc, t),
                                spec_token_text(t),
                            );
                        }
                    },
                    _ => {
                        assert(angle_clean(t));
                        lemma_count_push(acc, is_word_token(t), spec_token_text(t), '>');
                        lemma_count_push(acc, is_word_token(t), spec_token_text(t), '<');
                        lemma_assoc_capture_balanced(
                            ts,
                            i + 1,
                            depth,
                            spec_push_token(acc, t),
                            spec_token_text(t),
                        );
                    },
                }
            }
        }
    }
}

// ---------------------------------------------------------------------------
// Well-formed parameter lists parse, and the simple form is the bare names.
// ---------------------------------------------------------------------------

/// A well-formed bound is consumed without touching the simple form: the
/// reader stays in the bound sub-grammar with the same simple text.
proof fn lemma_bound_accepts(
    ts: Seq<Token>,
    i: int,
    complex: BufView,
    simple: BufView,
    near: Seq<char>,
    atoms: Seq<BoundAtom>,
)
    requires
        wf_atoms(atoms),
        0 <= i,
        i + atoms_tokens(atoms).len() <= ts.len(),
        ts.subrange(i, i + atoms_tokens(atoms).len()) == atoms_tokens(atoms),
    ensures
        exists|cx2: BufView, near2: Seq<char>|
            spec_complex_bound(ts, i, complex, simple, near) == #[trigger] spec_complex_bound(
                ts,
                i + atoms_tokens(atoms).len(),
                cx2,
                simple,
                near2,
            ),
    decreases atoms.len(),
{
    let all = atoms_tokens(atoms);
    assert(forall|k: int| 0 <= k < all.len() ==> ts[i + k] == #[trigger] all[k]) by {
        assert(forall|k: int|
            0 <= k < all.len() ==> #[trigger] ts.subrange(i, i + all.len())[k] == ts[i + k]);
    }
    if atoms.len() == 0 {
        let cx2 = complex;
        let near2 = near;
        assert(spec_complex_bound(ts, i, complex, simple, near) == spec_complex_bound(
            ts,
            i + all.len(),
            cx2,
            simple,
            near2,
        ));
    } else {
        let a = atoms[0];
        assert(wf_atom(a));
        let at = atom_tokens(a);
        let rest = atoms.drop_first();
        assert(wf_atoms(rest)) by {
            assert(forall|k: int|
                0 <= k < rest.len() ==> #[trigger] rest[k] == atoms[k + 1] && wf_atom(atoms[k + 1]));
        }
        assert(all == at + atoms_tokens(rest));
        let j = i + at.len();
        assert(ts.subrange(j, j + atoms_tokens(rest).len()) =~= atoms_tokens(rest)) by {
            assert(forall|k: int|
                0 <= k < atoms_tokens(rest).len() ==> ts.subrange(
                    j,
                    j + atoms_tokens(rest).len(),
                )[k] == ts[j + k] && all[at.len() + k] == #[trigger] atoms_tokens(rest)[k]);
        }
        match a {
            BoundAtom::Plain(t) => {
                assert(at[0] == t);
                assert(all[0] == t);
                assert(ts[i + 0] == all[0]);
                assert(ts[i] == t);
                match t {
                    Token::Ident(s) => {
                        lemma_bound_accepts(
                            ts,
                            i + 1,
                            spec_push_word(complex, s@),
                            simple,
                            s@,
                            rest,
                        );
                    },
                    Token::Punct(c) => {
                        lemma_bound_accepts(
                            ts,
                            i + 1,
                            spec_push_sym(complex, seq![c]),
                            simple,
                            seq![c],
                            rest,
                        );
                    },
                    _ => {
                        assert(false);
                    },
                }
            },
            BoundAtom::Capture(cap) => {
                assert(at[0] == Token::Punct('<'));
                assert(all[0] == Token::Punct('<'));
                assert(ts[i + 0] == all[0]);
                assert(ts[i] == Token::Punct('<'));
                assert(ts.subrange(i + 1, i + 1 + cap.len()) =~= cap) by {
                    assert(forall|k: int|
                        0 <= k < cap.len() ==> ts.subrange(i + 1, i + 1 + cap.len())[k] == ts[i + 1
                            + k] && all[1 + k] == #[trigger] cap[k]);
                }
                lemma_assoc_capture_consumes(
                    ts,
                    i + 1,
                    1,
                    spec_push_sym(empty_buf(), seq!['<']),
                    seq!['<'],
                    cap,
                );
                let r = spec_assoc_start(ts, i + 1)->Ok_0;
                lemma_bound_accepts(ts, r.1, spec_splice(complex, r.0), simple, r.2, rest);
            },
        }
    }
}

/// For every well-formed generic parameter list — any number of parameters,
/// zero included, lifetimes and bounded parameters included — the parser
/// accepts the list, consumes it exactly, and the simple form it returns is
/// the bare parameter names in source order, with no bound text:
/// [`expected_simple_from`] appends only each parameter's lifetime tick and
/// name, comma-separated.
pub proof fn lemma_simple_generics_bare_names(
    ts: Seq<Token>,
    i: int,
    complex: BufView,
    simple: BufView,
    near: Seq<char>,
    ps: Seq<GenParam>,
)
    requires
        wf_params(ps),
        0 <= i,
        i + params_tail(ps).len() <= ts.len(),
        ts.subrange(i, i + params_tail(ps).len()) == params_tail(ps),
    ensures
        spec_complex_params(ts, i, complex, simple, near) matches Ok(r) && r.1
            == expected_simple_from(ps, simple) && r.2 == i + params_tail(ps).len(),
    decreases ps.len(), 1int,
{
    let tail = params_tail(ps);
    assert(forall|k: int| 0 <= k < tail.len() ==> ts[i + k] == #[trigger] tail[k]) by {
        assert(forall|k: int|
            0 <= k < tail.len() ==> #[trigger] ts.subrange(i, i + tail.len())[k] == ts[i + k]);
    }
    if ps.len() == 0 {
        assert(tail[0] == Token::Punct('>'));
        assert(ts[i + 0] == tail[0]);
    } else {
        let p = ps[0];
        assert(wf_param(p));
        let pt = param_tokens(p);
        let rest = ps.drop_first();
        assert(wf_params(rest)) by {
            assert(forall|k: int|
                0 <= k < rest.len() ==> #[trigger] rest[k] == ps[k + 1] && wf_param(ps[k + 1]));
        }
        let ptl = pt.len() as int;
        assert(forall|k: int| 0 <= k < ptl ==> tail[k] == #[trigger] pt[k]);
        let tick: int = if p.lifetime {
            1int
        } else {
            0int
        };
        // The lifetime tick, if any, then the name, go to both forms.
        let name_text = spec_token_text(p.name);
        let cx1 = if p.lifetime {
            spec_push_sym(complex, seq!['\''])
        } else {
            complex
        };
        let sp1 = if p.lifetime {
            spec_push_sym(simple, seq!['\''])
        } else {
            simple
        };
        let near1 = if p.lifetime {
            seq!['\'']
        } else {
            near
        };
        if p.lifetime {
            assert(pt[0] == Token::Punct('\''));
            assert(ts[i + 0] == tail[0]);
            assert(spec_complex_params(ts, i, complex, simple, near) == spec_complex_params(
                ts,
                i + 1,
                cx1,
                sp1,
                near1,
            ));
        }
        assert(pt[tick] == p.name);
        assert(ts[i + tick] == tail[tick]);
        let s = p.name->Ident_0;
        assert(p.name == Token::Ident(s));
        let cx2 = spec_push_word(cx1, s@);
        let sp2 = spec_push_word(sp1, s@);
        assert(spec_complex_params(ts, i + tick, cx1, sp1, near1) == spec_complex_params(
            ts,
            i + tick + 1,
            cx2,
            sp2,
            s@,
        ));
        assert(sp2 == simple_after_param(simple, p));
        // After the name: either a bound, or directly the separator.
        match p.bound {
            Option::None => {
                assert(ptl == tick + 1);
                step_separator(ts, i, complex, simple, near, ps, rest, cx2, sp2, s@, ptl, false);
            },
            Option::Some(atoms) => {
                assert(pt[tick + 1] == Token::Punct(':'));
                assert(ts[i + (tick + 1)] == tail[tick + 1]);
                let al = atoms_tokens(atoms).len() as int;
                assert(ptl == tick + 2 + al);
                assert(ts.subrange(i + tick + 2, i + tick + 2 + al) =~= atoms_tokens(atoms)) by {
                    assert(forall|k: int|
                        0 <= k < al ==> #[trigger] ts.subrange(i + tick + 2, i + tick + 2 + al)[k]
                            == ts[i + tick + 2 + k] && tail[tick + 2 + k] == pt[tick + 2 + k] && pt[
                            tick + 2 + k
                        ] == atoms_tokens(atoms)[k]);
                }
                let cx3 = spec_push_sym(cx2, ": "@);
                assert(spec_complex_params(ts, i + tick + 1, cx2, sp2, s@) == spec_complex_bound(
                    ts,
                    i + tick + 2,
                    cx3,
                    sp2,
                    s@,
                ));
                lemma_bound_accepts(ts, i + tick + 2, cx3, sp2, s@, atoms);
                let (cx4, near4): (BufView, Seq<char>) = choose|cx4: BufView, near4: Seq<char>|
                    spec_complex_bound(ts, i + tick + 2, cx3, sp2, s@)
                        == #[trigger] spec_complex_bound(ts, i + tick + 2 + al, cx4, sp2, near4);
                step_separator(ts, i, complex, simple, near, ps, rest, cx4, sp2, near4, ptl, true);
            },
        }
    }
}

/// After one parameter's tokens, the separator is `,` before a further
/// parameter, or the closing `>`; either way the simple form ends up as
/// [`expected_simple_from`] says.
proof fn step_separator(
    ts: Seq<Token>,
    i: int,
    complex: BufView,
    simple: BufView,
    near: Seq<char>,
    ps: Seq<GenParam>,
    rest: Seq<GenParam>,
    cx: BufView,
    sp: BufView,
    near_now: Seq<char>,
    ptl: int,
    in_bound: bool,
)
    requires
        ps.len() > 0,
        rest == ps.drop_first(),
        wf_params(rest),
        0 <= i,
        ptl == param_tokens(ps[0]).len(),
        i + params_tail(ps).len() <= ts.len(),
        ts.subrange(i, i + params_tail(ps).len()) == params_tail(ps),
        sp == simple_after_param(simple, ps[0]),
        in_bound ==> spec_complex_params(ts, i, complex, simple, near) == spec_complex_bound(
            ts,
            i + ptl,
            cx,
            sp,
            near_now,
        ),
        !in_bound ==> spec_complex_params(ts, i, complex, simple, near) == spec_complex_params(
            ts,
            i + ptl,
            cx,
            sp,
            near_now,
        ),
    ensures
        spec_complex_params(ts, i, complex, simple, near) matches Ok(r) && r.1
            == expected_simple_from(ps, simple) && r.2 == i + params_tail(ps).len(),
    decreases ps.len(), 0int,
{
    let tail = params_tail(ps);
    assert(forall|k: int| 0 <= k < tail.len() ==> ts[i + k] == #[trigger] tail[k]) by {
        assert(forall|k: int|
            0 <= k < tail.len() ==> #[trigger] ts.subrange(i, i + tail.len())[k] == ts[i + k]);
    }
    if ps.len() == 1 {
        assert(params_tokens(ps) == param_tokens(ps[0]));
        assert(tail[ptl] == Token::Punct('>'));
        assert(ts[i + ptl] == tail[ptl]);
        assert(expected_simple_from(ps, simple) == spec_push_sym(sp, seq!['>']));
    } else {
        let pr = params_tokens(rest);
        assert(params_tokens(ps) == param_tokens(ps[0]) + seq![Token::Punct(',')] + pr);
        assert(tail[ptl] == Token::Punct(','));
        assert(ts[i + ptl] == tail[ptl]);
        let j = i + ptl + 1;
        let rtail = params_tail(rest);
        assert(rtail.len() == pr.len() + 1);
        assert(tail.len() == ptl + 1 + pr.len() + 1);
        assert(forall|k: int|
            0 <= k < pr.len() ==> tail[ptl + 1 + k] == #[trigger] pr[k] && rtail[k] == pr[k]);
        assert(tail[ptl + 1 + pr.len()] == Token::Punct('>'));
        assert(rtail[pr.len() as int] == Token::Punct('>'));
        assert(ts.subrange(j, j + rtail.len()) =~= rtail) by {
            assert(forall|k: int|
                0 <= k < rtail.len() ==> #[trigger] ts.subrange(j, j + rtail.len())[k] == ts[j + k]
                    && ts[j + k] == tail[ptl + 1 + k]);
        }
        lemma_simple_generics_bare_names(
            ts,
            j,
            spec_push_sym(cx, seq![',']),
            spec_push_sym(sp, seq![',']),
            seq![','],
            rest,
        );
        assert(expected_simple_from(ps, simple) == expected_simple_from(
            rest,
            spec_push_sym(sp, seq![',']),
        ));
    }
}

// ---------------------------------------------------------------------------
// A well-formed declaration parses as a whole.
// ---------------------------------------------------------------------------

/// An identifier token with non-empty text.
pub open spec fn nonempty_ident(t: Token) -> bool {
    t matches Token::Ident(s) && s@.len() > 0
}

/// The identifier `pub`, which goes to the visibility, not the path.
pub open spec fn pub_ident(t: Token) -> bool {
    t matches Token::Ident(s) && s@ == "pub"@
}

/// A body of identifiers alone always parses, and its path is non-empty as
/// soon as one identifier other than `pub` stands in it.
proof fn lemma_ident_body_fields(
    b: Seq<Token>,
    j: int,
    vis: BufView,
    path: BufView,
    near: Seq<char>,
)
    requires
        0 <= j,
        forall|k: int| 0 <= k < b.len() ==> nonempty_ident(#[trigger] b[k]),
    ensures
        spec_body_fields(b, j, vis, path, near) matches Ok(f) && f.0.text.len()
            >= path.text.len() && ((exists|k: int|
            j <= k < b.len() && !pub_ident(#[trigger] b[k])) ==> f.0.text.len() > 0),
    decreases b.len() - j,
{
    if j >= b.len() {
    } else {
        assert(nonempty_ident(b[j]));
        let s = b[j]->Ident_0;
        if s@ == "pub"@ {
            lemma_ident_body_fields(b, j + 1, spec_push_word(vis, s@), path, s@);
        } else {
            lemma_ident_body_fields(b, j + 1, vis, spec_push_word(path, s@), s@);
        }
    }
}

/// Every well-formed sized declaration parses: `struct`, a name, any number
/// of well-formed generic parameters, a parenthesized body whose members
/// are identifiers naming the payload path, and the closing `;` yield the
/// parsed record, whose simple generics are exactly the bare parameter names.
pub proof fn lemma_wellformed_declaration_parses(ts: Seq<Token>, ps: Seq<GenParam>)
    requires
        wf_params(ps),
        ts.len() >= 5 + params_tail(ps).len(),
        ts[0] matches Token::Ident(s) && s@ == "struct"@,
        ts[1] is Ident,
        ts[2] == Token::Punct('<'),
        ts.subrange(3, 3 + params_tail(ps).len() as int) == params_tail(ps),
        ts[3 + params_tail(ps).len() as int] matches Token::Group(d, b) && d == Delim::Paren && b@.len()
            > 0 && (forall|k: int| 0 <= k < b@.len() ==> nonempty_ident(#[trigger] b@[k])) && (
        exists|k: int| 0 <= k < b@.len() && !pub_ident(#[trigger] b@[k])),
        ts[4 + params_tail(ps).len() as int] == Token::Punct(';'),
    ensures
        spec_parse(ts) matches Ok(decl) && decl.name == ts[1]->Ident_0@
            && decl.wrap_generics_simple == expected_simple(ps),
{
    let tl = params_tail(ps).len() as int;
    assert(spec_find_struct(ts, 0, Seq::empty()) == Ok::<(int, Seq<char>), ErrView>(
        (1, spec_token_text(ts[0])),
    ));
    assert(spec_take_name(ts, 1, spec_token_text(ts[0])) == Ok::<(Seq<char>, int), ErrView>(
        (ts[1]->Ident_0@, 2),
    ));
    let b0 = spec_push_sym(empty_buf(), seq!['<']);
    lemma_simple_generics_bare_names(ts, 3, b0, b0, spec_token_text(ts[0]), ps);
    let r = spec_complex_params(ts, 3, b0, b0, spec_token_text(ts[0]))->Ok_0;
    assert(r.2 == 3 + tl);
    let g = ts[3 + tl]->Group_1;
    lemma_ident_body_fields(g@, 0, empty_buf(), empty_buf(), r.3);
    let f = spec_body_fields(g@, 0, empty_buf(), empty_buf(), r.3)->Ok_0;
    assert(f.0.text.len() > 0);
    assert(spec_body(ts, 3 + tl, r.3) == Ok::<(BufView, BufView, BufView, int, Seq<char>), ErrView>(
        (f.0, f.1, f.2, 4 + tl, f.3),
    ));
    assert(spec_after_body(ts, 4 + tl, f.3) == Ok::<BufView, ErrView>(empty_buf()));
}

/// A well-formed declaration with zero generic parameters — no angle-bracket
/// list at all — parses, and both generics forms come out empty.
pub proof fn lemma_plain_declaration_parses(ts: Seq<Token>)
    requires
        ts.len() >= 4,
        ts[0] matches Token::Ident(s) && s@ == "struct"@,
        ts[1] is Ident,
        ts[2] matches Token::Group(d, b) && d == Delim::Paren && b@.len() > 0 && (forall|k: int|
            0 <= k < b@.len() ==> nonempty_ident(#[trigger] b@[k])) && (exists|k: int|
            0 <= k < b@.len() && !pub_ident(#[trigger] b@[k])),
        ts[3] == Token::Punct(';'),
    ensures
        spec_parse(ts) matches Ok(decl) && decl.name == ts[1]->Ident_0@
            && decl.wrap_generics_complex.len() == 0 && decl.wrap_generics_simple.len() == 0,
{
    assert(spec_find_struct(ts, 0, Seq::empty()) == Ok::<(int, Seq<char>), ErrView>(
        (1, spec_token_text(ts[0])),
    ));
    assert(spec_take_name(ts, 1, spec_token_text(ts[0])) == Ok::<(Seq<char>, int), ErrView>(
        (ts[1]->Ident_0@, 2),
    ));
    lemma_no_generics_empty(ts, 2, spec_token_text(ts[0]));
    let g = ts[2]->Group_1;
    lemma_ident_body_fields(g@, 0, empty_buf(), empty_buf(), spec_token_text(ts[0]));
    let f = spec_body_fields(g@, 0, empty_buf(), empty_buf(), spec_token_text(ts[0]))->Ok_0;
    assert(f.0.text.len() > 0);
    assert(spec_body(ts, 2, spec_token_text(ts[0])) == Ok::<
        (BufView, BufView, BufView, int, Seq<char>),
        ErrView,
    >((f.0, f.1, f.2, 3, f.3)));
    assert(spec_after_body(ts, 3, f.3) == Ok::<BufView, ErrView>(empty_buf()));
}

/// A declaration with no generic parameter list — the token after the name is
/// not `<`, or there is none — produces empty complex and simple forms and
/// consumes nothing there.
pub proof fn lemma_no_generics_empty(ts: Seq<Token>, i: int, near: Seq<char>)
    requires
        !(0 <= i < ts.len() && ts[i] == Token::Punct('<')),
    ensures
        spec_generics_complex(ts, i, near) == Ok::<(BufView, BufView, int, Seq<char>), ErrView>(
            (empty_buf(), empty_buf(), i, near),
        ),
{
}

/// Once the two generics forms hold text, every outcome of the parameter list
/// holds text: the reader only appends.
proof fn lemma_generics_texts_nonempty(
    ts: Seq<Token>,
    i: int,
    cx: BufView,
    sp: BufView,
    near: Seq<char>,
    in_bound: bool,
)
    requires
        cx.text.len() > 0,
        sp.text.len() > 0,
    ensures
        in_bound ==> (spec_complex_bound(ts, i, cx, sp, near) matches Ok(r) ==> r.0.text.len() > 0
            && r.1.text.len() > 0),
        !in_bound ==> (spec_complex_params(ts, i, cx, sp, near) matches Ok(r) ==> r.0.text.len()
            > 0 && r.1.text.len() > 0),
    decreases ts.len() - i,
{
    if i < 0 || i >= ts.len() {
    } else {
        let t = ts[i];
        if in_bound {
            match t {
                Token::Ident(s) => {
                    lemma_generics_texts_nonempty(
                        ts,
                        i + 1,
                        spec_push_word(cx, s@),
                        sp,
                        s@,
                        true,
                    );
                },
                Token::Punct(c) => {
                    if c == '>' {
                    } else if c == ',' {
                        lemma_generics_texts_nonempty(
                            ts,
                            i + 1,
                            spec_push_sym(cx, seq![',']),
                            spec_push_sym(sp, seq![',']),
                            seq![','],
                            false,
                        );
                    } else if c == '<' {
                        if spec_assoc_start(ts, i + 1) is Ok {
                            crate::parse::lemma_assoc_advances(
                                ts,
                                i + 1,
                                1,
                                spec_push_sym(empty_buf(), seq!['<']),
                                seq!['<'],
                            );
                            let r = spec_assoc_start(ts, i + 1)->Ok_0;
                            lemma_generics_texts_nonempty(
                                ts,
                                r.1,
                                spec_splice(cx, r.0),
                                sp,
                                r.2,
                                true,
                            );
                        }
                    } else if c == '+' || c == ':' || c == '\'' {
                        lemma_generics_texts_nonempty(
                            ts,
                            i + 1,
                            spec_push_sym(cx, seq![c]),
                            sp,
                            seq![c],
                            true,
                        );
                    }
                },
                _ => {},
            }
        } else {
            match t {
                Token::Ident(s) => {
                    lemma_generics_texts_nonempty(
                        ts,
                        i + 1,
                        spec_push_word(cx, s@),
                        spec_push_word(sp, s@),
                        s@,
                        false,
                    );
                },
                Token::Punct(c) => {
                    if c == '>' {
                    } else if c == ',' || c == '\'' {
                        lemma_generics_texts_nonempty(
                            ts,
                            i + 1,
                            spec_push_sym(cx, seq![c]),
                            spec_push_sym(sp, seq![c]),
                            seq![c],
                            false,
                        );
                    } else if c == ':' {
                        lemma_generics_texts_nonempty(
                            ts,
                            i + 1,
                            spec_push_sym(cx, ": "@),
                            sp,
                            near,
                            true,
                        );
                    }
                },
                _ => {},
            }
        }
    }
}

/// Invariants of every parsed declaration: the payload path is never empty,
/// and the complex generics text is empty exactly when the simple generics
/// text is — both are empty without a parameter list, and both hold at least
/// the angle brackets with one.
pub proof fn lemma_declaration_invariants(ts: Seq<Token>)
    ensures
        spec_parse(ts) matches Ok(d) ==> d.imp.len() > 0 && (d.wrap_generics_complex.len() == 0
            <==> d.wrap_generics_simple.len() == 0),
{
    if spec_parse(ts) is Ok {
        let a = spec_find_struct(ts, 0, Seq::empty())->Ok_0;
        let n = spec_take_name(ts, a.0, a.1)->Ok_0;
        if 0 <= n.1 < ts.len() && ts[n.1] == Token::Punct('<') {
            let b0 = spec_push_sym(empty_buf(), seq!['<']);
            lemma_generics_texts_nonempty(ts, n.1 + 1, b0, b0, a.1, false);
        }
    }
}

/// Parsing the same token sequence twice yields the same outcome: any two
/// results that meet the parser's contract on one sequence agree on success,
/// and on success their field text is identical.
pub proof fn lemma_parse_agreement(
    ts: Seq<Token>,
    r1: Result<BoilParse, ParseError>,
    r2: Result<BoilParse, ParseError>,
)
    requires
        rel_parse(r1, spec_parse(ts)),
        rel_parse(r2, spec_parse(ts)),
    ensures
        r1 is Ok <==> r2 is Ok,
        (r1 is Ok && r2 is Ok) ==> r1->Ok_0@ == r2->Ok_0@,
{
}

} // verus!

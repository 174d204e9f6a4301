//! Lexical tokens and the text they render to.
//!
//! A [`Token`] is the smallest unit of the input handed to the parser: an
//! identifier, a single punctuation character, a delimited group of further
//! tokens, or a literal. Rendered text is assembled through [`Buf`], which
//! inserts one separating space between two adjacent word-like pieces so that
//! captured text never glues two identifiers together (`dyn Trait`, not
//! `dynTrait`) when the host compiler re-tokenizes it.

use vstd::prelude::*;
use vstd::string::StringExecFns;

verus! {

/// The delimiter kind of a [`Token::Group`].
#[derive(Clone, Copy, PartialEq, Eq, Structural)]
pub enum Delim {
    Paren,
    Brace,
    Bracket,
}

/// One lexical token of a type declaration.
pub enum Token {
    /// An identifier or keyword, e.g. `struct`, `Foo`.
    Ident(String),
    /// A single punctuation character, e.g. `<`, `>`, `,`, `:`, `'`, `;`.
    Punct(char),
    /// A delimited sub-sequence of tokens.
    Group(Delim, Vec<Token>),
    /// A literal, e.g. `4` or `"s"`, given as its source text.
    Literal(String),
}

pub open spec fn open_char(d: Delim) -> char {
    match d {
        Delim::Paren => '(',
        Delim::Brace => '{',
        Delim::Bracket => '[',
    }
}

pub open spec fn close_char(d: Delim) -> char {
    match d {
        Delim::Paren => ')',
        Delim::Brace => '}',
        Delim::Bracket => ']',
    }
}

/// Word-like tokens take a separating space when they stand next to each
/// other in rendered text; punctuation and groups never do.
pub open spec fn is_word_token(t: Token) -> bool {
    match t {
        Token::Ident(_) => true,
        Token::Literal(_) => true,
        _ => false,
    }
}

/// The state of a text buffer: the text built so far, and whether its last
/// piece was word-like, which decides whether the next word-like piece is
/// preceded by a space.
pub struct BufView {
    pub text: Seq<char>,
    pub word: bool,
}

pub open spec fn empty_buf() -> BufView {
    BufView { text: Seq::empty(), word: false }
}

/// Appends one piece of text to a buffer, spacing it off when both the
/// buffer's last piece and the new piece are word-like.
pub open spec fn spec_push(b: BufView, word: bool, s: Seq<char>) -> BufView {
    BufView {
        text: if b.word && word {
            b.text + seq![' '] + s
        } else {
            b.text + s
        },
        word: word,
    }
}

pub open spec fn spec_push_word(b: BufView, s: Seq<char>) -> BufView {
    spec_push(b, true, s)
}

pub open spec fn spec_push_sym(b: BufView, s: Seq<char>) -> BufView {
    spec_push(b, false, s)
}

/// Appends the text of a finished buffer verbatim; the word flag carries over
/// from the appended buffer.
pub open spec fn spec_splice(b: BufView, c: BufView) -> BufView {
    BufView { text: b.text + c.text, word: c.word }
}

/// The source text of one token. A group renders as its open delimiter, its
/// members' texts (spaced as [`spec_push`] does), and its close delimiter.
pub open spec fn spec_token_text(t: Token) -> Seq<char>
    decreases t, 0int,
{
    match t {
        Token::Ident(s) => s@,
        Token::Punct(c) => seq![c],
        Token::Literal(s) => s@,
        Token::Group(d, ts) => seq![open_char(d)] + spec_group_body(ts@, 0, empty_buf()).text
            + seq![close_char(d)],
    }
}

/// The members of a group from position `j` on, appended to `acc`.
pub open spec fn spec_group_body(ts: Seq<Token>, j: int, acc: BufView) -> BufView
    decreases ts, ts.len() - j,
{
    if j < 0 || j >= ts.len() {
        acc
    } else {
        spec_group_body(ts, j + 1, spec_push(acc, is_word_token(ts[j]), spec_token_text(ts[j])))
    }
}

/// Appends one token's text to a buffer, spaced by the token's kind.
pub open spec fn spec_push_token(b: BufView, t: Token) -> BufView {
    spec_push(b, is_word_token(t), spec_token_text(t))
}

/// Relies on `alloc::string::String::push`: appends the given character to
/// the end of the string.
pub assume_specification[ String::push ](s: &mut String, ch: char)
    ensures
        final(s)@ == old(s)@ + seq![ch],
;

/// Relies on `str`'s `PartialEq`: two string slices are `==` exactly when
/// their characters are equal.
#[verifier::external_body]
pub fn str_eq(a: &str, b: &str) -> (r: bool)
    ensures
        r == (a@ == b@),
{
    a == b
}

/// A one-character string, for diagnostics that cite a punctuation token.
pub fn char_string(c: char) -> (r: String)
    ensures
        r@ == seq![c],
{
    let mut s = String::new();
    s.push(c);
    proof {
        assert(s@ =~= seq![c]);
    }
    s
}

pub fn is_word_token_exec(t: &Token) -> (r: bool)
    ensures
        r == is_word_token(*t),
{
    match t {
        Token::Ident(_) => true,
        Token::Literal(_) => true,
        _ => false,
    }
}

/// The source text of one token.
pub fn token_text(t: &Token) -> (r: String)
    ensures
        r@ == spec_token_text(*t),
    decreases *t,
{
    match t {
        Token::Ident(s) => s.clone(),
        Token::Literal(s) => s.clone(),
        Token::Punct(c) => {
            let mut r = String::new();
            r.push(*c);
            proof {
                assert(r@ =~= seq![*c]);
            }
            r
        },
        Token::Group(d, ts) => {
            let mut r = String::new();
            r.push(match d {
                Delim::Paren => '(',
                Delim::Brace => '{',
                Delim::Bracket => '[',
            });
            let mut body = Buf::new();
            let mut j: usize = 0;
            while j < ts.len()
                invariant
                    j <= ts.len(),
                    *t == Token::Group(*d, *ts),
                    spec_group_body(ts@, 0, empty_buf()) == spec_group_body(ts@, j as int, body@),
                decreases ts.len() - j,
            {
                proof {
                    vstd::std_specs::vec::axiom_vec_decreases_to_view::<Token>(*ts);
                    vstd::seq::axiom_seq_index_decreases::<Token>(ts@, j as int);
                    assert(decreases_to!(*t => (*t)->Group_1));
                    assert((*t)->Group_1 == *ts);
                    assert(decreases_to!(*t => ts@[j as int]));
                }
                let piece = token_text(&ts[j]);
                body.push_piece(is_word_token_exec(&ts[j]), piece.as_str());
                j = j + 1;
            }
            assert(body@ == spec_group_body(ts@, 0, empty_buf()));
            r.append(body.text.as_str());
            r.push(match d {
                Delim::Paren => ')',
                Delim::Brace => '}',
                Delim::Bracket => ']',
            });
            proof {
                assert(r@ =~= spec_token_text(*t));
            }
            r
        },
    }
}

/// A text buffer that spaces off adjacent word-like pieces, as
/// [`spec_push`] describes.
pub struct Buf {
    text: String,
    word: bool,
}

impl View for Buf {
    type V = BufView;

    closed spec fn view(&self) -> BufView {
        BufView { text: self.text@, word: self.word }
    }
}

impl Buf {
    pub fn new() -> (r: Buf)
        ensures
            r@ == empty_buf(),
    {
        Buf { text: String::new(), word: false }
    }

    /// Appends one piece, spacing it off when both the buffer's last piece
    /// and this one are word-like.
    pub fn push_piece(&mut self, word: bool, s: &str)
        ensures
            final(self)@ == spec_push(old(self)@, word, s@),
    {
        if self.word && word {
            self.text.append(" ");
            proof {
                reveal_strlit(" ");
                assert(" "@ =~= seq![' ']);
            }
        }
        self.text.append(s);
        self.word = word;
    }

    pub fn push_word(&mut self, s: &str)
        ensures
            final(self)@ == spec_push_word(old(self)@, s@),
    {
        self.push_piece(true, s);
    }

    pub fn push_sym(&mut self, s: &str)
        ensures
            final(self)@ == spec_push_sym(old(self)@, s@),
    {
        self.push_piece(false, s);
    }

    pub fn push_char(&mut self, c: char)
        ensures
            final(self)@ == spec_push_sym(old(self)@, seq![c]),
    {
        self.text.push(c);
        self.word = false;
    }

    /// Appends one token's text, spaced by the token's kind.
    pub fn push_token(&mut self, t: &Token)
        ensures
            final(self)@ == spec_push_token(old(self)@, *t),
    {
        let s = token_text(t);
        self.push_piece(is_word_token_exec(t), s.as_str());
    }

    /// Appends a finished buffer verbatim.
    pub fn splice(&mut self, other: &Buf)
        ensures
            final(self)@ == spec_splice(old(self)@, other@),
    {
        self.text.append(other.text.as_str());
        self.word = other.word;
    }

    pub fn text_equals(&self, s: &str) -> (r: bool)
        ensures
            r == (self@.text == s@),
    {
        str_eq(self.text.as_str(), s)
    }

    pub fn is_empty(&self) -> (r: bool)
        ensures
            r == (self@.text.len() == 0),
    {
        self.text.as_str().is_empty()
    }

    pub fn into_text(self) -> (r: String)
        ensures
            r@ == self@.text,
    {
        self.text
    }
}

} // verus!

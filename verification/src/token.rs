//! Token trees: the lexical form in which a test specification is read.
//!
//! A specification is a sequence of token trees: identifiers, punctuation
//! characters, literals, and delimited groups that hold token trees of their
//! own. The parsers of this crate work on `Vec<Token>`; their contracts are
//! stated over the mathematical model `Seq<Tok>`.

use crate::text::push_char;
use vstd::prelude::*;
use vstd::string::*;

verus! {

/// The brackets around a group of tokens.
#[derive(Clone, Copy, PartialEq, Eq, Structural, Debug)]
pub enum Delimiter {
    /// `( ... )`
    Parenthesis,
    /// `{ ... }`
    Brace,
    /// `[ ... ]`
    Bracket,
    /// A group without visible brackets.
    Invisible,
}

/// One token tree.
#[derive(PartialEq, Eq, Debug)]
pub enum Token {
    /// A word: an identifier or a keyword, with its text.
    Ident(String),
    /// One punctuation character; `true` when the next token is a punctuation
    /// character that follows it without a gap, as the `=` in `=>`.
    Punct(char, bool),
    /// A literal, with its text as written.
    Literal(String),
    /// A delimited group and the token trees inside it.
    Group(Delimiter, Vec<Token>),
}

/// The mathematical model of a [`Token`].
pub enum Tok {
    Ident(Seq<char>),
    Punct(char, bool),
    Literal(Seq<char>),
    Group(Delimiter, Seq<Tok>),
}

/// The model of one token.
pub open spec fn token_model(t: Token) -> Tok
    decreases t,
{
    match t {
        Token::Ident(text) => Tok::Ident(text@),
        Token::Punct(c, joint) => Tok::Punct(c, joint),
        Token::Literal(text) => Tok::Literal(text@),
        Token::Group(d, inner) => Tok::Group(
            d,
            Seq::new(
                inner@.len(),
                |i: int|
                    if 0 <= i < inner@.len() {
                        token_model(inner@[i])
                    } else {
                        arbitrary()
                    },
            ),
        ),
    }
}

impl DeepView for Token {
    type V = Tok;

    open spec fn deep_view(&self) -> Tok {
        token_model(*self)
    }
}

/// A group's model holds the models of the tokens inside it.
pub proof fn lemma_group_model(d: Delimiter, inner: Vec<Token>)
    ensures
        Token::Group(d, inner).deep_view() == Tok::Group(d, inner.deep_view()),
{
    assert(token_model(Token::Group(d, inner))->Group_1 =~= inner.deep_view());
}

/// Copies of the tokens of a sequence, in order.
pub fn clone_tokens(tokens: &Vec<Token>) -> (r: Vec<Token>)
    ensures
        r.deep_view() == tokens.deep_view(),
    decreases tokens,
{
    let mut copies: Vec<Token> = Vec::new();
    let mut i: usize = 0;
    while i < tokens.len()
        invariant
            i <= tokens.len(),
            copies.len() == i,
            forall|k: int| 0 <= k < i ==> copies@[k].deep_view() == tokens@[k].deep_view(),
        decreases tokens.len() - i,
    {
        copies.push(tokens[i].clone());
        i += 1;
    }
    assert(copies.deep_view() =~= tokens.deep_view());
    copies
}

impl Clone for Token {
    /// A copy of the token, with copies of all the tokens inside it.
    fn clone(&self) -> (r: Token)
        ensures
            r.deep_view() == self.deep_view(),
        decreases self,
    {
        match self {
            Token::Ident(text) => Token::Ident(text.clone()),
            Token::Punct(c, joint) => Token::Punct(*c, *joint),
            Token::Literal(text) => Token::Literal(text.clone()),
            Token::Group(d, inner) => {
                let copies = clone_tokens(inner);
                proof {
                    lemma_group_model(*d, *inner);
                    lemma_group_model(*d, copies);
                }
                Token::Group(*d, copies)
            },
        }
    }
}

/// The text that opens a group.
pub open spec fn opening(d: Delimiter) -> Seq<char> {
    match d {
        Delimiter::Parenthesis => seq!['('],
        Delimiter::Brace => seq!['{'],
        Delimiter::Bracket => seq!['['],
        Delimiter::Invisible => seq![],
    }
}

/// The text that closes a group.
pub open spec fn closing(d: Delimiter) -> Seq<char> {
    match d {
        Delimiter::Parenthesis => seq![')'],
        Delimiter::Brace => seq!['}'],
        Delimiter::Bracket => seq![']'],
        Delimiter::Invisible => seq![],
    }
}

/// What stands between the first `n` tokens of `s` and the next one: nothing
/// at the start and after a punctuation character that is joined to its
/// successor, one space otherwise.
pub open spec fn separator(s: Seq<Tok>, n: nat) -> Seq<char> {
    if n == 0 || n > s.len() {
        seq![]
    } else if s[n - 1] matches Tok::Punct(_, joint) && joint {
        seq![]
    } else {
        seq![' ']
    }
}

/// The source text of one token.
pub open spec fn token_text(t: Tok) -> Seq<char>
    decreases t, 0nat,
{
    match t {
        Tok::Ident(text) => text,
        Tok::Punct(c, _) => seq![c],
        Tok::Literal(text) => text,
        Tok::Group(d, inner) => opening(d) + rendered_prefix(inner, inner.len()) + closing(d),
    }
}

/// The source text of the first `n` tokens of `s`.
pub open spec fn rendered_prefix(s: Seq<Tok>, n: nat) -> Seq<char>
    decreases s, n,
{
    if n == 0 || n > s.len() {
        seq![]
    } else {
        rendered_prefix(s, (n - 1) as nat) + separator(s, (n - 1) as nat) + token_text(s[n - 1])
    }
}

/// The source text of a token sequence: the tokens' texts in order, each two
/// set apart by [`separator`].
pub open spec fn rendered(s: Seq<Tok>) -> Seq<char> {
    rendered_prefix(s, s.len())
}

fn push_opening(out: &mut String, d: Delimiter)
    ensures
        final(out)@ == old(out)@ + opening(d),
{
    match d {
        Delimiter::Parenthesis => push_char(out, '('),
        Delimiter::Brace => push_char(out, '{'),
        Delimiter::Bracket => push_char(out, '['),
        Delimiter::Invisible => {},
    }
    assert(out@ =~= old(out)@ + opening(d));
}

fn push_closing(out: &mut String, d: Delimiter)
    ensures
        final(out)@ == old(out)@ + closing(d),
{
    match d {
        Delimiter::Parenthesis => push_char(out, ')'),
        Delimiter::Brace => push_char(out, '}'),
        Delimiter::Bracket => push_char(out, ']'),
        Delimiter::Invisible => {},
    }
    assert(out@ =~= old(out)@ + closing(d));
}

/// Whether a token is a punctuation character joined to its successor.
fn is_joint(token: &Token) -> (r: bool)
    ensures
        r == (token.deep_view() matches Tok::Punct(_, joint) && joint),
{
    match token {
        Token::Punct(_, joint) => *joint,
        _ => false,
    }
}

/// The text of a prefix is the text of the prefix before it, the separator
/// and the text of its last token.
pub proof fn lemma_rendered_step(s: Seq<Tok>, n: nat)
    requires
        n < s.len(),
    ensures
        rendered_prefix(s, n + 1) == rendered_prefix(s, n) + separator(s, n) + token_text(
            s[n as int],
        ),
{
}

/// Appends the source text of one token to `out`.
pub fn render_token(out: &mut String, token: &Token)
    ensures
        final(out)@ == old(out)@ + token_text(token.deep_view()),
    decreases token,
{
    match token {
        Token::Ident(text) => out.append(text.as_str()),
        Token::Punct(c, _) => {
            push_char(out, *c);
            assert(out@ =~= old(out)@ + seq![*c]);
        },
        Token::Literal(text) => out.append(text.as_str()),
        Token::Group(d, inner) => {
            proof {
                lemma_group_model(*d, *inner);
                assert(inner.deep_view().subrange(0, inner.len() as int) =~= inner.deep_view());
            }
            push_opening(out, *d);
            render_into(out, inner, 0, inner.len());
            push_closing(out, *d);
            assert(out@ =~= old(out)@ + (opening(*d) + rendered(inner.deep_view()) + closing(*d)));
        },
    }
}

/// Appends the source text of `tokens[from..to]` to `out`.
pub fn render_into(out: &mut String, tokens: &Vec<Token>, from: usize, to: usize)
    requires
        from <= to <= tokens.len(),
    ensures
        final(out)@ == old(out)@ + rendered(tokens.deep_view().subrange(from as int, to as int)),
    decreases tokens,
{
    let ghost part = tokens.deep_view().subrange(from as int, to as int);
    let mut i: usize = from;
    assert(out@ =~= old(out)@ + rendered_prefix(part, 0));
    while i < to
        invariant
            from <= i <= to <= tokens.len(),
            part == tokens.deep_view().subrange(from as int, to as int),
            out@ == old(out)@ + rendered_prefix(part, (i - from) as nat),
        decreases to - i,
    {
        let ghost before = out@;
        let ghost n = (i - from) as nat;
        proof {
            lemma_rendered_step(part, n);
            assert(part[n as int] == tokens@[i as int].deep_view());
        }
        if i > from && !is_joint(&tokens[i - 1]) {
            assert(part[n - 1] == tokens@[i - 1].deep_view());
            push_char(out, ' ');
        }
        assert(out@ =~= before + separator(part, n));
        render_token(out, &tokens[i]);
        assert(out@ =~= old(out)@ + (rendered_prefix(part, n) + separator(part, n) + token_text(
            part[n as int],
        )));
        i += 1;
    }
}

/// The source text of `tokens[from..to]`.
pub fn render(tokens: &Vec<Token>, from: usize, to: usize) -> (r: String)
    requires
        from <= to <= tokens.len(),
    ensures
        r@ == rendered(tokens.deep_view().subrange(from as int, to as int)),
{
    let mut out = String::new();
    render_into(&mut out, tokens, from, to);
    assert(out@ =~= rendered(tokens.deep_view().subrange(from as int, to as int)));
    out
}

} // verus!

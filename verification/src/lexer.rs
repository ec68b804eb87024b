//! From text to token trees.
//!
//! Splitting text into tokens is the work of `proc_macro2`; this module hands
//! the result on as [`Token`]s.
//!
//! One lexer reads every text: the lexer of `proc_macro2` itself. This crate
//! asks for `proc_macro2` without its `proc-macro` feature, which leaves it
//! no other lexer and no other printer. Should another crate of a build
//! switch the feature on, `proc_macro2` would hand texts to the compiler's
//! lexer inside a procedural macro; so each function here that has a text
//! read puts the call between `proc_macro2::fallback::force` and `unforce`,
//! which keeps to the lexer of `proc_macro2` for the length of the call, as
//! long as no other thread of the process changes that setting meanwhile.
//! The tokens of a text are thus the same in every process.

use crate::error::{ErrorKind, Failure, ParseError};
use crate::token::{lemma_group_model, rendered, Delimiter, Tok, Token};
use vstd::prelude::*;

verus! {

/// The token stream of `proc_macro2`: a sequence of token trees.
#[verifier::external_type_specification]
#[verifier::external_body]
pub struct ExTokenStream(proc_macro2::TokenStream);

/// The token trees that a stream holds, in order.
pub uninterp spec fn stream_content(stream: proc_macro2::TokenStream) -> Seq<Tok>;

/// The token trees that a text is made of, or `None` where the text is no
/// sequence of tokens: as the lexer of `proc_macro2` itself reads the text.
pub uninterp spec fn lexed(text: Seq<char>) -> Option<Seq<Tok>>;

/// Lexes a text with `proc_macro2::TokenStream::from_str`.
///
/// The contract names the outcome: the stream holds the token trees of the
/// text, and there is none exactly when the lexer rejects the text.
/// The whole of the work stands between `proc_macro2::fallback::force` and
/// `unforce`, so that the lexer of `proc_macro2` itself reads the text
/// whatever the process is.
#[verifier::external_body]
fn lex(text: &str) -> (r: Option<proc_macro2::TokenStream>)
    ensures
        match r {
            Some(stream) => lexed(text@) == Some(stream_content(stream)),
            None => lexed(text@) is None,
        },
{
    proc_macro2::fallback::force();
    let stream = <proc_macro2::TokenStream as std::str::FromStr>::from_str(text).ok();
    proc_macro2::fallback::unforce();
    stream
}

/// Whether a token sequence reads back from its own text: whether lexing the
/// text that [`rendered`] gives of it gives the sequence again. It is what
/// is expected of every sequence that [`tokenize`] gives; of a sequence made
/// by hand it need not hold.
pub open spec fn reads_back(s: Seq<Tok>) -> bool {
    lexed(rendered(s)) == Some(s)
}

/// One token tree of a stream; the stream inside a group is still to be
/// read.
enum Piece {
    Ident(String),
    Punct(char, bool),
    Literal(String),
    Group(Delimiter, proc_macro2::TokenStream),
}

/// The token that a piece stands for.
spec fn piece_model(piece: Piece) -> Tok {
    match piece {
        Piece::Ident(text) => Tok::Ident(text@),
        Piece::Punct(c, joint) => Tok::Punct(c, joint),
        Piece::Literal(text) => Tok::Literal(text@),
        Piece::Group(d, inner) => Tok::Group(d, stream_content(inner)),
    }
}

/// The tokens that a sequence of pieces stands for.
spec fn pieces_model(pieces: Seq<Piece>) -> Seq<Tok> {
    Seq::new(pieces.len(), |i: int| piece_model(pieces[i]))
}

/// Hands out the token trees of a stream, walked with its `into_iter`.
///
/// Each tree of `proc_macro2` becomes the piece of the same kind: an
/// identifier or a literal with the text of its `to_string`, a punctuation
/// character with its `as_char` and whether its `spacing` is joint, a group
/// with its `delimiter` and its `stream`.
#[verifier::external_body]
fn stream_pieces(stream: &proc_macro2::TokenStream) -> (r: Vec<Piece>)
    ensures
        pieces_model(r@) == stream_content(*stream),
{
    let mut pieces = Vec::new();
    for tree in stream.clone() {
        pieces.push(match tree {
            proc_macro2::TokenTree::Ident(word) => Piece::Ident(word.to_string()),
            proc_macro2::TokenTree::Punct(p) => Piece::Punct(p.as_char(), p.spacing() == proc_macro2::Spacing::Joint),
            proc_macro2::TokenTree::Literal(literal) => Piece::Literal(literal.to_string()),
            proc_macro2::TokenTree::Group(g) => Piece::Group(match g.delimiter() {
                proc_macro2::Delimiter::Parenthesis => Delimiter::Parenthesis,
                proc_macro2::Delimiter::Brace => Delimiter::Brace,
                proc_macro2::Delimiter::Bracket => Delimiter::Bracket,
                proc_macro2::Delimiter::None => Delimiter::Invisible,
            }, g.stream()),
        });
    }
    pieces
}

/// Reads a stream into tokens, and the streams inside its groups with it.
fn stream_tokens(stream: &proc_macro2::TokenStream) -> (r: Vec<Token>)
    ensures
        r.deep_view() == stream_content(*stream),
    decreases stream_content(*stream),
{
    let pieces = stream_pieces(stream);
    let ghost all = stream_content(*stream);
    let mut tokens: Vec<Token> = Vec::new();
    let mut i: usize = 0;
    assert(tokens.deep_view() =~= all.take(0));
    while i < pieces.len()
        invariant
            i <= pieces.len(),
            all == stream_content(*stream),
            all == pieces_model(pieces@),
            tokens.deep_view() == all.take(i as int),
        decreases pieces.len() - i,
    {
        let ghost so_far = tokens.deep_view();
        assert(all[i as int] == piece_model(pieces@[i as int]));
        let token = match &pieces[i] {
            Piece::Ident(text) => Token::Ident(text.clone()),
            Piece::Punct(c, joint) => Token::Punct(*c, *joint),
            Piece::Literal(text) => Token::Literal(text.clone()),
            Piece::Group(d, inner) => {
                proof {
                    // The content of the inner stream is a part of a token of this stream.
                    assert(all[i as int] == Tok::Group(*d, stream_content(*inner)));
                    assert(decreases_to!(all => all[i as int]));
                    assert(all[i as int]->Group_1 == stream_content(*inner));
                    assert(decreases_to!(all[i as int] => all[i as int]->Group_1));
                }
                let inside = stream_tokens(inner);
                proof {
                    lemma_group_model(*d, inside);
                }
                Token::Group(*d, inside)
            },
        };
        tokens.push(token);
        assert(tokens.deep_view() =~= so_far.push(token.deep_view()));
        assert(tokens.deep_view() =~= all.take(i + 1));
        i += 1;
    }
    assert(all.take(pieces.len() as int) =~= all);
    tokens
}

/// Splits a text into token trees.
///
/// Fails with [`ErrorKind::Lexical`], at no place in particular, exactly when
/// the text is no sequence of tokens.
pub fn tokenize(text: &str) -> (r: Result<Vec<Token>, ParseError>)
    ensures
        match r {
            Ok(tokens) => lexed(text@) == Some(tokens.deep_view()),
            Err(e) => lexed(text@) is None && e.deep_view() == (Failure {
                kind: ErrorKind::Lexical,
                path: Seq::empty(),
            }),
        },
{
    match lex(text) {
        Some(stream) => Ok(stream_tokens(&stream)),
        None => Err(ParseError { kind: ErrorKind::Lexical, path: Vec::new() }),
    }
}

} // verus!

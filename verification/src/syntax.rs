//! The building blocks of the three grammars: what stands at a place of a
//! token sequence, and where an expression ends.

use crate::error::{keyword_text, keyword_word, ErrorKind, Failure, Keyword, ParseError};
use crate::text::same_text;
use crate::token::{render, rendered, Delimiter, Tok, Token};
use vstd::prelude::*;

verus! {

/// Whether a parse result is the one that the grammar gives: the same value
/// or the same error, seen through their models.
pub open spec fn agrees<T: DeepView>(r: Result<T, ParseError>, m: Result<T::V, Failure>) -> bool {
    match r {
        Ok(v) => m == Ok::<T::V, Failure>(v.deep_view()),
        Err(e) => m == Err::<T::V, Failure>(e.deep_view()),
    }
}

/// The words that cannot serve as identifiers: the keywords of Rust, strict
/// and reserved, and the lone underscore.
pub open spec fn is_reserved(word: Seq<char>) -> bool {
    ||| word == "_"@
    ||| word == "abstract"@
    ||| word == "as"@
    ||| word == "async"@
    ||| word == "await"@
    ||| word == "become"@
    ||| word == "box"@
    ||| word == "break"@
    ||| word == "const"@
    ||| word == "continue"@
    ||| word == "crate"@
    ||| word == "do"@
    ||| word == "dyn"@
    ||| word == "else"@
    ||| word == "enum"@
    ||| word == "extern"@
    ||| word == "false"@
    ||| word == "final"@
    ||| word == "fn"@
    ||| word == "for"@
    ||| word == "if"@
    ||| word == "impl"@
    ||| word == "in"@
    ||| word == "let"@
    ||| word == "loop"@
    ||| word == "macro"@
    ||| word == "match"@
    ||| word == "mod"@
    ||| word == "move"@
    ||| word == "mut"@
    ||| word == "override"@
    ||| word == "priv"@
    ||| word == "pub"@
    ||| word == "ref"@
    ||| word == "return"@
    ||| word == "Self"@
    ||| word == "self"@
    ||| word == "static"@
    ||| word == "struct"@
    ||| word == "super"@
    ||| word == "trait"@
    ||| word == "true"@
    ||| word == "try"@
    ||| word == "type"@
    ||| word == "typeof"@
    ||| word == "unsafe"@
    ||| word == "unsized"@
    ||| word == "use"@
    ||| word == "virtual"@
    ||| word == "where"@
    ||| word == "while"@
    ||| word == "yield"@
}

/// Whether a word is reserved.
pub fn is_reserved_word(word: &str) -> (r: bool)
    ensures
        r == is_reserved(word@),
{
    same_text(word, "_")
        || same_text(word, "abstract")
        || same_text(word, "as")
        || same_text(word, "async")
        || same_text(word, "await")
        || same_text(word, "become")
        || same_text(word, "box")
        || same_text(word, "break")
        || same_text(word, "const")
        || same_text(word, "continue")
        || same_text(word, "crate")
        || same_text(word, "do")
        || same_text(word, "dyn")
        || same_text(word, "else")
        || same_text(word, "enum")
        || same_text(word, "extern")
        || same_text(word, "false")
        || same_text(word, "final")
        || same_text(word, "fn")
        || same_text(word, "for")
        || same_text(word, "if")
        || same_text(word, "impl")
        || same_text(word, "in")
        || same_text(word, "let")
        || same_text(word, "loop")
        || same_text(word, "macro")
        || same_text(word, "match")
        || same_text(word, "mod")
        || same_text(word, "move")
        || same_text(word, "mut")
        || same_text(word, "override")
        || same_text(word, "priv")
        || same_text(word, "pub")
        || same_text(word, "ref")
        || same_text(word, "return")
        || same_text(word, "Self")
        || same_text(word, "self")
        || same_text(word, "static")
        || same_text(word, "struct")
        || same_text(word, "super")
        || same_text(word, "trait")
        || same_text(word, "true")
        || same_text(word, "try")
        || same_text(word, "type")
        || same_text(word, "typeof")
        || same_text(word, "unsafe")
        || same_text(word, "unsized")
        || same_text(word, "use")
        || same_text(word, "virtual")
        || same_text(word, "where")
        || same_text(word, "while")
        || same_text(word, "yield")
}

/// The text of the word at place `i`, reserved or not.
pub open spec fn word_at(s: Seq<Tok>, i: int) -> Option<Seq<char>> {
    if 0 <= i < s.len() && s[i] is Ident {
        Some(s[i]->Ident_0)
    } else {
        None
    }
}

/// The text of the identifier at place `i`: a word that is not reserved.
pub open spec fn identifier_at(s: Seq<Tok>, i: int) -> Option<Seq<char>> {
    match word_at(s, i) {
        Some(word) => if is_reserved(word) {
            None
        } else {
            Some(word)
        },
        None => None,
    }
}

/// Whether the punctuation character `c` stands at place `i`.
pub open spec fn punct_at(s: Seq<Tok>, i: int, c: char) -> bool {
    0 <= i < s.len() && s[i] is Punct && s[i]->Punct_0 == c
}

/// Whether `=>` stands at places `i` and `i + 1`.
pub open spec fn arrow_at(s: Seq<Tok>, i: int) -> bool {
    &&& punct_at(s, i, '=')
    &&& s[i]->Punct_1
    &&& punct_at(s, i + 1, '>')
}

/// The tokens inside the group at place `i`, if a group with delimiter `d`
/// stands there.
pub open spec fn group_at(s: Seq<Tok>, i: int, d: Delimiter) -> Option<Seq<Tok>> {
    if 0 <= i < s.len() && s[i] is Group && s[i]->Group_0 == d {
        Some(s[i]->Group_1)
    } else {
        None
    }
}

/// The place after an optional comma at place `i`.
pub open spec fn after_comma(s: Seq<Tok>, i: int) -> int {
    if punct_at(s, i, ',') {
        i + 1
    } else {
        i
    }
}

/// The text of the word at place `i`, reserved or not.
pub fn word<'a>(tokens: &'a Vec<Token>, i: usize) -> (r: Option<&'a String>)
    ensures
        match r {
            Some(text) => word_at(tokens.deep_view(), i as int) == Some(text@),
            None => word_at(tokens.deep_view(), i as int) is None,
        },
{
    if i < tokens.len() {
        match &tokens[i] {
            Token::Ident(text) => Some(text),
            _ => None,
        }
    } else {
        None
    }
}

/// Whether the word `expected` stands at place `i`.
pub fn is_word(tokens: &Vec<Token>, i: usize, expected: &str) -> (r: bool)
    ensures
        r == (word_at(tokens.deep_view(), i as int) == Some(expected@)),
{
    match word(tokens, i) {
        Some(text) => same_text(text.as_str(), expected),
        None => false,
    }
}

/// The text of the identifier at place `i`.
pub fn identifier<'a>(tokens: &'a Vec<Token>, i: usize) -> (r: Option<&'a String>)
    ensures
        match r {
            Some(text) => identifier_at(tokens.deep_view(), i as int) == Some(text@),
            None => identifier_at(tokens.deep_view(), i as int) is None,
        },
{
    match word(tokens, i) {
        Some(text) => if is_reserved_word(text.as_str()) {
            None
        } else {
            Some(text)
        },
        None => None,
    }
}

/// Whether the punctuation character `c` stands at place `i`.
pub fn is_punct(tokens: &Vec<Token>, i: usize, c: char) -> (r: bool)
    ensures
        r == punct_at(tokens.deep_view(), i as int, c),
{
    if i < tokens.len() {
        match &tokens[i] {
            Token::Punct(found, _) => *found == c,
            _ => false,
        }
    } else {
        false
    }
}

/// Whether `=>` stands at places `i` and `i + 1`.
pub fn is_arrow(tokens: &Vec<Token>, i: usize) -> (r: bool)
    ensures
        r == arrow_at(tokens.deep_view(), i as int),
{
    if i < tokens.len() && i + 1 < tokens.len() {
        let joined = match &tokens[i] {
            Token::Punct(found, joint) => *found == '=' && *joint,
            _ => false,
        };
        joined && is_punct(tokens, i + 1, '>')
    } else {
        false
    }
}

/// The tokens inside the group at place `i`, if a group with delimiter `d`
/// stands there.
pub fn group<'a>(tokens: &'a Vec<Token>, i: usize, d: Delimiter) -> (r: Option<&'a Vec<Token>>)
    ensures
        match r {
            Some(inner) => group_at(tokens.deep_view(), i as int, d) == Some(inner.deep_view()),
            None => group_at(tokens.deep_view(), i as int, d) is None,
        },
{
    if i < tokens.len() {
        match &tokens[i] {
            Token::Group(found, inner) => {
                proof {
                    crate::token::lemma_group_model(*found, *inner);
                }
                if *found == d {
                    Some(inner)
                } else {
                    None
                }
            },
            _ => None,
        }
    } else {
        None
    }
}

/// The place after an optional comma at place `i`.
pub fn skip_comma(tokens: &Vec<Token>, i: usize) -> (r: usize)
    ensures
        r == after_comma(tokens.deep_view(), i as int),
        i <= r,
        i <= tokens.len() ==> r <= tokens.len(),
{
    if is_punct(tokens, i, ',') {
        assert(tokens.deep_view().len() == tokens.len());
        i + 1
    } else {
        i
    }
}

/// What stands behind an item of a list, at place `i`: the end of the list,
/// or a comma, behind which the next item may start. The result is the place
/// to go on from. Any other token is an error at its place.
pub open spec fn separator_at(s: Seq<Tok>, i: int) -> Result<int, Failure> {
    if i >= s.len() {
        Ok(i)
    } else if punct_at(s, i, ',') {
        Ok(i + 1)
    } else {
        Err(Failure::at(ErrorKind::ExpectedComma, i))
    }
}

/// Reads what stands behind an item of a list, at place `i`.
pub fn parse_separator(tokens: &Vec<Token>, i: usize) -> (r: Result<usize, ParseError>)
    ensures
        match r {
            Ok(next) => separator_at(tokens.deep_view(), i as int) == Ok::<int, Failure>(
                next as int,
            ) && i <= next && (i <= tokens.len() ==> next <= tokens.len()),
            Err(e) => separator_at(tokens.deep_view(), i as int) == Err::<int, Failure>(
                e.deep_view(),
            ),
        },
{
    assert(tokens.deep_view().len() == tokens.len());
    if i >= tokens.len() {
        Ok(i)
    } else if is_punct(tokens, i, ',') {
        Ok(i + 1)
    } else {
        Err(ParseError::at(ErrorKind::ExpectedComma, i))
    }
}

/// An expression, held as its source text.
#[derive(Clone, PartialEq, Eq, Debug)]
pub struct Expr {
    pub text: String,
}

impl DeepView for Expr {
    type V = Seq<char>;

    open spec fn deep_view(&self) -> Seq<char> {
        self.text@
    }
}

/// How many token trees of a text are left over once one expression of Rust
/// has been read from its start; `None` where the text is no sequence of
/// tokens or does not start with an expression. The tokens of the text are
/// those that the lexer of `proc_macro2` itself reads.
pub uninterp spec fn tokens_after_expression(text: Seq<char>) -> Option<nat>;

/// Reads one expression from the start of a text with the expression parser
/// of `syn`, and counts the token trees behind it.
///
/// The text goes through `syn::parse::Parser::parse_str`, with a parser that
/// reads one `syn::Expr` and then takes the rest of the input as a token
/// stream. The contract names the outcome: the number of token trees in that
/// rest, or `None` where `syn` reports an error.
/// The whole of the work stands between `proc_macro2::fallback::force` and
/// `unforce`, so that the lexer of `proc_macro2` itself reads the text
/// whatever the process is.
#[verifier::external_body]
fn expression_rest(text: &str) -> (r: Option<usize>)
    ensures
        match r {
            Some(rest) => tokens_after_expression(text@) == Some(rest as nat),
            None => tokens_after_expression(text@) is None,
        },
{
    let parser = |input: syn::parse::ParseStream| -> syn::Result<usize> {
        input.parse::<syn::Expr>()?;
        Ok(input.parse::<proc_macro2::TokenStream>()?.into_iter().count())
    };
    proc_macro2::fallback::force();
    let rest = syn::parse::Parser::parse_str(parser, text).ok();
    proc_macro2::fallback::unforce();
    rest
}

/// The tokens from place `i` on that are cut off as one expression, given
/// how many tokens are to be left over at the end of `s`: the text of the
/// tokens from `i` up to where the rest starts, and that place. `None` where
/// no rest is given, where `i` is no place of `s`, and where the rest would
/// leave no token for the expression.
pub open spec fn expression_cut(s: Seq<Tok>, i: int, rest: Option<nat>) -> Option<
    (Seq<char>, int),
> {
    match rest {
        Some(k) => if 0 <= i <= s.len() && k < s.len() - i {
            Some((rendered(s.subrange(i, s.len() - k)), s.len() - k))
        } else {
            None
        },
        None => None,
    }
}

/// The expression that starts at place `i`: its text, and the place after
/// it. The tokens from `i` on are written as text, and from the end of `s`
/// as many tokens are left over as the expression parser leaves token trees
/// of that text. For a sequence that reads back from its text, as
/// [`crate::lexer::reads_back`] says it, those are the tokens behind the
/// expression.
pub open spec fn expression_at(s: Seq<Tok>, i: int) -> Option<(Seq<char>, int)> {
    if 0 <= i <= s.len() {
        expression_cut(s, i, tokens_after_expression(rendered(s.skip(i))))
    } else {
        None
    }
}

/// Cuts the expression that starts at place `i` off the tokens, given how
/// many tokens are to be left over at the end.
pub fn expression_from_rest(tokens: &Vec<Token>, i: usize, rest: Option<usize>) -> (r: Option<
    (Expr, usize),
>)
    ensures
        match r {
            Some((expr, next)) => expression_cut(
                tokens.deep_view(),
                i as int,
                match rest {
                    Some(k) => Some(k as nat),
                    None => None,
                },
            ) == Some((expr.deep_view(), next as int)) && i < next <= tokens.len(),
            None => expression_cut(
                tokens.deep_view(),
                i as int,
                match rest {
                    Some(k) => Some(k as nat),
                    None => None,
                },
            ) is None,
        },
        r is Some <==> rest is Some && i <= tokens.len() && rest->Some_0 < tokens.len() - i,
        r matches Some((expr, next)) ==> next == tokens.len() - rest->Some_0 && expr.deep_view()
            == rendered(tokens.deep_view().subrange(i as int, next as int)),
{
    let len = tokens.len();
    match rest {
        Some(k) => {
            if i <= len && k < len - i {
                let next = len - k;
                let text = render(tokens, i, next);
                Some((Expr { text }, next))
            } else {
                None
            }
        },
        None => None,
    }
}

/// Reads the expression that starts at place `i`.
pub fn parse_expression(tokens: &Vec<Token>, i: usize) -> (r: Option<(Expr, usize)>)
    ensures
        match r {
            Some((expr, next)) => expression_at(tokens.deep_view(), i as int) == Some(
                (expr.deep_view(), next as int),
            ) && i < next <= tokens.len(),
            None => expression_at(tokens.deep_view(), i as int) is None,
        },
{
    let len = tokens.len();
    if i > len {
        return None;
    }
    let tail = render(tokens, i, len);
    expression_from_rest(tokens, i, expression_rest(tail.as_str()))
}

/// What a comma-separated list of expressions means, read from place `i` on
/// with `acc` already read: each expression in turn, with a comma between
/// each two and, optionally, behind the last.
pub open spec fn expressions_from(s: Seq<Tok>, i: int, acc: Seq<Seq<char>>) -> Result<
    Seq<Seq<char>>,
    Failure,
>
    decreases s.len() - i,
{
    if i >= s.len() {
        Ok(acc)
    } else {
        match expression_at(s, i) {
            None => Err(Failure::at(ErrorKind::ExpectedExpression, i)),
            Some((text, next)) => match separator_at(s, next) {
                Err(e) => Err(e),
                Ok(after) => expressions_from(s, after, acc.push(text)),
            },
        }
    }
}

/// What a group's content means as a list of expressions.
pub open spec fn expressions(s: Seq<Tok>) -> Result<Seq<Seq<char>>, Failure> {
    expressions_from(s, 0, Seq::empty())
}

/// Reads a comma-separated list of expressions; a trailing comma is accepted,
/// and two expressions without a comma between them are an error.
pub fn parse_expressions(tokens: &Vec<Token>) -> (r: Result<Vec<Expr>, ParseError>)
    ensures
        agrees(r, expressions(tokens.deep_view())),
{
    let mut list: Vec<Expr> = Vec::new();
    let mut i: usize = 0;
    assert(list.deep_view() =~= Seq::<Seq<char>>::empty());
    while i < tokens.len()
        invariant
            i <= tokens.len(),
            expressions(tokens.deep_view()) == expressions_from(
                tokens.deep_view(),
                i as int,
                list.deep_view(),
            ),
        decreases tokens.len() - i,
    {
        match parse_expression(tokens, i) {
            None => {
                return Err(ParseError::at(ErrorKind::ExpectedExpression, i));
            },
            Some((expr, next)) => {
                let after = match parse_separator(tokens, next) {
                    Err(e) => {
                        return Err(e);
                    },
                    Ok(after) => after,
                };
                let ghost before = list.deep_view();
                list.push(expr);
                assert(list.deep_view() =~= before.push(expr.deep_view()));
                i = after;
            },
        }
    }
    Ok(list)
}

/// Moves the expressions of `more` to the end of `list`.
pub fn extend_expressions(list: &mut Vec<Expr>, more: Vec<Expr>)
    ensures
        final(list).deep_view() == old(list).deep_view() + more.deep_view(),
{
    let ghost added = more.deep_view();
    let mut rest = more;
    list.append(&mut rest);
    assert(list.deep_view() =~= old(list).deep_view() + added);
}

/// What stands at place `i` as a bracketed list of expressions; an error
/// inside the brackets is located from the sequence that holds them.
pub open spec fn expression_list_at(s: Seq<Tok>, i: int) -> Result<Seq<Seq<char>>, Failure> {
    match group_at(s, i, Delimiter::Bracket) {
        None => Err(Failure::at(ErrorKind::ExpectedBrackets, i)),
        Some(inner) => match expressions(inner) {
            Ok(list) => Ok(list),
            Err(e) => Err(e.inside(i)),
        },
    }
}

/// Reads the bracketed list of expressions at place `i`.
pub fn parse_expression_list(tokens: &Vec<Token>, i: usize) -> (r: Result<Vec<Expr>, ParseError>)
    ensures
        agrees(r, expression_list_at(tokens.deep_view(), i as int)),
        r is Ok ==> i < tokens.len(),
{
    match group(tokens, i, Delimiter::Bracket) {
        None => Err(ParseError::at(ErrorKind::ExpectedBrackets, i)),
        Some(inner) => match parse_expressions(inner) {
            Ok(list) => Ok(list),
            Err(e) => Err(e.inside(i)),
        },
    }
}

/// What the start of a specification means in each dialect: the name of the
/// test, an identifier, and the body, a group in braces.
pub open spec fn named_body(s: Seq<Tok>) -> Result<(Seq<char>, Seq<Tok>), Failure> {
    match identifier_at(s, 0) {
        None => Err(Failure::at(ErrorKind::ExpectedIdentifier, 0)),
        Some(name) => match group_at(s, 1, Delimiter::Brace) {
            None => Err(Failure::at(ErrorKind::ExpectedBraces, 1)),
            Some(body) => Ok((name, body)),
        },
    }
}

/// Reads the name of the test and its body.
pub fn parse_named_body<'a>(tokens: &'a Vec<Token>) -> (r: Result<
    (&'a String, &'a Vec<Token>),
    ParseError,
>)
    ensures
        match r {
            Ok((name, body)) => named_body(tokens.deep_view()) == Ok::<
                (Seq<char>, Seq<Tok>),
                Failure,
            >((name@, body.deep_view())),
            Err(e) => named_body(tokens.deep_view()) == Err::<(Seq<char>, Seq<Tok>), Failure>(
                e.deep_view(),
            ),
        },
{
    match identifier(tokens, 0) {
        None => Err(ParseError::at(ErrorKind::ExpectedIdentifier, 0)),
        Some(name) => match group(tokens, 1, Delimiter::Brace) {
            None => Err(ParseError::at(ErrorKind::ExpectedBraces, 1)),
            Some(body) => Ok((name, body)),
        },
    }
}

/// Whether a clause opens at place `i`: its keyword, then a colon. The error
/// names the keyword where another token, or none, stands in its place.
pub open spec fn clause_header_at(s: Seq<Tok>, i: int, keyword: Keyword) -> Result<(), Failure> {
    if word_at(s, i) != Some(keyword_text(keyword)) {
        Err(Failure::at(ErrorKind::ExpectedKeyword(keyword), i))
    } else if !punct_at(s, i + 1, ':') {
        Err(Failure::at(ErrorKind::ExpectedColon, i + 1))
    } else {
        Ok(())
    }
}

/// The content of the braced clause that opens at place `i`.
pub open spec fn clause_at(s: Seq<Tok>, i: int, keyword: Keyword) -> Result<Seq<Tok>, Failure> {
    match clause_header_at(s, i, keyword) {
        Err(e) => Err(e),
        Ok(_) => match group_at(s, i + 2, Delimiter::Brace) {
            None => Err(Failure::at(ErrorKind::ExpectedBraces, i + 2)),
            Some(inner) => Ok(inner),
        },
    }
}

fn is_keyword(tokens: &Vec<Token>, i: usize, keyword: Keyword) -> (r: bool)
    ensures
        r == (word_at(tokens.deep_view(), i as int) == Some(keyword_text(keyword))),
{
    is_word(tokens, i, keyword_word(keyword))
}

/// Reads the keyword and the colon that open a clause at place `i`.
pub fn parse_clause_header(tokens: &Vec<Token>, i: usize, keyword: Keyword) -> (r: Result<
    (),
    ParseError,
>)
    ensures
        match r {
            Ok(_) => clause_header_at(tokens.deep_view(), i as int, keyword) is Ok && i + 1
                < tokens.len(),
            Err(e) => clause_header_at(tokens.deep_view(), i as int, keyword) == Err::<
                (),
                Failure,
            >(e.deep_view()),
        },
{
    if !is_keyword(tokens, i, keyword) {
        return Err(ParseError::at(ErrorKind::ExpectedKeyword(keyword), i));
    }
    assert(tokens.deep_view().len() == tokens.len());
    if !is_punct(tokens, i + 1, ':') {
        Err(ParseError::at(ErrorKind::ExpectedColon, i + 1))
    } else {
        Ok(())
    }
}

/// Reads the braced clause that opens at place `i` and hands out its content.
pub fn parse_clause<'a>(tokens: &'a Vec<Token>, i: usize, keyword: Keyword) -> (r: Result<
    &'a Vec<Token>,
    ParseError,
>)
    ensures
        match r {
            Ok(inner) => clause_at(tokens.deep_view(), i as int, keyword) == Ok::<
                Seq<Tok>,
                Failure,
            >(inner.deep_view()) && i + 2 < tokens.len(),
            Err(e) => clause_at(tokens.deep_view(), i as int, keyword) == Err::<
                Seq<Tok>,
                Failure,
            >(e.deep_view()),
        },
{
    match parse_clause_header(tokens, i, keyword) {
        Err(e) => Err(e),
        Ok(_) => match group(tokens, i + 2, Delimiter::Brace) {
            None => Err(ParseError::at(ErrorKind::ExpectedBraces, i + 2)),
            Some(inner) => Ok(inner),
        },
    }
}

/// What a comma-separated list of identifiers means, read from place `i` on
/// with `acc` already read: each identifier in turn, with a comma between
/// each two and, optionally, behind the last.
pub open spec fn identifiers_from(s: Seq<Tok>, i: int, acc: Seq<Seq<char>>) -> Result<
    Seq<Seq<char>>,
    Failure,
>
    decreases s.len() - i,
{
    if i >= s.len() {
        Ok(acc)
    } else {
        match identifier_at(s, i) {
            None => Err(Failure::at(ErrorKind::ExpectedIdentifier, i)),
            Some(name) => match separator_at(s, i + 1) {
                Err(e) => Err(e),
                Ok(after) => identifiers_from(s, after, acc.push(name)),
            },
        }
    }
}

/// What a group's content means as a list of identifiers.
pub open spec fn identifiers(s: Seq<Tok>) -> Result<Seq<Seq<char>>, Failure> {
    identifiers_from(s, 0, Seq::empty())
}

/// Reads a comma-separated list of identifiers; a trailing comma is accepted,
/// and two identifiers without a comma between them are an error.
pub fn parse_identifiers(tokens: &Vec<Token>) -> (r: Result<Vec<String>, ParseError>)
    ensures
        agrees(r, identifiers(tokens.deep_view())),
{
    let mut list: Vec<String> = Vec::new();
    let mut i: usize = 0;
    assert(list.deep_view() =~= Seq::<Seq<char>>::empty());
    while i < tokens.len()
        invariant
            i <= tokens.len(),
            identifiers(tokens.deep_view()) == identifiers_from(
                tokens.deep_view(),
                i as int,
                list.deep_view(),
            ),
        decreases tokens.len() - i,
    {
        match identifier(tokens, i) {
            None => {
                return Err(ParseError::at(ErrorKind::ExpectedIdentifier, i));
            },
            Some(name) => {
                let after = match parse_separator(tokens, i + 1) {
                    Err(e) => {
                        return Err(e);
                    },
                    Ok(after) => after,
                };
                let ghost before = list.deep_view();
                list.push(name.clone());
                assert(list.deep_view() =~= before.push(name@));
                i = after;
            },
        }
    }
    Ok(list)
}

} // verus!

//! Parse errors: what was expected, and where.

use crate::token::{lemma_group_model, render_token, token_text, Tok, Token};
use vstd::prelude::*;
use vstd::string::*;

verus! {

/// The keywords that open the clauses of the three dialects.
#[derive(Clone, Copy, PartialEq, Eq, Structural, Debug)]
pub enum Keyword {
    Given,
    When,
    Then,
    Setup,
    Call,
    Expect,
    Operations,
}

/// The text of a clause keyword.
pub open spec fn keyword_text(keyword: Keyword) -> Seq<char> {
    match keyword {
        Keyword::Given => "given"@,
        Keyword::When => "when"@,
        Keyword::Then => "then"@,
        Keyword::Setup => "setup"@,
        Keyword::Call => "call"@,
        Keyword::Expect => "expect"@,
        Keyword::Operations => "operations"@,
    }
}

/// The text of a clause keyword.
pub fn keyword_word(keyword: Keyword) -> (r: &'static str)
    ensures
        r@ == keyword_text(keyword),
{
    match keyword {
        Keyword::Given => "given",
        Keyword::When => "when",
        Keyword::Then => "then",
        Keyword::Setup => "setup",
        Keyword::Call => "call",
        Keyword::Expect => "expect",
        Keyword::Operations => "operations",
    }
}

/// What a parser expected at the place where it gave up.
#[derive(Clone, Copy, PartialEq, Eq, Structural, Debug)]
pub enum ErrorKind {
    /// The text is no sequence of tokens (an unclosed bracket, a bad literal).
    Lexical,
    /// The keyword of the clause that is due at this place.
    ExpectedKeyword(Keyword),
    /// An identifier that is no reserved word.
    ExpectedIdentifier,
    /// A `:`.
    ExpectedColon,
    /// A `=`.
    ExpectedEquals,
    /// A `,` between two items of a list.
    ExpectedComma,
    /// A `=>`.
    ExpectedArrow,
    /// A group in curly braces.
    ExpectedBraces,
    /// A group in square brackets.
    ExpectedBrackets,
    /// An expression.
    ExpectedExpression,
    /// An unsigned integer that fits 64 bits.
    ExpectedInteger,
    /// A function item.
    ExpectedFunction,
    /// One of the field names of a `given` clause.
    UnknownField,
    /// One of the action names of a `when` clause.
    UnknownAction,
    /// One of the option names of a test configuration.
    UnknownOption,
    /// Nothing: a token stands where the input should end.
    UnexpectedToken,
}

/// A parse error.
///
/// `path` locates the offending token: its first entry is an index into the
/// top-level token sequence; where that token is a group, the next entry is an
/// index into the group's tokens, and so on. The last index may be one past
/// the end of its sequence, when the input ended too early.
#[derive(Clone, PartialEq, Eq, Debug)]
pub struct ParseError {
    pub kind: ErrorKind,
    pub path: Vec<usize>,
}

/// The mathematical model of a [`ParseError`].
pub struct Failure {
    pub kind: ErrorKind,
    pub path: Seq<usize>,
}

impl DeepView for ParseError {
    type V = Failure;

    open spec fn deep_view(&self) -> Failure {
        Failure { kind: self.kind, path: self.path@ }
    }
}

impl Failure {
    /// An error at index `at` of the token sequence at hand.
    pub open spec fn at(kind: ErrorKind, at: int) -> Failure {
        Failure { kind, path: seq![at as usize] }
    }

    /// The same error, seen from the sequence that holds the group at `index`
    /// in which it occurred.
    pub open spec fn inside(self, index: int) -> Failure {
        Failure { kind: self.kind, path: seq![index as usize] + self.path }
    }
}

/// What an error of a kind says.
pub open spec fn message_of(kind: ErrorKind) -> Seq<char> {
    match kind {
        ErrorKind::Lexical => "cannot split the text into tokens"@,
        ErrorKind::ExpectedKeyword(keyword) => "expected `"@ + keyword_text(keyword) + "`"@,
        ErrorKind::ExpectedIdentifier => "expected identifier"@,
        ErrorKind::ExpectedColon => "expected `:`"@,
        ErrorKind::ExpectedEquals => "expected `=`"@,
        ErrorKind::ExpectedComma => "expected `,`"@,
        ErrorKind::ExpectedArrow => "expected `=>`"@,
        ErrorKind::ExpectedBraces => "expected curly braces"@,
        ErrorKind::ExpectedBrackets => "expected square brackets"@,
        ErrorKind::ExpectedExpression => "expected an expression"@,
        ErrorKind::ExpectedInteger => "expected integer literal"@,
        ErrorKind::ExpectedFunction => "expected a function"@,
        ErrorKind::UnknownField => "unknown given field"@,
        ErrorKind::UnknownAction => "unknown when action"@,
        ErrorKind::UnknownOption => "unknown configuration option"@,
        ErrorKind::UnexpectedToken => "unexpected token"@,
    }
}

/// The token that a path leads to: the path's first entry picks a token of
/// the sequence, and each further entry a token inside the group picked
/// before. `None` where the path is empty, leaves the sequence, or goes on
/// through a token that is no group.
pub open spec fn token_at(s: Seq<Tok>, path: Seq<usize>) -> Option<Tok>
    decreases path.len(),
{
    if path.len() == 0 || path[0] >= s.len() {
        None
    } else if path.len() == 1 {
        Some(s[path[0] as int])
    } else {
        match s[path[0] as int] {
            Tok::Group(_, inner) => token_at(inner, path.skip(1)),
            _ => None,
        }
    }
}

/// What an error says of the token sequence in which it occurred: what was
/// expected, and the text of the token that stands there instead, or that
/// the input ends there. An error without a place says only what was
/// expected.
pub open spec fn description(failure: Failure, s: Seq<Tok>) -> Seq<char> {
    if failure.path.len() == 0 {
        message_of(failure.kind)
    } else {
        match token_at(s, failure.path) {
            Some(found) => message_of(failure.kind) + ", found `"@ + token_text(found) + "`"@,
            None => message_of(failure.kind) + ", found the end of the input"@,
        }
    }
}

/// The token that a path leads to.
pub fn locate<'a>(tokens: &'a Vec<Token>, path: &Vec<usize>) -> (r: Option<&'a Token>)
    ensures
        match r {
            Some(token) => token_at(tokens.deep_view(), path@) == Some(token.deep_view()),
            None => token_at(tokens.deep_view(), path@) is None,
        },
{
    let mut current = tokens;
    let mut k: usize = 0;
    assert(path@.skip(0) =~= path@);
    while k < path.len()
        invariant
            k <= path.len(),
            token_at(tokens.deep_view(), path@) == token_at(
                current.deep_view(),
                path@.skip(k as int),
            ),
        decreases path.len() - k,
    {
        let ghost rest = path@.skip(k as int);
        let i = path[k];
        assert(rest[0] == i);
        if i >= current.len() {
            return None;
        }
        assert(current.deep_view()[i as int] == current@[i as int].deep_view());
        if k + 1 == path.len() {
            return Some(&current[i]);
        }
        match &current[i] {
            Token::Group(d, inner) => {
                proof {
                    lemma_group_model(*d, *inner);
                    assert(rest.skip(1) =~= path@.skip(k + 1));
                }
                current = inner;
            },
            _ => {
                return None;
            },
        }
        k += 1;
    }
    None
}

impl ParseError {
    /// What the error says of the tokens in which it occurred: what was
    /// expected and what was found.
    pub fn describe(&self, tokens: &Vec<Token>) -> (r: String)
        ensures
            r@ == description(self.deep_view(), tokens.deep_view()),
    {
        let mut text = self.message();
        if self.path.len() == 0 {
            return text;
        }
        match locate(tokens, &self.path) {
            Some(found) => {
                text.append(", found `");
                render_token(&mut text, found);
                text.append("`");
            },
            None => {
                text.append(", found the end of the input");
            },
        }
        text
    }

    /// What the error says: what was expected, in words.
    pub fn message(&self) -> (r: String)
        ensures
            r@ == message_of(self.kind),
    {
        match self.kind {
            ErrorKind::Lexical => String::from_str("cannot split the text into tokens"),
            ErrorKind::ExpectedKeyword(keyword) => {
                let mut text = String::from_str("expected `");
                text.append(keyword_word(keyword));
                text.append("`");
                text
            },
            ErrorKind::ExpectedIdentifier => String::from_str("expected identifier"),
            ErrorKind::ExpectedColon => String::from_str("expected `:`"),
            ErrorKind::ExpectedEquals => String::from_str("expected `=`"),
            ErrorKind::ExpectedComma => String::from_str("expected `,`"),
            ErrorKind::ExpectedArrow => String::from_str("expected `=>`"),
            ErrorKind::ExpectedBraces => String::from_str("expected curly braces"),
            ErrorKind::ExpectedBrackets => String::from_str("expected square brackets"),
            ErrorKind::ExpectedExpression => String::from_str("expected an expression"),
            ErrorKind::ExpectedInteger => String::from_str("expected integer literal"),
            ErrorKind::ExpectedFunction => String::from_str("expected a function"),
            ErrorKind::UnknownField => String::from_str("unknown given field"),
            ErrorKind::UnknownAction => String::from_str("unknown when action"),
            ErrorKind::UnknownOption => String::from_str("unknown configuration option"),
            ErrorKind::UnexpectedToken => String::from_str("unexpected token"),
        }
    }


    /// An error at index `at` of the token sequence at hand.
    pub fn at(kind: ErrorKind, at: usize) -> (e: ParseError)
        ensures
            e.deep_view() == Failure::at(kind, at as int),
    {
        let mut path = Vec::new();
        path.push(at);
        assert(path@ =~= seq![at]);
        ParseError { kind, path }
    }

    /// The same error, seen from the sequence that holds the group at `index`
    /// in which it occurred.
    pub fn inside(self, index: usize) -> (e: ParseError)
        ensures
            e.deep_view() == self.deep_view().inside(index as int),
    {
        let mut path = self.path;
        path.insert(0, index);
        assert(path@ =~= seq![index] + self.path@);
        ParseError { kind: self.kind, path }
    }
}

} // verus!

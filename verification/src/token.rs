//! Tokens: classified lexemes with the span of source text they came from.

use crate::floats::{
    answer_text, FloatBits, FloatFacts, FloatRequest, FloatRequestView, FloatTable,
};
use crate::position::{clone_position, view_opt, Position, PositionView};
use crate::text::{int_text, push_int, push_text};
use vstd::prelude::*;

verus! {

/// The kind of a token, with the value of a literal or the text of a name.
#[derive(Debug, PartialEq)]
pub enum TokenType {
    Int(i64),
    Float(FloatBits),
    Plus,
    Minus,
    Multiply,
    Divide,
    Pow,
    LParen,
    RParen,
    EndOfFile,
    Identifier(String),
    Keyword(String),
    Equal,
}

/// The reserved words of the language.
pub enum Keyword {
    Func(),
}

/// The mathematical value of a [`TokenType`].
pub ghost enum TokenKind {
    Int(i64),
    Float(u64),
    Plus,
    Minus,
    Multiply,
    Divide,
    Pow,
    LParen,
    RParen,
    EndOfFile,
    Identifier(Seq<char>),
    Keyword(Seq<char>),
    Equal,
}

impl View for TokenType {
    type V = TokenKind;

    open spec fn view(&self) -> TokenKind {
        match *self {
            TokenType::Int(v) => TokenKind::Int(v),
            TokenType::Float(b) => TokenKind::Float(b.bits),
            TokenType::Plus => TokenKind::Plus,
            TokenType::Minus => TokenKind::Minus,
            TokenType::Multiply => TokenKind::Multiply,
            TokenType::Divide => TokenKind::Divide,
            TokenType::Pow => TokenKind::Pow,
            TokenType::LParen => TokenKind::LParen,
            TokenType::RParen => TokenKind::RParen,
            TokenType::EndOfFile => TokenKind::EndOfFile,
            TokenType::Identifier(s) => TokenKind::Identifier(s@),
            TokenType::Keyword(s) => TokenKind::Keyword(s@),
            TokenType::Equal => TokenKind::Equal,
        }
    }
}

impl Clone for TokenType {
    fn clone(&self) -> (r: Self)
        ensures
            r == *self,
    {
        match self {
            TokenType::Int(v) => TokenType::Int(*v),
            TokenType::Float(b) => TokenType::Float(*b),
            TokenType::Plus => TokenType::Plus,
            TokenType::Minus => TokenType::Minus,
            TokenType::Multiply => TokenType::Multiply,
            TokenType::Divide => TokenType::Divide,
            TokenType::Pow => TokenType::Pow,
            TokenType::LParen => TokenType::LParen,
            TokenType::RParen => TokenType::RParen,
            TokenType::EndOfFile => TokenType::EndOfFile,
            TokenType::Identifier(s) => TokenType::Identifier(s.clone()),
            TokenType::Keyword(s) => TokenType::Keyword(s.clone()),
            TokenType::Equal => TokenType::Equal,
        }
    }
}

impl Default for TokenType {
    fn default() -> (r: Self)
        ensures
            r@ == TokenKind::Int(0),
    {
        TokenType::Int(0)
    }
}

/// The text of `s` as a quoted and escaped string literal.
pub uninterp spec fn quoted(s: Seq<char>) -> Seq<char>;

/// The `Debug` formatting of `str`: the text between double quotes, with the
/// characters that a string literal cannot hold written as escapes.
#[verifier::external_body]
fn quote(s: &str) -> (r: String)
    ensures
        r@ == quoted(s@),
{
    format!("{:?}", s)
}

/// The name of a kind without a payload; the empty text for the others.
pub open spec fn plain_kind_name(kind: TokenKind) -> Seq<char> {
    match kind {
        TokenKind::Plus => "Plus"@,
        TokenKind::Minus => "Minus"@,
        TokenKind::Multiply => "Multiply"@,
        TokenKind::Divide => "Divide"@,
        TokenKind::Pow => "Pow"@,
        TokenKind::LParen => "LParen"@,
        TokenKind::RParen => "RParen"@,
        TokenKind::EndOfFile => "EndOfFile"@,
        TokenKind::Equal => "Equal"@,
        _ => Seq::empty(),
    }
}

/// How a kind is written out: its name and, between parentheses, its
/// payload. The rendering of a float is looked up in `facts`; where it is
/// missing, the result is the request for it.
pub open spec fn kind_text(kind: TokenKind, facts: FloatFacts) -> Result<
    Seq<char>,
    FloatRequestView,
> {
    match kind {
        TokenKind::Int(v) => Ok("Int("@ + int_text(v as int) + ")"@),
        TokenKind::Float(b) => match answer_text(facts, FloatRequestView::Debug(b)) {
            Some(t) => Ok("Float("@ + t + ")"@),
            None => Err(FloatRequestView::Debug(b)),
        },
        TokenKind::Identifier(s) => Ok("Identifier("@ + quoted(s) + ")"@),
        TokenKind::Keyword(s) => Ok("Keyword("@ + quoted(s) + ")"@),
        _ => Ok(plain_kind_name(kind)),
    }
}

impl TokenType {
    /// Writes the kind out as [`kind_text`] describes.
    pub fn debug_text(&self, floats: &FloatTable) -> (r: Result<String, FloatRequest>)
        ensures
            match r {
                Ok(t) => kind_text(self@, floats@) == Ok::<Seq<char>, FloatRequestView>(t@),
                Err(q) => kind_text(self@, floats@) == Err::<Seq<char>, FloatRequestView>(q@),
            },
    {
        let mut out = String::new();
        match self {
            TokenType::Int(v) => {
                push_text(&mut out, "Int(");
                push_int(&mut out, *v as i128);
                push_text(&mut out, ")");
            },
            TokenType::Float(b) => {
                let shown = match floats.text(FloatRequest::Debug(b.bits)) {
                    Ok(t) => t,
                    Err(q) => {
                        return Err(q);
                    },
                };
                push_text(&mut out, "Float(");
                push_text(&mut out, shown.as_str());
                push_text(&mut out, ")");
            },
            TokenType::Identifier(s) => {
                let shown = quote(s.as_str());
                push_text(&mut out, "Identifier(");
                push_text(&mut out, shown.as_str());
                push_text(&mut out, ")");
            },
            TokenType::Keyword(s) => {
                let shown = quote(s.as_str());
                push_text(&mut out, "Keyword(");
                push_text(&mut out, shown.as_str());
                push_text(&mut out, ")");
            },
            TokenType::Plus => push_text(&mut out, "Plus"),
            TokenType::Minus => push_text(&mut out, "Minus"),
            TokenType::Multiply => push_text(&mut out, "Multiply"),
            TokenType::Divide => push_text(&mut out, "Divide"),
            TokenType::Pow => push_text(&mut out, "Pow"),
            TokenType::LParen => push_text(&mut out, "LParen"),
            TokenType::RParen => push_text(&mut out, "RParen"),
            TokenType::EndOfFile => push_text(&mut out, "EndOfFile"),
            TokenType::Equal => push_text(&mut out, "Equal"),
        }
        Ok(out)
    }
}

/// A token: its kind and the positions where its text starts and ends.
#[derive(Debug, PartialEq)]
pub struct Token {
    pub type_: TokenType,
    pub position_start: Option<Position>,
    pub position_end: Option<Position>,
}

/// The mathematical value of a [`Token`].
pub ghost struct TokenView {
    pub kind: TokenKind,
    pub start: Option<PositionView>,
    pub end: Option<PositionView>,
}

impl View for Token {
    type V = TokenView;

    open spec fn view(&self) -> TokenView {
        TokenView {
            kind: self.type_@,
            start: view_opt(self.position_start),
            end: view_opt(self.position_end),
        }
    }
}

impl Clone for Token {
    fn clone(&self) -> (r: Self)
        ensures
            r == *self,
    {
        Token {
            type_: self.type_.clone(),
            position_start: clone_position(&self.position_start),
            position_end: clone_position(&self.position_end),
        }
    }
}

impl Default for Token {
    fn default() -> (r: Self)
        ensures
            r@ == (TokenView { kind: TokenKind::Int(0), start: None, end: None }),
    {
        Token { type_: TokenType::Int(0), position_start: None, position_end: None }
    }
}

impl Token {
    /// A token made of the parts given.
    pub fn new(type_: TokenType, position_start: Option<Position>, position_end: Option<
        Position,
    >) -> (r: Self)
        ensures
            r.type_ == type_,
            r.position_start == position_start,
            r.position_end == position_end,
    {
        Self { type_, position_start, position_end }
    }

    /// A token of the given kind that came from no source text.
    pub fn new_no_pos(type_: TokenType) -> (r: Self)
        ensures
            r.type_ == type_,
            r.position_start is None,
            r.position_end is None,
    {
        Self { type_, position_start: None, position_end: None }
    }

    /// A copy of the token's kind.
    pub fn type_(&self) -> (r: TokenType)
        ensures
            r == self.type_,
    {
        self.type_.clone()
    }

    /// A copy of the position where the token's text starts.
    pub fn position_start(&self) -> (r: Option<Position>)
        ensures
            r == self.position_start,
    {
        clone_position(&self.position_start)
    }

    /// A copy of the position where the token's text ends.
    pub fn position_end(&self) -> (r: Option<Position>)
        ensures
            r == self.position_end,
    {
        clone_position(&self.position_end)
    }

    /// Writes the token out: the text of its kind.
    pub fn to_text(&self, floats: &FloatTable) -> (r: Result<String, FloatRequest>)
        ensures
            match r {
                Ok(t) => kind_text(self@.kind, floats@) == Ok::<Seq<char>, FloatRequestView>(t@),
                Err(q) => kind_text(self@.kind, floats@) == Err::<Seq<char>, FloatRequestView>(
                    q@,
                ),
            },
    {
        self.type_.debug_text(floats)
    }
}

} // verus!

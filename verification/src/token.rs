//! Defines all tokens in Lua.

use vstd::prelude::*;

use crate::parse::{perr, Outcome, Parseable, ParsingError, Tree};
use crate::tokenize::{peek_at, TokenStream, Tokens};
use crate::Span;

verus! {

/// The `do` keyword.
#[derive(Debug, Copy, Clone, PartialEq, Eq)]
pub struct Do {
    pub span: Span,
}

/// The `end` keyword.
#[derive(Debug, Copy, Clone, PartialEq, Eq)]
pub struct End {
    pub span: Span,
}

/// The `if` keyword.
#[derive(Debug, Copy, Clone, PartialEq, Eq)]
pub struct If {
    pub span: Span,
}

/// The `then` keyword.
#[derive(Debug, Copy, Clone, PartialEq, Eq)]
pub struct Then {
    pub span: Span,
}

/// The `elseif` keyword.
#[derive(Debug, Copy, Clone, PartialEq, Eq)]
pub struct ElseIf {
    pub span: Span,
}

/// The `else` keyword.
#[derive(Debug, Copy, Clone, PartialEq, Eq)]
pub struct Else {
    pub span: Span,
}

/// The `for` keyword.
#[derive(Debug, Copy, Clone, PartialEq, Eq)]
pub struct For {
    pub span: Span,
}

/// The `in` keyword.
#[derive(Debug, Copy, Clone, PartialEq, Eq)]
pub struct In {
    pub span: Span,
}

/// The `while` keyword.
#[derive(Debug, Copy, Clone, PartialEq, Eq)]
pub struct While {
    pub span: Span,
}

/// The `break` keyword.
#[derive(Debug, Copy, Clone, PartialEq, Eq)]
pub struct Break {
    pub span: Span,
}

/// The `repeat` keyword.
#[derive(Debug, Copy, Clone, PartialEq, Eq)]
pub struct Repeat {
    pub span: Span,
}

/// The `until` keyword.
#[derive(Debug, Copy, Clone, PartialEq, Eq)]
pub struct Until {
    pub span: Span,
}

/// The `goto` keyword.
#[derive(Debug, Copy, Clone, PartialEq, Eq)]
pub struct Goto {
    pub span: Span,
}

/// The `local` keyword.
#[derive(Debug, Copy, Clone, PartialEq, Eq)]
pub struct Local {
    pub span: Span,
}

/// The `function` keyword.
#[derive(Debug, Copy, Clone, PartialEq, Eq)]
pub struct Function {
    pub span: Span,
}

/// The `return` keyword.
#[derive(Debug, Copy, Clone, PartialEq, Eq)]
pub struct Return {
    pub span: Span,
}

/// The `nil` keyword.
#[derive(Debug, Copy, Clone, PartialEq, Eq)]
pub struct Nil {
    pub span: Span,
}

/// The `true` keyword.
#[derive(Debug, Copy, Clone, PartialEq, Eq)]
pub struct True {
    pub span: Span,
}

/// The `false` keyword.
#[derive(Debug, Copy, Clone, PartialEq, Eq)]
pub struct False {
    pub span: Span,
}

/// The `and` keyword.
#[derive(Debug, Copy, Clone, PartialEq, Eq)]
pub struct And {
    pub span: Span,
}

/// The `or` keyword.
#[derive(Debug, Copy, Clone, PartialEq, Eq)]
pub struct Or {
    pub span: Span,
}

/// The `not` keyword.
#[derive(Debug, Copy, Clone, PartialEq, Eq)]
pub struct Not {
    pub span: Span,
}

/// A numeric literal.
#[derive(Debug, Copy, Clone, PartialEq, Eq)]
pub struct LiteralNumber {
    pub span: Span,
}

/// The `;` symbol.
#[derive(Debug, Copy, Clone, PartialEq, Eq)]
pub struct Semicolon {
    pub span: Span,
}

/// The `=` symbol.
#[derive(Debug, Copy, Clone, PartialEq, Eq)]
pub struct Equal {
    pub span: Span,
}

/// The `+` symbol.
#[derive(Debug, Copy, Clone, PartialEq, Eq)]
pub struct Plus {
    pub span: Span,
}

/// The `-` symbol.
#[derive(Debug, Copy, Clone, PartialEq, Eq)]
pub struct Minus {
    pub span: Span,
}

/// The `*` symbol.
#[derive(Debug, Copy, Clone, PartialEq, Eq)]
pub struct Asterisk {
    pub span: Span,
}

/// The `/` symbol.
#[derive(Debug, Copy, Clone, PartialEq, Eq)]
pub struct Slash {
    pub span: Span,
}

/// The `^` symbol.
#[derive(Debug, Copy, Clone, PartialEq, Eq)]
pub struct Carat {
    pub span: Span,
}

/// The `%` symbol.
#[derive(Debug, Copy, Clone, PartialEq, Eq)]
pub struct Percent {
    pub span: Span,
}

/// The `.` symbol.
#[derive(Debug, Copy, Clone, PartialEq, Eq)]
pub struct Dot {
    pub span: Span,
}

/// The `..` symbol.
#[derive(Debug, Copy, Clone, PartialEq, Eq)]
pub struct DoubleDot {
    pub span: Span,
}

/// The `<` symbol.
#[derive(Debug, Copy, Clone, PartialEq, Eq)]
pub struct Less {
    pub span: Span,
}

/// The `<=` symbol.
#[derive(Debug, Copy, Clone, PartialEq, Eq)]
pub struct LessEqual {
    pub span: Span,
}

/// The `>` symbol.
#[derive(Debug, Copy, Clone, PartialEq, Eq)]
pub struct Greater {
    pub span: Span,
}

/// The `>=` symbol.
#[derive(Debug, Copy, Clone, PartialEq, Eq)]
pub struct GreaterEqual {
    pub span: Span,
}

/// The `==` symbol.
#[derive(Debug, Copy, Clone, PartialEq, Eq)]
pub struct DoubleEqual {
    pub span: Span,
}

/// The `~=` symbol.
#[derive(Debug, Copy, Clone, PartialEq, Eq)]
pub struct TildeEqual {
    pub span: Span,
}

/// The `#` symbol.
#[derive(Debug, Copy, Clone, PartialEq, Eq)]
pub struct Hashtag {
    pub span: Span,
}

/// The `...` symbol.
#[derive(Debug, Copy, Clone, PartialEq, Eq)]
pub struct Ellipses {
    pub span: Span,
}

/// The `,` symbol.
#[derive(Debug, Copy, Clone, PartialEq, Eq)]
pub struct Comma {
    pub span: Span,
}

/// The `::` symbol.
#[derive(Debug, Copy, Clone, PartialEq, Eq)]
pub struct DoubleColon {
    pub span: Span,
}

/// The `:` symbol.
#[derive(Debug, Copy, Clone, PartialEq, Eq)]
pub struct Colon {
    pub span: Span,
}

/// The `(` symbol.
#[derive(Debug, Copy, Clone, PartialEq, Eq)]
pub struct OpenParen {
    pub span: Span,
}

/// The `[` symbol.
#[derive(Debug, Copy, Clone, PartialEq, Eq)]
pub struct OpenBracket {
    pub span: Span,
}

/// The `{` symbol.
#[derive(Debug, Copy, Clone, PartialEq, Eq)]
pub struct OpenBrace {
    pub span: Span,
}

/// The `)` symbol.
#[derive(Debug, Copy, Clone, PartialEq, Eq)]
pub struct CloseParen {
    pub span: Span,
}

/// The `]` symbol.
#[derive(Debug, Copy, Clone, PartialEq, Eq)]
pub struct CloseBracket {
    pub span: Span,
}

/// The `}` symbol.
#[derive(Debug, Copy, Clone, PartialEq, Eq)]
pub struct CloseBrace {
    pub span: Span,
}

/// The `//` symbol.
#[derive(Debug, Copy, Clone, PartialEq, Eq)]
pub struct DoubleSlash {
    pub span: Span,
}

/// The `|` symbol.
#[derive(Debug, Copy, Clone, PartialEq, Eq)]
pub struct Pipe {
    pub span: Span,
}

/// The `~` symbol.
#[derive(Debug, Copy, Clone, PartialEq, Eq)]
pub struct Tilde {
    pub span: Span,
}

/// The `&` symbol.
#[derive(Debug, Copy, Clone, PartialEq, Eq)]
pub struct Ampersand {
    pub span: Span,
}

/// The `<<` symbol.
#[derive(Debug, Copy, Clone, PartialEq, Eq)]
pub struct DoubleLess {
    pub span: Span,
}

/// The `>>` symbol.
#[derive(Debug, Copy, Clone, PartialEq, Eq)]
pub struct DoubleGreater {
    pub span: Span,
}

/// The end of the input.
#[derive(Debug, Copy, Clone, PartialEq, Eq)]
pub struct EOF {
    pub span: Span,
}

/// An identifier.
#[derive(Debug, Copy, Clone, PartialEq, Eq)]
pub struct Name {
    pub span: Span,
}

/// An enumeration over all Lua tokens.
#[derive(Debug, Copy, Clone, PartialEq, Eq)]
pub enum Token {
    Do(Do),
    End(End),
    If(If),
    Then(Then),
    ElseIf(ElseIf),
    Else(Else),
    For(For),
    In(In),
    While(While),
    Break(Break),
    Repeat(Repeat),
    Until(Until),
    Goto(Goto),
    Local(Local),
    Function(Function),
    Return(Return),
    Nil(Nil),
    True(True),
    False(False),
    And(And),
    Or(Or),
    Not(Not),
    LiteralNumber(LiteralNumber),
    LiteralString(LiteralString),
    Semicolon(Semicolon),
    Equal(Equal),
    Plus(Plus),
    Minus(Minus),
    Asterisk(Asterisk),
    Slash(Slash),
    Carat(Carat),
    Percent(Percent),
    Dot(Dot),
    DoubleDot(DoubleDot),
    Less(Less),
    LessEqual(LessEqual),
    Greater(Greater),
    GreaterEqual(GreaterEqual),
    DoubleEqual(DoubleEqual),
    TildeEqual(TildeEqual),
    Hashtag(Hashtag),
    Ellipses(Ellipses),
    Comma(Comma),
    DoubleColon(DoubleColon),
    Colon(Colon),
    OpenParen(OpenParen),
    OpenBracket(OpenBracket),
    OpenBrace(OpenBrace),
    CloseParen(CloseParen),
    CloseBracket(CloseBracket),
    CloseBrace(CloseBrace),
    DoubleSlash(DoubleSlash),
    Pipe(Pipe),
    Tilde(Tilde),
    Ampersand(Ampersand),
    DoubleLess(DoubleLess),
    DoubleGreater(DoubleGreater),
    EOF(EOF),
    Name(Name),
}

impl Token {
    /// The span of the token.
    pub open spec fn spec_span(self) -> Span {
        match self {
            Token::Do(t) => t.span,
            Token::End(t) => t.span,
            Token::If(t) => t.span,
            Token::Then(t) => t.span,
            Token::ElseIf(t) => t.span,
            Token::Else(t) => t.span,
            Token::For(t) => t.span,
            Token::In(t) => t.span,
            Token::While(t) => t.span,
            Token::Break(t) => t.span,
            Token::Repeat(t) => t.span,
            Token::Until(t) => t.span,
            Token::Goto(t) => t.span,
            Token::Local(t) => t.span,
            Token::Function(t) => t.span,
            Token::Return(t) => t.span,
            Token::Nil(t) => t.span,
            Token::True(t) => t.span,
            Token::False(t) => t.span,
            Token::And(t) => t.span,
            Token::Or(t) => t.span,
            Token::Not(t) => t.span,
            Token::LiteralNumber(t) => t.span,
            Token::LiteralString(s) => s.spec_full_span(),
            Token::Semicolon(t) => t.span,
            Token::Equal(t) => t.span,
            Token::Plus(t) => t.span,
            Token::Minus(t) => t.span,
            Token::Asterisk(t) => t.span,
            Token::Slash(t) => t.span,
            Token::Carat(t) => t.span,
            Token::Percent(t) => t.span,
            Token::Dot(t) => t.span,
            Token::DoubleDot(t) => t.span,
            Token::Less(t) => t.span,
            Token::LessEqual(t) => t.span,
            Token::Greater(t) => t.span,
            Token::GreaterEqual(t) => t.span,
            Token::DoubleEqual(t) => t.span,
            Token::TildeEqual(t) => t.span,
            Token::Hashtag(t) => t.span,
            Token::Ellipses(t) => t.span,
            Token::Comma(t) => t.span,
            Token::DoubleColon(t) => t.span,
            Token::Colon(t) => t.span,
            Token::OpenParen(t) => t.span,
            Token::OpenBracket(t) => t.span,
            Token::OpenBrace(t) => t.span,
            Token::CloseParen(t) => t.span,
            Token::CloseBracket(t) => t.span,
            Token::CloseBrace(t) => t.span,
            Token::DoubleSlash(t) => t.span,
            Token::Pipe(t) => t.span,
            Token::Tilde(t) => t.span,
            Token::Ampersand(t) => t.span,
            Token::DoubleLess(t) => t.span,
            Token::DoubleGreater(t) => t.span,
            Token::EOF(t) => t.span,
            Token::Name(t) => t.span,
        }
    }

    /// A string literal's spans are ordered; every other token is well formed.
    pub open spec fn wf(self) -> bool {
        match self {
            Token::LiteralString(s) => s.start_span.start <= s.end_span.end,
            _ => true,
        }
    }

    /// Gets the span of the token.
    pub fn span(&self) -> (s: Span)
        requires
            self.wf(),
        ensures
            s == self.spec_span(),
    {
        match self {
            Token::Do(t) => t.span,
            Token::End(t) => t.span,
            Token::If(t) => t.span,
            Token::Then(t) => t.span,
            Token::ElseIf(t) => t.span,
            Token::Else(t) => t.span,
            Token::For(t) => t.span,
            Token::In(t) => t.span,
            Token::While(t) => t.span,
            Token::Break(t) => t.span,
            Token::Repeat(t) => t.span,
            Token::Until(t) => t.span,
            Token::Goto(t) => t.span,
            Token::Local(t) => t.span,
            Token::Function(t) => t.span,
            Token::Return(t) => t.span,
            Token::Nil(t) => t.span,
            Token::True(t) => t.span,
            Token::False(t) => t.span,
            Token::And(t) => t.span,
            Token::Or(t) => t.span,
            Token::Not(t) => t.span,
            Token::LiteralNumber(t) => t.span,
            Token::LiteralString(s) => s.full_span(),
            Token::Semicolon(t) => t.span,
            Token::Equal(t) => t.span,
            Token::Plus(t) => t.span,
            Token::Minus(t) => t.span,
            Token::Asterisk(t) => t.span,
            Token::Slash(t) => t.span,
            Token::Carat(t) => t.span,
            Token::Percent(t) => t.span,
            Token::Dot(t) => t.span,
            Token::DoubleDot(t) => t.span,
            Token::Less(t) => t.span,
            Token::LessEqual(t) => t.span,
            Token::Greater(t) => t.span,
            Token::GreaterEqual(t) => t.span,
            Token::DoubleEqual(t) => t.span,
            Token::TildeEqual(t) => t.span,
            Token::Hashtag(t) => t.span,
            Token::Ellipses(t) => t.span,
            Token::Comma(t) => t.span,
            Token::DoubleColon(t) => t.span,
            Token::Colon(t) => t.span,
            Token::OpenParen(t) => t.span,
            Token::OpenBracket(t) => t.span,
            Token::OpenBrace(t) => t.span,
            Token::CloseParen(t) => t.span,
            Token::CloseBracket(t) => t.span,
            Token::CloseBrace(t) => t.span,
            Token::DoubleSlash(t) => t.span,
            Token::Pipe(t) => t.span,
            Token::Tilde(t) => t.span,
            Token::Ampersand(t) => t.span,
            Token::DoubleLess(t) => t.span,
            Token::DoubleGreater(t) => t.span,
            Token::EOF(t) => t.span,
            Token::Name(t) => t.span,
        }
    }
}

/// A string literal: its opening quote, its contents and its closing quote.
#[derive(Debug, Copy, Clone, PartialEq, Eq)]
pub struct LiteralString {
    pub start_span: Span,
    pub inner_span: Span,
    pub end_span: Span,
    pub quote_type: QuoteType,
}

impl LiteralString {
    /// The span from the opening quote to the end of the closing quote.
    pub open spec fn spec_full_span(self) -> Span {
        Span { start: self.start_span.start, end: self.end_span.end }
    }

    /// Gets the span from the opening quote to the end of the closing quote.
    pub fn full_span(&self) -> (s: Span)
        requires
            self.start_span.start <= self.end_span.end,
        ensures
            s == self.spec_full_span(),
    {
        Span::new(self.start_span.start, self.end_span.end)
    }
}

/// How a string literal is quoted.
#[derive(Debug, Copy, Clone, PartialEq, Eq)]
pub enum QuoteType {
    Single,
    Double,
    Bracketed { eq_count: usize },
}

impl Parseable for Do {
    open spec fn parse_tree(&self) -> Tree {
        Tree::Leaf(Token::Do(*self))
    }

    open spec fn spec_parse(input: Tokens, pos: nat) -> Outcome<Tree> {
        match peek_at(input, pos as int) {
            Token::Do(tok) => Outcome::Returns(Ok(Tree::Leaf(Token::Do(tok))), pos + 1),
            other => Outcome::Returns(
                Err(perr(other.spec_span().start as int, "expected token Do")),
                pos,
            ),
        }
    }

    fn parse(t: &mut TokenStream) -> (r: Result<Self, ParsingError>) {
        let res = t.peek(0);
        if let Token::Do(tok) = res {
            t.skip(1);
            Ok(tok)
        } else {
            Err(ParsingError::new(res.span().start, "expected token Do"))
        }
    }
}

impl Parseable for End {
    open spec fn parse_tree(&self) -> Tree {
        Tree::Leaf(Token::End(*self))
    }

    open spec fn spec_parse(input: Tokens, pos: nat) -> Outcome<Tree> {
        match peek_at(input, pos as int) {
            Token::End(tok) => Outcome::Returns(Ok(Tree::Leaf(Token::End(tok))), pos + 1),
            other => Outcome::Returns(
                Err(perr(other.spec_span().start as int, "expected token End")),
                pos,
            ),
        }
    }

    fn parse(t: &mut TokenStream) -> (r: Result<Self, ParsingError>) {
        let res = t.peek(0);
        if let Token::End(tok) = res {
            t.skip(1);
            Ok(tok)
        } else {
            Err(ParsingError::new(res.span().start, "expected token End"))
        }
    }
}

impl Parseable for If {
    open spec fn parse_tree(&self) -> Tree {
        Tree::Leaf(Token::If(*self))
    }

    open spec fn spec_parse(input: Tokens, pos: nat) -> Outcome<Tree> {
        match peek_at(input, pos as int) {
            Token::If(tok) => Outcome::Returns(Ok(Tree::Leaf(Token::If(tok))), pos + 1),
            other => Outcome::Returns(
                Err(perr(other.spec_span().start as int, "expected token If")),
                pos,
            ),
        }
    }

    fn parse(t: &mut TokenStream) -> (r: Result<Self, ParsingError>) {
        let res = t.peek(0);
        if let Token::If(tok) = res {
            t.skip(1);
            Ok(tok)
        } else {
            Err(ParsingError::new(res.span().start, "expected token If"))
        }
    }
}

impl Parseable for Then {
    open spec fn parse_tree(&self) -> Tree {
        Tree::Leaf(Token::Then(*self))
    }

    open spec fn spec_parse(input: Tokens, pos: nat) -> Outcome<Tree> {
        match peek_at(input, pos as int) {
            Token::Then(tok) => Outcome::Returns(Ok(Tree::Leaf(Token::Then(tok))), pos + 1),
            other => Outcome::Returns(
                Err(perr(other.spec_span().start as int, "expected token Then")),
                pos,
            ),
        }
    }

    fn parse(t: &mut TokenStream) -> (r: Result<Self, ParsingError>) {
        let res = t.peek(0);
        if let Token::Then(tok) = res {
            t.skip(1);
            Ok(tok)
        } else {
            Err(ParsingError::new(res.span().start, "expected token Then"))
        }
    }
}

impl Parseable for ElseIf {
    open spec fn parse_tree(&self) -> Tree {
        Tree::Leaf(Token::ElseIf(*self))
    }

    open spec fn spec_parse(input: Tokens, pos: nat) -> Outcome<Tree> {
        match peek_at(input, pos as int) {
            Token::ElseIf(tok) => Outcome::Returns(Ok(Tree::Leaf(Token::ElseIf(tok))), pos + 1),
            other => Outcome::Returns(
                Err(perr(other.spec_span().start as int, "expected token ElseIf")),
                pos,
            ),
        }
    }

    fn parse(t: &mut TokenStream) -> (r: Result<Self, ParsingError>) {
        let res = t.peek(0);
        if let Token::ElseIf(tok) = res {
            t.skip(1);
            Ok(tok)
        } else {
            Err(ParsingError::new(res.span().start, "expected token ElseIf"))
        }
    }
}

impl Parseable for Else {
    open spec fn parse_tree(&self) -> Tree {
        Tree::Leaf(Token::Else(*self))
    }

    open spec fn spec_parse(input: Tokens, pos: nat) -> Outcome<Tree> {
        match peek_at(input, pos as int) {
            Token::Else(tok) => Outcome::Returns(Ok(Tree::Leaf(Token::Else(tok))), pos + 1),
            other => Outcome::Returns(
                Err(perr(other.spec_span().start as int, "expected token Else")),
                pos,
            ),
        }
    }

    fn parse(t: &mut TokenStream) -> (r: Result<Self, ParsingError>) {
        let res = t.peek(0);
        if let Token::Else(tok) = res {
            t.skip(1);
            Ok(tok)
        } else {
            Err(ParsingError::new(res.span().start, "expected token Else"))
        }
    }
}

impl Parseable for For {
    open spec fn parse_tree(&self) -> Tree {
        Tree::Leaf(Token::For(*self))
    }

    open spec fn spec_parse(input: Tokens, pos: nat) -> Outcome<Tree> {
        match peek_at(input, pos as int) {
            Token::For(tok) => Outcome::Returns(Ok(Tree::Leaf(Token::For(tok))), pos + 1),
            other => Outcome::Returns(
                Err(perr(other.spec_span().start as int, "expected token For")),
                pos,
            ),
        }
    }

    fn parse(t: &mut TokenStream) -> (r: Result<Self, ParsingError>) {
        let res = t.peek(0);
        if let Token::For(tok) = res {
            t.skip(1);
            Ok(tok)
        } else {
            Err(ParsingError::new(res.span().start, "expected token For"))
        }
    }
}

impl Parseable for In {
    open spec fn parse_tree(&self) -> Tree {
        Tree::Leaf(Token::In(*self))
    }

    open spec fn spec_parse(input: Tokens, pos: nat) -> Outcome<Tree> {
        match peek_at(input, pos as int) {
            Token::In(tok) => Outcome::Returns(Ok(Tree::Leaf(Token::In(tok))), pos + 1),
            other => Outcome::Returns(
                Err(perr(other.spec_span().start as int, "expected token In")),
                pos,
            ),
        }
    }

    fn parse(t: &mut TokenStream) -> (r: Result<Self, ParsingError>) {
        let res = t.peek(0);
        if let Token::In(tok) = res {
            t.skip(1);
            Ok(tok)
        } else {
            Err(ParsingError::new(res.span().start, "expected token In"))
        }
    }
}

impl Parseable for While {
    open spec fn parse_tree(&self) -> Tree {
        Tree::Leaf(Token::While(*self))
    }

    open spec fn spec_parse(input: Tokens, pos: nat) -> Outcome<Tree> {
        match peek_at(input, pos as int) {
            Token::While(tok) => Outcome::Returns(Ok(Tree::Leaf(Token::While(tok))), pos + 1),
            other => Outcome::Returns(
                Err(perr(other.spec_span().start as int, "expected token While")),
                pos,
            ),
        }
    }

    fn parse(t: &mut TokenStream) -> (r: Result<Self, ParsingError>) {
        let res = t.peek(0);
        if let Token::While(tok) = res {
            t.skip(1);
            Ok(tok)
        } else {
            Err(ParsingError::new(res.span().start, "expected token While"))
        }
    }
}

impl Parseable for Break {
    open spec fn parse_tree(&self) -> Tree {
        Tree::Leaf(Token::Break(*self))
    }

    open spec fn spec_parse(input: Tokens, pos: nat) -> Outcome<Tree> {
        match peek_at(input, pos as int) {
            Token::Break(tok) => Outcome::Returns(Ok(Tree::Leaf(Token::Break(tok))), pos + 1),
            other => Outcome::Returns(
                Err(perr(other.spec_span().start as int, "expected token Break")),
                pos,
            ),
        }
    }

    fn parse(t: &mut TokenStream) -> (r: Result<Self, ParsingError>) {
        let res = t.peek(0);
        if let Token::Break(tok) = res {
            t.skip(1);
            Ok(tok)
        } else {
            Err(ParsingError::new(res.span().start, "expected token Break"))
        }
    }
}

impl Parseable for Repeat {
    open spec fn parse_tree(&self) -> Tree {
        Tree::Leaf(Token::Repeat(*self))
    }

    open spec fn spec_parse(input: Tokens, pos: nat) -> Outcome<Tree> {
        match peek_at(input, pos as int) {
            Token::Repeat(tok) => Outcome::Returns(Ok(Tree::Leaf(Token::Repeat(tok))), pos + 1),
            other => Outcome::Returns(
                Err(perr(other.spec_span().start as int, "expected token Repeat")),
                pos,
            ),
        }
    }

    fn parse(t: &mut TokenStream) -> (r: Result<Self, ParsingError>) {
        let res = t.peek(0);
        if let Token::Repeat(tok) = res {
            t.skip(1);
            Ok(tok)
        } else {
            Err(ParsingError::new(res.span().start, "expected token Repeat"))
        }
    }
}

impl Parseable for Until {
    open spec fn parse_tree(&self) -> Tree {
        Tree::Leaf(Token::Until(*self))
    }

    open spec fn spec_parse(input: Tokens, pos: nat) -> Outcome<Tree> {
        match peek_at(input, pos as int) {
            Token::Until(tok) => Outcome::Returns(Ok(Tree::Leaf(Token::Until(tok))), pos + 1),
            other => Outcome::Returns(
                Err(perr(other.spec_span().start as int, "expected token Until")),
                pos,
            ),
        }
    }

    fn parse(t: &mut TokenStream) -> (r: Result<Self, ParsingError>) {
        let res = t.peek(0);
        if let Token::Until(tok) = res {
            t.skip(1);
            Ok(tok)
        } else {
            Err(ParsingError::new(res.span().start, "expected token Until"))
        }
    }
}

impl Parseable for Goto {
    open spec fn parse_tree(&self) -> Tree {
        Tree::Leaf(Token::Goto(*self))
    }

    open spec fn spec_parse(input: Tokens, pos: nat) -> Outcome<Tree> {
        match peek_at(input, pos as int) {
            Token::Goto(tok) => Outcome::Returns(Ok(Tree::Leaf(Token::Goto(tok))), pos + 1),
            other => Outcome::Returns(
                Err(perr(other.spec_span().start as int, "expected token Goto")),
                pos,
            ),
        }
    }

    fn parse(t: &mut TokenStream) -> (r: Result<Self, ParsingError>) {
        let res = t.peek(0);
        if let Token::Goto(tok) = res {
            t.skip(1);
            Ok(tok)
        } else {
            Err(ParsingError::new(res.span().start, "expected token Goto"))
        }
    }
}

impl Parseable for Local {
    open spec fn parse_tree(&self) -> Tree {
        Tree::Leaf(Token::Local(*self))
    }

    open spec fn spec_parse(input: Tokens, pos: nat) -> Outcome<Tree> {
        match peek_at(input, pos as int) {
            Token::Local(tok) => Outcome::Returns(Ok(Tree::Leaf(Token::Local(tok))), pos + 1),
            other => Outcome::Returns(
                Err(perr(other.spec_span().start as int, "expected token Local")),
                pos,
            ),
        }
    }

    fn parse(t: &mut TokenStream) -> (r: Result<Self, ParsingError>) {
        let res = t.peek(0);
        if let Token::Local(tok) = res {
            t.skip(1);
            Ok(tok)
        } else {
            Err(ParsingError::new(res.span().start, "expected token Local"))
        }
    }
}

impl Parseable for Function {
    open spec fn parse_tree(&self) -> Tree {
        Tree::Leaf(Token::Function(*self))
    }

    open spec fn spec_parse(input: Tokens, pos: nat) -> Outcome<Tree> {
        match peek_at(input, pos as int) {
            Token::Function(tok) => Outcome::Returns(Ok(Tree::Leaf(Token::Function(tok))), pos + 1),
            other => Outcome::Returns(
                Err(perr(other.spec_span().start as int, "expected token Function")),
                pos,
            ),
        }
    }

    fn parse(t: &mut TokenStream) -> (r: Result<Self, ParsingError>) {
        let res = t.peek(0);
        if let Token::Function(tok) = res {
            t.skip(1);
            Ok(tok)
        } else {
            Err(ParsingError::new(res.span().start, "expected token Function"))
        }
    }
}

impl Parseable for Return {
    open spec fn parse_tree(&self) -> Tree {
        Tree::Leaf(Token::Return(*self))
    }

    open spec fn spec_parse(input: Tokens, pos: nat) -> Outcome<Tree> {
        match peek_at(input, pos as int) {
            Token::Return(tok) => Outcome::Returns(Ok(Tree::Leaf(Token::Return(tok))), pos + 1),
            other => Outcome::Returns(
                Err(perr(other.spec_span().start as int, "expected token Return")),
                pos,
            ),
        }
    }

    fn parse(t: &mut TokenStream) -> (r: Result<Self, ParsingError>) {
        let res = t.peek(0);
        if let Token::Return(tok) = res {
            t.skip(1);
            Ok(tok)
        } else {
            Err(ParsingError::new(res.span().start, "expected token Return"))
        }
    }
}

impl Parseable for Nil {
    open spec fn parse_tree(&self) -> Tree {
        Tree::Leaf(Token::Nil(*self))
    }

    open spec fn spec_parse(input: Tokens, pos: nat) -> Outcome<Tree> {
        match peek_at(input, pos as int) {
            Token::Nil(tok) => Outcome::Returns(Ok(Tree::Leaf(Token::Nil(tok))), pos + 1),
            other => Outcome::Returns(
                Err(perr(other.spec_span().start as int, "expected token Nil")),
                pos,
            ),
        }
    }

    fn parse(t: &mut TokenStream) -> (r: Result<Self, ParsingError>) {
        let res = t.peek(0);
        if let Token::Nil(tok) = res {
            t.skip(1);
            Ok(tok)
        } else {
            Err(ParsingError::new(res.span().start, "expected token Nil"))
        }
    }
}

impl Parseable for True {
    open spec fn parse_tree(&self) -> Tree {
        Tree::Leaf(Token::True(*self))
    }

    open spec fn spec_parse(input: Tokens, pos: nat) -> Outcome<Tree> {
        match peek_at(input, pos as int) {
            Token::True(tok) => Outcome::Returns(Ok(Tree::Leaf(Token::True(tok))), pos + 1),
            other => Outcome::Returns(
                Err(perr(other.spec_span().start as int, "expected token True")),
                pos,
            ),
        }
    }

    fn parse(t: &mut TokenStream) -> (r: Result<Self, ParsingError>) {
        let res = t.peek(0);
        if let Token::True(tok) = res {
            t.skip(1);
            Ok(tok)
        } else {
            Err(ParsingError::new(res.span().start, "expected token True"))
        }
    }
}

impl Parseable for False {
    open spec fn parse_tree(&self) -> Tree {
        Tree::Leaf(Token::False(*self))
    }

    open spec fn spec_parse(input: Tokens, pos: nat) -> Outcome<Tree> {
        match peek_at(input, pos as int) {
            Token::False(tok) => Outcome::Returns(Ok(Tree::Leaf(Token::False(tok))), pos + 1),
            other => Outcome::Returns(
                Err(perr(other.spec_span().start as int, "expected token False")),
                pos,
            ),
        }
    }

    fn parse(t: &mut TokenStream) -> (r: Result<Self, ParsingError>) {
        let res = t.peek(0);
        if let Token::False(tok) = res {
            t.skip(1);
            Ok(tok)
        } else {
            Err(ParsingError::new(res.span().start, "expected token False"))
        }
    }
}

impl Parseable for And {
    open spec fn parse_tree(&self) -> Tree {
        Tree::Leaf(Token::And(*self))
    }

    open spec fn spec_parse(input: Tokens, pos: nat) -> Outcome<Tree> {
        match peek_at(input, pos as int) {
            Token::And(tok) => Outcome::Returns(Ok(Tree::Leaf(Token::And(tok))), pos + 1),
            other => Outcome::Returns(
                Err(perr(other.spec_span().start as int, "expected token And")),
                pos,
            ),
        }
    }

    fn parse(t: &mut TokenStream) -> (r: Result<Self, ParsingError>) {
        let res = t.peek(0);
        if let Token::And(tok) = res {
            t.skip(1);
            Ok(tok)
        } else {
            Err(ParsingError::new(res.span().start, "expected token And"))
        }
    }
}

impl Parseable for Or {
    open spec fn parse_tree(&self) -> Tree {
        Tree::Leaf(Token::Or(*self))
    }

    open spec fn spec_parse(input: Tokens, pos: nat) -> Outcome<Tree> {
        match peek_at(input, pos as int) {
            Token::Or(tok) => Outcome::Returns(Ok(Tree::Leaf(Token::Or(tok))), pos + 1),
            other => Outcome::Returns(
                Err(perr(other.spec_span().start as int, "expected token Or")),
                pos,
            ),
        }
    }

    fn parse(t: &mut TokenStream) -> (r: Result<Self, ParsingError>) {
        let res = t.peek(0);
        if let Token::Or(tok) = res {
            t.skip(1);
            Ok(tok)
        } else {
            Err(ParsingError::new(res.span().start, "expected token Or"))
        }
    }
}

impl Parseable for Not {
    open spec fn parse_tree(&self) -> Tree {
        Tree::Leaf(Token::Not(*self))
    }

    open spec fn spec_parse(input: Tokens, pos: nat) -> Outcome<Tree> {
        match peek_at(input, pos as int) {
            Token::Not(tok) => Outcome::Returns(Ok(Tree::Leaf(Token::Not(tok))), pos + 1),
            other => Outcome::Returns(
                Err(perr(other.spec_span().start as int, "expected token Not")),
                pos,
            ),
        }
    }

    fn parse(t: &mut TokenStream) -> (r: Result<Self, ParsingError>) {
        let res = t.peek(0);
        if let Token::Not(tok) = res {
            t.skip(1);
            Ok(tok)
        } else {
            Err(ParsingError::new(res.span().start, "expected token Not"))
        }
    }
}

impl Parseable for LiteralNumber {
    open spec fn parse_tree(&self) -> Tree {
        Tree::Leaf(Token::LiteralNumber(*self))
    }

    open spec fn spec_parse(input: Tokens, pos: nat) -> Outcome<Tree> {
        match peek_at(input, pos as int) {
            Token::LiteralNumber(tok) => Outcome::Returns(Ok(Tree::Leaf(Token::LiteralNumber(tok))), pos + 1),
            other => Outcome::Returns(
                Err(perr(other.spec_span().start as int, "expected token LiteralNumber")),
                pos,
            ),
        }
    }

    fn parse(t: &mut TokenStream) -> (r: Result<Self, ParsingError>) {
        let res = t.peek(0);
        if let Token::LiteralNumber(tok) = res {
            t.skip(1);
            Ok(tok)
        } else {
            Err(ParsingError::new(res.span().start, "expected token LiteralNumber"))
        }
    }
}

impl Parseable for LiteralString {
    open spec fn parse_tree(&self) -> Tree {
        Tree::Leaf(Token::LiteralString(*self))
    }

    open spec fn spec_parse(input: Tokens, pos: nat) -> Outcome<Tree> {
        match peek_at(input, pos as int) {
            Token::LiteralString(tok) => Outcome::Returns(Ok(Tree::Leaf(Token::LiteralString(tok))), pos + 1),
            other => Outcome::Returns(
                Err(perr(other.spec_span().start as int, "expected token LiteralString")),
                pos,
            ),
        }
    }

    fn parse(t: &mut TokenStream) -> (r: Result<Self, ParsingError>) {
        let res = t.peek(0);
        if let Token::LiteralString(tok) = res {
            t.skip(1);
            Ok(tok)
        } else {
            Err(ParsingError::new(res.span().start, "expected token LiteralString"))
        }
    }
}

impl Parseable for Semicolon {
    open spec fn parse_tree(&self) -> Tree {
        Tree::Leaf(Token::Semicolon(*self))
    }

    open spec fn spec_parse(input: Tokens, pos: nat) -> Outcome<Tree> {
        match peek_at(input, pos as int) {
            Token::Semicolon(tok) => Outcome::Returns(Ok(Tree::Leaf(Token::Semicolon(tok))), pos + 1),
            other => Outcome::Returns(
                Err(perr(other.spec_span().start as int, "expected token Semicolon")),
                pos,
            ),
        }
    }

    fn parse(t: &mut TokenStream) -> (r: Result<Self, ParsingError>) {
        let res = t.peek(0);
        if let Token::Semicolon(tok) = res {
            t.skip(1);
            Ok(tok)
        } else {
            Err(ParsingError::new(res.span().start, "expected token Semicolon"))
        }
    }
}

impl Parseable for Equal {
    open spec fn parse_tree(&self) -> Tree {
        Tree::Leaf(Token::Equal(*self))
    }

    open spec fn spec_parse(input: Tokens, pos: nat) -> Outcome<Tree> {
        match peek_at(input, pos as int) {
            Token::Equal(tok) => Outcome::Returns(Ok(Tree::Leaf(Token::Equal(tok))), pos + 1),
            other => Outcome::Returns(
                Err(perr(other.spec_span().start as int, "expected token Equal")),
                pos,
            ),
        }
    }

    fn parse(t: &mut TokenStream) -> (r: Result<Self, ParsingError>) {
        let res = t.peek(0);
        if let Token::Equal(tok) = res {
            t.skip(1);
            Ok(tok)
        } else {
            Err(ParsingError::new(res.span().start, "expected token Equal"))
        }
    }
}

impl Parseable for Plus {
    open spec fn parse_tree(&self) -> Tree {
        Tree::Leaf(Token::Plus(*self))
    }

    open spec fn spec_parse(input: Tokens, pos: nat) -> Outcome<Tree> {
        match peek_at(input, pos as int) {
            Token::Plus(tok) => Outcome::Returns(Ok(Tree::Leaf(Token::Plus(tok))), pos + 1),
            other => Outcome::Returns(
                Err(perr(other.spec_span().start as int, "expected token Plus")),
                pos,
            ),
        }
    }

    fn parse(t: &mut TokenStream) -> (r: Result<Self, ParsingError>) {
        let res = t.peek(0);
        if let Token::Plus(tok) = res {
            t.skip(1);
            Ok(tok)
        } else {
            Err(ParsingError::new(res.span().start, "expected token Plus"))
        }
    }
}

impl Parseable for Minus {
    open spec fn parse_tree(&self) -> Tree {
        Tree::Leaf(Token::Minus(*self))
    }

    open spec fn spec_parse(input: Tokens, pos: nat) -> Outcome<Tree> {
        match peek_at(input, pos as int) {
            Token::Minus(tok) => Outcome::Returns(Ok(Tree::Leaf(Token::Minus(tok))), pos + 1),
            other => Outcome::Returns(
                Err(perr(other.spec_span().start as int, "expected token Minus")),
                pos,
            ),
        }
    }

    fn parse(t: &mut TokenStream) -> (r: Result<Self, ParsingError>) {
        let res = t.peek(0);
        if let Token::Minus(tok) = res {
            t.skip(1);
            Ok(tok)
        } else {
            Err(ParsingError::new(res.span().start, "expected token Minus"))
        }
    }
}

impl Parseable for Asterisk {
    open spec fn parse_tree(&self) -> Tree {
        Tree::Leaf(Token::Asterisk(*self))
    }

    open spec fn spec_parse(input: Tokens, pos: nat) -> Outcome<Tree> {
        match peek_at(input, pos as int) {
            Token::Asterisk(tok) => Outcome::Returns(Ok(Tree::Leaf(Token::Asterisk(tok))), pos + 1),
            other => Outcome::Returns(
                Err(perr(other.spec_span().start as int, "expected token Asterisk")),
                pos,
            ),
        }
    }

    fn parse(t: &mut TokenStream) -> (r: Result<Self, ParsingError>) {
        let res = t.peek(0);
        if let Token::Asterisk(tok) = res {
            t.skip(1);
            Ok(tok)
        } else {
            Err(ParsingError::new(res.span().start, "expected token Asterisk"))
        }
    }
}

impl Parseable for Slash {
    open spec fn parse_tree(&self) -> Tree {
        Tree::Leaf(Token::Slash(*self))
    }

    open spec fn spec_parse(input: Tokens, pos: nat) -> Outcome<Tree> {
        match peek_at(input, pos as int) {
            Token::Slash(tok) => Outcome::Returns(Ok(Tree::Leaf(Token::Slash(tok))), pos + 1),
            other => Outcome::Returns(
                Err(perr(other.spec_span().start as int, "expected token Slash")),
                pos,
            ),
        }
    }

    fn parse(t: &mut TokenStream) -> (r: Result<Self, ParsingError>) {
        let res = t.peek(0);
        if let Token::Slash(tok) = res {
            t.skip(1);
            Ok(tok)
        } else {
            Err(ParsingError::new(res.span().start, "expected token Slash"))
        }
    }
}

impl Parseable for Carat {
    open spec fn parse_tree(&self) -> Tree {
        Tree::Leaf(Token::Carat(*self))
    }

    open spec fn spec_parse(input: Tokens, pos: nat) -> Outcome<Tree> {
        match peek_at(input, pos as int) {
            Token::Carat(tok) => Outcome::Returns(Ok(Tree::Leaf(Token::Carat(tok))), pos + 1),
            other => Outcome::Returns(
                Err(perr(other.spec_span().start as int, "expected token Carat")),
                pos,
            ),
        }
    }

    fn parse(t: &mut TokenStream) -> (r: Result<Self, ParsingError>) {
        let res = t.peek(0);
        if let Token::Carat(tok) = res {
            t.skip(1);
            Ok(tok)
        } else {
            Err(ParsingError::new(res.span().start, "expected token Carat"))
        }
    }
}

impl Parseable for Percent {
    open spec fn parse_tree(&self) -> Tree {
        Tree::Leaf(Token::Percent(*self))
    }

    open spec fn spec_parse(input: Tokens, pos: nat) -> Outcome<Tree> {
        match peek_at(input, pos as int) {
            Token::Percent(tok) => Outcome::Returns(Ok(Tree::Leaf(Token::Percent(tok))), pos + 1),
            other => Outcome::Returns(
                Err(perr(other.spec_span().start as int, "expected token Percent")),
                pos,
            ),
        }
    }

    fn parse(t: &mut TokenStream) -> (r: Result<Self, ParsingError>) {
        let res = t.peek(0);
        if let Token::Percent(tok) = res {
            t.skip(1);
            Ok(tok)
        } else {
            Err(ParsingError::new(res.span().start, "expected token Percent"))
        }
    }
}

impl Parseable for Dot {
    open spec fn parse_tree(&self) -> Tree {
        Tree::Leaf(Token::Dot(*self))
    }

    open spec fn spec_parse(input: Tokens, pos: nat) -> Outcome<Tree> {
        match peek_at(input, pos as int) {
            Token::Dot(tok) => Outcome::Returns(Ok(Tree::Leaf(Token::Dot(tok))), pos + 1),
            other => Outcome::Returns(
                Err(perr(other.spec_span().start as int, "expected token Dot")),
                pos,
            ),
        }
    }

    fn parse(t: &mut TokenStream) -> (r: Result<Self, ParsingError>) {
        let res = t.peek(0);
        if let Token::Dot(tok) = res {
            t.skip(1);
            Ok(tok)
        } else {
            Err(ParsingError::new(res.span().start, "expected token Dot"))
        }
    }
}

impl Parseable for DoubleDot {
    open spec fn parse_tree(&self) -> Tree {
        Tree::Leaf(Token::DoubleDot(*self))
    }

    open spec fn spec_parse(input: Tokens, pos: nat) -> Outcome<Tree> {
        match peek_at(input, pos as int) {
            Token::DoubleDot(tok) => Outcome::Returns(Ok(Tree::Leaf(Token::DoubleDot(tok))), pos + 1),
            other => Outcome::Returns(
                Err(perr(other.spec_span().start as int, "expected token DoubleDot")),
                pos,
            ),
        }
    }

    fn parse(t: &mut TokenStream) -> (r: Result<Self, ParsingError>) {
        let res = t.peek(0);
        if let Token::DoubleDot(tok) = res {
            t.skip(1);
            Ok(tok)
        } else {
            Err(ParsingError::new(res.span().start, "expected token DoubleDot"))
        }
    }
}

impl Parseable for Less {
    open spec fn parse_tree(&self) -> Tree {
        Tree::Leaf(Token::Less(*self))
    }

    open spec fn spec_parse(input: Tokens, pos: nat) -> Outcome<Tree> {
        match peek_at(input, pos as int) {
            Token::Less(tok) => Outcome::Returns(Ok(Tree::Leaf(Token::Less(tok))), pos + 1),
            other => Outcome::Returns(
                Err(perr(other.spec_span().start as int, "expected token Less")),
                pos,
            ),
        }
    }

    fn parse(t: &mut TokenStream) -> (r: Result<Self, ParsingError>) {
        let res = t.peek(0);
        if let Token::Less(tok) = res {
            t.skip(1);
            Ok(tok)
        } else {
            Err(ParsingError::new(res.span().start, "expected token Less"))
        }
    }
}

impl Parseable for LessEqual {
    open spec fn parse_tree(&self) -> Tree {
        Tree::Leaf(Token::LessEqual(*self))
    }

    open spec fn spec_parse(input: Tokens, pos: nat) -> Outcome<Tree> {
        match peek_at(input, pos as int) {
            Token::LessEqual(tok) => Outcome::Returns(Ok(Tree::Leaf(Token::LessEqual(tok))), pos + 1),
            other => Outcome::Returns(
                Err(perr(other.spec_span().start as int, "expected token LessEqual")),
                pos,
            ),
        }
    }

    fn parse(t: &mut TokenStream) -> (r: Result<Self, ParsingError>) {
        let res = t.peek(0);
        if let Token::LessEqual(tok) = res {
            t.skip(1);
            Ok(tok)
        } else {
            Err(ParsingError::new(res.span().start, "expected token LessEqual"))
        }
    }
}

impl Parseable for Greater {
    open spec fn parse_tree(&self) -> Tree {
        Tree::Leaf(Token::Greater(*self))
    }

    open spec fn spec_parse(input: Tokens, pos: nat) -> Outcome<Tree> {
        match peek_at(input, pos as int) {
            Token::Greater(tok) => Outcome::Returns(Ok(Tree::Leaf(Token::Greater(tok))), pos + 1),
            other => Outcome::Returns(
                Err(perr(other.spec_span().start as int, "expected token Greater")),
                pos,
            ),
        }
    }

    fn parse(t: &mut TokenStream) -> (r: Result<Self, ParsingError>) {
        let res = t.peek(0);
        if let Token::Greater(tok) = res {
            t.skip(1);
            Ok(tok)
        } else {
            Err(ParsingError::new(res.span().start, "expected token Greater"))
        }
    }
}

impl Parseable for GreaterEqual {
    open spec fn parse_tree(&self) -> Tree {
        Tree::Leaf(Token::GreaterEqual(*self))
    }

    open spec fn spec_parse(input: Tokens, pos: nat) -> Outcome<Tree> {
        match peek_at(input, pos as int) {
            Token::GreaterEqual(tok) => Outcome::Returns(Ok(Tree::Leaf(Token::GreaterEqual(tok))), pos + 1),
            other => Outcome::Returns(
                Err(perr(other.spec_span().start as int, "expected token GreaterEqual")),
                pos,
            ),
        }
    }

    fn parse(t: &mut TokenStream) -> (r: Result<Self, ParsingError>) {
        let res = t.peek(0);
        if let Token::GreaterEqual(tok) = res {
            t.skip(1);
            Ok(tok)
        } else {
            Err(ParsingError::new(res.span().start, "expected token GreaterEqual"))
        }
    }
}

impl Parseable for DoubleEqual {
    open spec fn parse_tree(&self) -> Tree {
        Tree::Leaf(Token::DoubleEqual(*self))
    }

    open spec fn spec_parse(input: Tokens, pos: nat) -> Outcome<Tree> {
        match peek_at(input, pos as int) {
            Token::DoubleEqual(tok) => Outcome::Returns(Ok(Tree::Leaf(Token::DoubleEqual(tok))), pos + 1),
            other => Outcome::Returns(
                Err(perr(other.spec_span().start as int, "expected token DoubleEqual")),
                pos,
            ),
        }
    }

    fn parse(t: &mut TokenStream) -> (r: Result<Self, ParsingError>) {
        let res = t.peek(0);
        if let Token::DoubleEqual(tok) = res {
            t.skip(1);
            Ok(tok)
        } else {
            Err(ParsingError::new(res.span().start, "expected token DoubleEqual"))
        }
    }
}

impl Parseable for TildeEqual {
    open spec fn parse_tree(&self) -> Tree {
        Tree::Leaf(Token::TildeEqual(*self))
    }

    open spec fn spec_parse(input: Tokens, pos: nat) -> Outcome<Tree> {
        match peek_at(input, pos as int) {
            Token::TildeEqual(tok) => Outcome::Returns(Ok(Tree::Leaf(Token::TildeEqual(tok))), pos + 1),
            other => Outcome::Returns(
                Err(perr(other.spec_span().start as int, "expected token TildeEqual")),
                pos,
            ),
        }
    }

    fn parse(t: &mut TokenStream) -> (r: Result<Self, ParsingError>) {
        let res = t.peek(0);
        if let Token::TildeEqual(tok) = res {
            t.skip(1);
            Ok(tok)
        } else {
            Err(ParsingError::new(res.span().start, "expected token TildeEqual"))
        }
    }
}

impl Parseable for Hashtag {
    open spec fn parse_tree(&self) -> Tree {
        Tree::Leaf(Token::Hashtag(*self))
    }

    open spec fn spec_parse(input: Tokens, pos: nat) -> Outcome<Tree> {
        match peek_at(input, pos as int) {
            Token::Hashtag(tok) => Outcome::Returns(Ok(Tree::Leaf(Token::Hashtag(tok))), pos + 1),
            other => Outcome::Returns(
                Err(perr(other.spec_span().start as int, "expected token Hashtag")),
                pos,
            ),
        }
    }

    fn parse(t: &mut TokenStream) -> (r: Result<Self, ParsingError>) {
        let res = t.peek(0);
        if let Token::Hashtag(tok) = res {
            t.skip(1);
            Ok(tok)
        } else {
            Err(ParsingError::new(res.span().start, "expected token Hashtag"))
        }
    }
}

impl Parseable for Ellipses {
    open spec fn parse_tree(&self) -> Tree {
        Tree::Leaf(Token::Ellipses(*self))
    }

    open spec fn spec_parse(input: Tokens, pos: nat) -> Outcome<Tree> {
        match peek_at(input, pos as int) {
            Token::Ellipses(tok) => Outcome::Returns(Ok(Tree::Leaf(Token::Ellipses(tok))), pos + 1),
            other => Outcome::Returns(
                Err(perr(other.spec_span().start as int, "expected token Ellipses")),
                pos,
            ),
        }
    }

    fn parse(t: &mut TokenStream) -> (r: Result<Self, ParsingError>) {
        let res = t.peek(0);
        if let Token::Ellipses(tok) = res {
            t.skip(1);
            Ok(tok)
        } else {
            Err(ParsingError::new(res.span().start, "expected token Ellipses"))
        }
    }
}

impl Parseable for Comma {
    open spec fn parse_tree(&self) -> Tree {
        Tree::Leaf(Token::Comma(*self))
    }

    open spec fn spec_parse(input: Tokens, pos: nat) -> Outcome<Tree> {
        match peek_at(input, pos as int) {
            Token::Comma(tok) => Outcome::Returns(Ok(Tree::Leaf(Token::Comma(tok))), pos + 1),
            other => Outcome::Returns(
                Err(perr(other.spec_span().start as int, "expected token Comma")),
                pos,
            ),
        }
    }

    fn parse(t: &mut TokenStream) -> (r: Result<Self, ParsingError>) {
        let res = t.peek(0);
        if let Token::Comma(tok) = res {
            t.skip(1);
            Ok(tok)
        } else {
            Err(ParsingError::new(res.span().start, "expected token Comma"))
        }
    }
}

impl Parseable for DoubleColon {
    open spec fn parse_tree(&self) -> Tree {
        Tree::Leaf(Token::DoubleColon(*self))
    }

    open spec fn spec_parse(input: Tokens, pos: nat) -> Outcome<Tree> {
        match peek_at(input, pos as int) {
            Token::DoubleColon(tok) => Outcome::Returns(Ok(Tree::Leaf(Token::DoubleColon(tok))), pos + 1),
            other => Outcome::Returns(
                Err(perr(other.spec_span().start as int, "expected token DoubleColon")),
                pos,
            ),
        }
    }

    fn parse(t: &mut TokenStream) -> (r: Result<Self, ParsingError>) {
        let res = t.peek(0);
        if let Token::DoubleColon(tok) = res {
            t.skip(1);
            Ok(tok)
        } else {
            Err(ParsingError::new(res.span().start, "expected token DoubleColon"))
        }
    }
}

impl Parseable for Colon {
    open spec fn parse_tree(&self) -> Tree {
        Tree::Leaf(Token::Colon(*self))
    }

    open spec fn spec_parse(input: Tokens, pos: nat) -> Outcome<Tree> {
        match peek_at(input, pos as int) {
            Token::Colon(tok) => Outcome::Returns(Ok(Tree::Leaf(Token::Colon(tok))), pos + 1),
            other => Outcome::Returns(
                Err(perr(other.spec_span().start as int, "expected token Colon")),
                pos,
            ),
        }
    }

    fn parse(t: &mut TokenStream) -> (r: Result<Self, ParsingError>) {
        let res = t.peek(0);
        if let Token::Colon(tok) = res {
            t.skip(1);
            Ok(tok)
        } else {
            Err(ParsingError::new(res.span().start, "expected token Colon"))
        }
    }
}

impl Parseable for OpenParen {
    open spec fn parse_tree(&self) -> Tree {
        Tree::Leaf(Token::OpenParen(*self))
    }

    open spec fn spec_parse(input: Tokens, pos: nat) -> Outcome<Tree> {
        match peek_at(input, pos as int) {
            Token::OpenParen(tok) => Outcome::Returns(Ok(Tree::Leaf(Token::OpenParen(tok))), pos + 1),
            other => Outcome::Returns(
                Err(perr(other.spec_span().start as int, "expected token OpenParen")),
                pos,
            ),
        }
    }

    fn parse(t: &mut TokenStream) -> (r: Result<Self, ParsingError>) {
        let res = t.peek(0);
        if let Token::OpenParen(tok) = res {
            t.skip(1);
            Ok(tok)
        } else {
            Err(ParsingError::new(res.span().start, "expected token OpenParen"))
        }
    }
}

impl Parseable for OpenBracket {
    open spec fn parse_tree(&self) -> Tree {
        Tree::Leaf(Token::OpenBracket(*self))
    }

    open spec fn spec_parse(input: Tokens, pos: nat) -> Outcome<Tree> {
        match peek_at(input, pos as int) {
            Token::OpenBracket(tok) => Outcome::Returns(Ok(Tree::Leaf(Token::OpenBracket(tok))), pos + 1),
            other => Outcome::Returns(
                Err(perr(other.spec_span().start as int, "expected token OpenBracket")),
                pos,
            ),
        }
    }

    fn parse(t: &mut TokenStream) -> (r: Result<Self, ParsingError>) {
        let res = t.peek(0);
        if let Token::OpenBracket(tok) = res {
            t.skip(1);
            Ok(tok)
        } else {
            Err(ParsingError::new(res.span().start, "expected token OpenBracket"))
        }
    }
}

impl Parseable for OpenBrace {
    open spec fn parse_tree(&self) -> Tree {
        Tree::Leaf(Token::OpenBrace(*self))
    }

    open spec fn spec_parse(input: Tokens, pos: nat) -> Outcome<Tree> {
        match peek_at(input, pos as int) {
            Token::OpenBrace(tok) => Outcome::Returns(Ok(Tree::Leaf(Token::OpenBrace(tok))), pos + 1),
            other => Outcome::Returns(
                Err(perr(other.spec_span().start as int, "expected token OpenBrace")),
                pos,
            ),
        }
    }

    fn parse(t: &mut TokenStream) -> (r: Result<Self, ParsingError>) {
        let res = t.peek(0);
        if let Token::OpenBrace(tok) = res {
            t.skip(1);
            Ok(tok)
        } else {
            Err(ParsingError::new(res.span().start, "expected token OpenBrace"))
        }
    }
}

impl Parseable for CloseParen {
    open spec fn parse_tree(&self) -> Tree {
        Tree::Leaf(Token::CloseParen(*self))
    }

    open spec fn spec_parse(input: Tokens, pos: nat) -> Outcome<Tree> {
        match peek_at(input, pos as int) {
            Token::CloseParen(tok) => Outcome::Returns(Ok(Tree::Leaf(Token::CloseParen(tok))), pos + 1),
            other => Outcome::Returns(
                Err(perr(other.spec_span().start as int, "expected token CloseParen")),
                pos,
            ),
        }
    }

    fn parse(t: &mut TokenStream) -> (r: Result<Self, ParsingError>) {
        let res = t.peek(0);
        if let Token::CloseParen(tok) = res {
            t.skip(1);
            Ok(tok)
        } else {
            Err(ParsingError::new(res.span().start, "expected token CloseParen"))
        }
    }
}

impl Parseable for CloseBracket {
    open spec fn parse_tree(&self) -> Tree {
        Tree::Leaf(Token::CloseBracket(*self))
    }

    open spec fn spec_parse(input: Tokens, pos: nat) -> Outcome<Tree> {
        match peek_at(input, pos as int) {
            Token::CloseBracket(tok) => Outcome::Returns(Ok(Tree::Leaf(Token::CloseBracket(tok))), pos + 1),
            other => Outcome::Returns(
                Err(perr(other.spec_span().start as int, "expected token CloseBracket")),
                pos,
            ),
        }
    }

    fn parse(t: &mut TokenStream) -> (r: Result<Self, ParsingError>) {
        let res = t.peek(0);
        if let Token::CloseBracket(tok) = res {
            t.skip(1);
            Ok(tok)
        } else {
            Err(ParsingError::new(res.span().start, "expected token CloseBracket"))
        }
    }
}

impl Parseable for CloseBrace {
    open spec fn parse_tree(&self) -> Tree {
        Tree::Leaf(Token::CloseBrace(*self))
    }

    open spec fn spec_parse(input: Tokens, pos: nat) -> Outcome<Tree> {
        match peek_at(input, pos as int) {
            Token::CloseBrace(tok) => Outcome::Returns(Ok(Tree::Leaf(Token::CloseBrace(tok))), pos + 1),
            other => Outcome::Returns(
                Err(perr(other.spec_span().start as int, "expected token CloseBrace")),
                pos,
            ),
        }
    }

    fn parse(t: &mut TokenStream) -> (r: Result<Self, ParsingError>) {
        let res = t.peek(0);
        if let Token::CloseBrace(tok) = res {
            t.skip(1);
            Ok(tok)
        } else {
            Err(ParsingError::new(res.span().start, "expected token CloseBrace"))
        }
    }
}

impl Parseable for DoubleSlash {
    open spec fn parse_tree(&self) -> Tree {
        Tree::Leaf(Token::DoubleSlash(*self))
    }

    open spec fn spec_parse(input: Tokens, pos: nat) -> Outcome<Tree> {
        match peek_at(input, pos as int) {
            Token::DoubleSlash(tok) => Outcome::Returns(Ok(Tree::Leaf(Token::DoubleSlash(tok))), pos + 1),
            other => Outcome::Returns(
                Err(perr(other.spec_span().start as int, "expected token DoubleSlash")),
                pos,
            ),
        }
    }

    fn parse(t: &mut TokenStream) -> (r: Result<Self, ParsingError>) {
        let res = t.peek(0);
        if let Token::DoubleSlash(tok) = res {
            t.skip(1);
            Ok(tok)
        } else {
            Err(ParsingError::new(res.span().start, "expected token DoubleSlash"))
        }
    }
}

impl Parseable for Pipe {
    open spec fn parse_tree(&self) -> Tree {
        Tree::Leaf(Token::Pipe(*self))
    }

    open spec fn spec_parse(input: Tokens, pos: nat) -> Outcome<Tree> {
        match peek_at(input, pos as int) {
            Token::Pipe(tok) => Outcome::Returns(Ok(Tree::Leaf(Token::Pipe(tok))), pos + 1),
            other => Outcome::Returns(
                Err(perr(other.spec_span().start as int, "expected token Pipe")),
                pos,
            ),
        }
    }

    fn parse(t: &mut TokenStream) -> (r: Result<Self, ParsingError>) {
        let res = t.peek(0);
        if let Token::Pipe(tok) = res {
            t.skip(1);
            Ok(tok)
        } else {
            Err(ParsingError::new(res.span().start, "expected token Pipe"))
        }
    }
}

impl Parseable for Tilde {
    open spec fn parse_tree(&self) -> Tree {
        Tree::Leaf(Token::Tilde(*self))
    }

    open spec fn spec_parse(input: Tokens, pos: nat) -> Outcome<Tree> {
        match peek_at(input, pos as int) {
            Token::Tilde(tok) => Outcome::Returns(Ok(Tree::Leaf(Token::Tilde(tok))), pos + 1),
            other => Outcome::Returns(
                Err(perr(other.spec_span().start as int, "expected token Tilde")),
                pos,
            ),
        }
    }

    fn parse(t: &mut TokenStream) -> (r: Result<Self, ParsingError>) {
        let res = t.peek(0);
        if let Token::Tilde(tok) = res {
            t.skip(1);
            Ok(tok)
        } else {
            Err(ParsingError::new(res.span().start, "expected token Tilde"))
        }
    }
}

impl Parseable for Ampersand {
    open spec fn parse_tree(&self) -> Tree {
        Tree::Leaf(Token::Ampersand(*self))
    }

    open spec fn spec_parse(input: Tokens, pos: nat) -> Outcome<Tree> {
        match peek_at(input, pos as int) {
            Token::Ampersand(tok) => Outcome::Returns(Ok(Tree::Leaf(Token::Ampersand(tok))), pos + 1),
            other => Outcome::Returns(
                Err(perr(other.spec_span().start as int, "expected token Ampersand")),
                pos,
            ),
        }
    }

    fn parse(t: &mut TokenStream) -> (r: Result<Self, ParsingError>) {
        let res = t.peek(0);
        if let Token::Ampersand(tok) = res {
            t.skip(1);
            Ok(tok)
        } else {
            Err(ParsingError::new(res.span().start, "expected token Ampersand"))
        }
    }
}

impl Parseable for DoubleLess {
    open spec fn parse_tree(&self) -> Tree {
        Tree::Leaf(Token::DoubleLess(*self))
    }

    open spec fn spec_parse(input: Tokens, pos: nat) -> Outcome<Tree> {
        match peek_at(input, pos as int) {
            Token::DoubleLess(tok) => Outcome::Returns(Ok(Tree::Leaf(Token::DoubleLess(tok))), pos + 1),
            other => Outcome::Returns(
                Err(perr(other.spec_span().start as int, "expected token DoubleLess")),
                pos,
            ),
        }
    }

    fn parse(t: &mut TokenStream) -> (r: Result<Self, ParsingError>) {
        let res = t.peek(0);
        if let Token::DoubleLess(tok) = res {
            t.skip(1);
            Ok(tok)
        } else {
            Err(ParsingError::new(res.span().start, "expected token DoubleLess"))
        }
    }
}

impl Parseable for DoubleGreater {
    open spec fn parse_tree(&self) -> Tree {
        Tree::Leaf(Token::DoubleGreater(*self))
    }

    open spec fn spec_parse(input: Tokens, pos: nat) -> Outcome<Tree> {
        match peek_at(input, pos as int) {
            Token::DoubleGreater(tok) => Outcome::Returns(Ok(Tree::Leaf(Token::DoubleGreater(tok))), pos + 1),
            other => Outcome::Returns(
                Err(perr(other.spec_span().start as int, "expected token DoubleGreater")),
                pos,
            ),
        }
    }

    fn parse(t: &mut TokenStream) -> (r: Result<Self, ParsingError>) {
        let res = t.peek(0);
        if let Token::DoubleGreater(tok) = res {
            t.skip(1);
            Ok(tok)
        } else {
            Err(ParsingError::new(res.span().start, "expected token DoubleGreater"))
        }
    }
}

impl Parseable for EOF {
    open spec fn parse_tree(&self) -> Tree {
        Tree::Leaf(Token::EOF(*self))
    }

    open spec fn spec_parse(input: Tokens, pos: nat) -> Outcome<Tree> {
        match peek_at(input, pos as int) {
            // The cursor moves on past the end too, as far as an index can go.
            Token::EOF(tok) => if pos < usize::MAX {
                Outcome::Returns(Ok(Tree::Leaf(Token::EOF(tok))), pos + 1)
            } else {
                Outcome::Panics
            },
            other => Outcome::Returns(
                Err(perr(other.spec_span().start as int, "expected token EOF")),
                pos,
            ),
        }
    }

    fn parse(t: &mut TokenStream) -> (r: Result<Self, ParsingError>) {
        let res = t.peek(0);
        if let Token::EOF(tok) = res {
            t.skip(1);
            Ok(tok)
        } else {
            Err(ParsingError::new(res.span().start, "expected token EOF"))
        }
    }
}

impl Parseable for Name {
    open spec fn parse_tree(&self) -> Tree {
        Tree::Leaf(Token::Name(*self))
    }

    open spec fn spec_parse(input: Tokens, pos: nat) -> Outcome<Tree> {
        match peek_at(input, pos as int) {
            Token::Name(tok) => Outcome::Returns(Ok(Tree::Leaf(Token::Name(tok))), pos + 1),
            other => Outcome::Returns(
                Err(perr(other.spec_span().start as int, "expected token Name")),
                pos,
            ),
        }
    }

    fn parse(t: &mut TokenStream) -> (r: Result<Self, ParsingError>) {
        let res = t.peek(0);
        if let Token::Name(tok) = res {
            t.skip(1);
            Ok(tok)
        } else {
            Err(ParsingError::new(res.span().start, "expected token Name"))
        }
    }
}

impl From<Do> for Token {
    fn from(value: Do) -> (t: Token) {
        Token::Do(value)
    }
}

impl vstd::std_specs::convert::FromSpecImpl<Do> for Token {
    open spec fn obeys_from_spec() -> bool {
        true
    }

    open spec fn from_spec(value: Do) -> Token {
        Token::Do(value)
    }
}

impl TryFrom<Token> for Do {
    type Error = ();

    fn try_from(value: Token) -> (r: Result<Do, ()>) {
        match value {
            Token::Do(v) => Ok(v),
            _ => Err(()),
        }
    }
}

impl vstd::std_specs::convert::TryFromSpecImpl<Token> for Do {
    open spec fn obeys_try_from_spec() -> bool {
        true
    }

    open spec fn try_from_spec(value: Token) -> Result<Do, ()> {
        match value {
            Token::Do(v) => Ok(v),
            _ => Err(()),
        }
    }
}

impl From<End> for Token {
    fn from(value: End) -> (t: Token) {
        Token::End(value)
    }
}

impl vstd::std_specs::convert::FromSpecImpl<End> for Token {
    open spec fn obeys_from_spec() -> bool {
        true
    }

    open spec fn from_spec(value: End) -> Token {
        Token::End(value)
    }
}

impl TryFrom<Token> for End {
    type Error = ();

    fn try_from(value: Token) -> (r: Result<End, ()>) {
        match value {
            Token::End(v) => Ok(v),
            _ => Err(()),
        }
    }
}

impl vstd::std_specs::convert::TryFromSpecImpl<Token> for End {
    open spec fn obeys_try_from_spec() -> bool {
        true
    }

    open spec fn try_from_spec(value: Token) -> Result<End, ()> {
        match value {
            Token::End(v) => Ok(v),
            _ => Err(()),
        }
    }
}

impl From<If> for Token {
    fn from(value: If) -> (t: Token) {
        Token::If(value)
    }
}

impl vstd::std_specs::convert::FromSpecImpl<If> for Token {
    open spec fn obeys_from_spec() -> bool {
        true
    }

    open spec fn from_spec(value: If) -> Token {
        Token::If(value)
    }
}

impl TryFrom<Token> for If {
    type Error = ();

    fn try_from(value: Token) -> (r: Result<If, ()>) {
        match value {
            Token::If(v) => Ok(v),
            _ => Err(()),
        }
    }
}

impl vstd::std_specs::convert::TryFromSpecImpl<Token> for If {
    open spec fn obeys_try_from_spec() -> bool {
        true
    }

    open spec fn try_from_spec(value: Token) -> Result<If, ()> {
        match value {
            Token::If(v) => Ok(v),
            _ => Err(()),
        }
    }
}

impl From<Then> for Token {
    fn from(value: Then) -> (t: Token) {
        Token::Then(value)
    }
}

impl vstd::std_specs::convert::FromSpecImpl<Then> for Token {
    open spec fn obeys_from_spec() -> bool {
        true
    }

    open spec fn from_spec(value: Then) -> Token {
        Token::Then(value)
    }
}

impl TryFrom<Token> for Then {
    type Error = ();

    fn try_from(value: Token) -> (r: Result<Then, ()>) {
        match value {
            Token::Then(v) => Ok(v),
            _ => Err(()),
        }
    }
}

impl vstd::std_specs::convert::TryFromSpecImpl<Token> for Then {
    open spec fn obeys_try_from_spec() -> bool {
        true
    }

    open spec fn try_from_spec(value: Token) -> Result<Then, ()> {
        match value {
            Token::Then(v) => Ok(v),
            _ => Err(()),
        }
    }
}

impl From<ElseIf> for Token {
    fn from(value: ElseIf) -> (t: Token) {
        Token::ElseIf(value)
    }
}

impl vstd::std_specs::convert::FromSpecImpl<ElseIf> for Token {
    open spec fn obeys_from_spec() -> bool {
        true
    }

    open spec fn from_spec(value: ElseIf) -> Token {
        Token::ElseIf(value)
    }
}

impl TryFrom<Token> for ElseIf {
    type Error = ();

    fn try_from(value: Token) -> (r: Result<ElseIf, ()>) {
        match value {
            Token::ElseIf(v) => Ok(v),
            _ => Err(()),
        }
    }
}

impl vstd::std_specs::convert::TryFromSpecImpl<Token> for ElseIf {
    open spec fn obeys_try_from_spec() -> bool {
        true
    }

    open spec fn try_from_spec(value: Token) -> Result<ElseIf, ()> {
        match value {
            Token::ElseIf(v) => Ok(v),
            _ => Err(()),
        }
    }
}

impl From<Else> for Token {
    fn from(value: Else) -> (t: Token) {
        Token::Else(value)
    }
}

impl vstd::std_specs::convert::FromSpecImpl<Else> for Token {
    open spec fn obeys_from_spec() -> bool {
        true
    }

    open spec fn from_spec(value: Else) -> Token {
        Token::Else(value)
    }
}

impl TryFrom<Token> for Else {
    type Error = ();

    fn try_from(value: Token) -> (r: Result<Else, ()>) {
        match value {
            Token::Else(v) => Ok(v),
            _ => Err(()),
        }
    }
}

impl vstd::std_specs::convert::TryFromSpecImpl<Token> for Else {
    open spec fn obeys_try_from_spec() -> bool {
        true
    }

    open spec fn try_from_spec(value: Token) -> Result<Else, ()> {
        match value {
            Token::Else(v) => Ok(v),
            _ => Err(()),
        }
    }
}

impl From<For> for Token {
    fn from(value: For) -> (t: Token) {
        Token::For(value)
    }
}

impl vstd::std_specs::convert::FromSpecImpl<For> for Token {
    open spec fn obeys_from_spec() -> bool {
        true
    }

    open spec fn from_spec(value: For) -> Token {
        Token::For(value)
    }
}

impl TryFrom<Token> for For {
    type Error = ();

    fn try_from(value: Token) -> (r: Result<For, ()>) {
        match value {
            Token::For(v) => Ok(v),
            _ => Err(()),
        }
    }
}

impl vstd::std_specs::convert::TryFromSpecImpl<Token> for For {
    open spec fn obeys_try_from_spec() -> bool {
        true
    }

    open spec fn try_from_spec(value: Token) -> Result<For, ()> {
        match value {
            Token::For(v) => Ok(v),
            _ => Err(()),
        }
    }
}

impl From<In> for Token {
    fn from(value: In) -> (t: Token) {
        Token::In(value)
    }
}

impl vstd::std_specs::convert::FromSpecImpl<In> for Token {
    open spec fn obeys_from_spec() -> bool {
        true
    }

    open spec fn from_spec(value: In) -> Token {
        Token::In(value)
    }
}

impl TryFrom<Token> for In {
    type Error = ();

    fn try_from(value: Token) -> (r: Result<In, ()>) {
        match value {
            Token::In(v) => Ok(v),
            _ => Err(()),
        }
    }
}

impl vstd::std_specs::convert::TryFromSpecImpl<Token> for In {
    open spec fn obeys_try_from_spec() -> bool {
        true
    }

    open spec fn try_from_spec(value: Token) -> Result<In, ()> {
        match value {
            Token::In(v) => Ok(v),
            _ => Err(()),
        }
    }
}

impl From<While> for Token {
    fn from(value: While) -> (t: Token) {
        Token::While(value)
    }
}

impl vstd::std_specs::convert::FromSpecImpl<While> for Token {
    open spec fn obeys_from_spec() -> bool {
        true
    }

    open spec fn from_spec(value: While) -> Token {
        Token::While(value)
    }
}

impl TryFrom<Token> for While {
    type Error = ();

    fn try_from(value: Token) -> (r: Result<While, ()>) {
        match value {
            Token::While(v) => Ok(v),
            _ => Err(()),
        }
    }
}

impl vstd::std_specs::convert::TryFromSpecImpl<Token> for While {
    open spec fn obeys_try_from_spec() -> bool {
        true
    }

    open spec fn try_from_spec(value: Token) -> Result<While, ()> {
        match value {
            Token::While(v) => Ok(v),
            _ => Err(()),
        }
    }
}

impl From<Break> for Token {
    fn from(value: Break) -> (t: Token) {
        Token::Break(value)
    }
}

impl vstd::std_specs::convert::FromSpecImpl<Break> for Token {
    open spec fn obeys_from_spec() -> bool {
        true
    }

    open spec fn from_spec(value: Break) -> Token {
        Token::Break(value)
    }
}

impl TryFrom<Token> for Break {
    type Error = ();

    fn try_from(value: Token) -> (r: Result<Break, ()>) {
        match value {
            Token::Break(v) => Ok(v),
            _ => Err(()),
        }
    }
}

impl vstd::std_specs::convert::TryFromSpecImpl<Token> for Break {
    open spec fn obeys_try_from_spec() -> bool {
        true
    }

    open spec fn try_from_spec(value: Token) -> Result<Break, ()> {
        match value {
            Token::Break(v) => Ok(v),
            _ => Err(()),
        }
    }
}

impl From<Repeat> for Token {
    fn from(value: Repeat) -> (t: Token) {
        Token::Repeat(value)
    }
}

impl vstd::std_specs::convert::FromSpecImpl<Repeat> for Token {
    open spec fn obeys_from_spec() -> bool {
        true
    }

    open spec fn from_spec(value: Repeat) -> Token {
        Token::Repeat(value)
    }
}

impl TryFrom<Token> for Repeat {
    type Error = ();

    fn try_from(value: Token) -> (r: Result<Repeat, ()>) {
        match value {
            Token::Repeat(v) => Ok(v),
            _ => Err(()),
        }
    }
}

impl vstd::std_specs::convert::TryFromSpecImpl<Token> for Repeat {
    open spec fn obeys_try_from_spec() -> bool {
        true
    }

    open spec fn try_from_spec(value: Token) -> Result<Repeat, ()> {
        match value {
            Token::Repeat(v) => Ok(v),
            _ => Err(()),
        }
    }
}

impl From<Until> for Token {
    fn from(value: Until) -> (t: Token) {
        Token::Until(value)
    }
}

impl vstd::std_specs::convert::FromSpecImpl<Until> for Token {
    open spec fn obeys_from_spec() -> bool {
        true
    }

    open spec fn from_spec(value: Until) -> Token {
        Token::Until(value)
    }
}

impl TryFrom<Token> for Until {
    type Error = ();

    fn try_from(value: Token) -> (r: Result<Until, ()>) {
        match value {
            Token::Until(v) => Ok(v),
            _ => Err(()),
        }
    }
}

impl vstd::std_specs::convert::TryFromSpecImpl<Token> for Until {
    open spec fn obeys_try_from_spec() -> bool {
        true
    }

    open spec fn try_from_spec(value: Token) -> Result<Until, ()> {
        match value {
            Token::Until(v) => Ok(v),
            _ => Err(()),
        }
    }
}

impl From<Goto> for Token {
    fn from(value: Goto) -> (t: Token) {
        Token::Goto(value)
    }
}

impl vstd::std_specs::convert::FromSpecImpl<Goto> for Token {
    open spec fn obeys_from_spec() -> bool {
        true
    }

    open spec fn from_spec(value: Goto) -> Token {
        Token::Goto(value)
    }
}

impl TryFrom<Token> for Goto {
    type Error = ();

    fn try_from(value: Token) -> (r: Result<Goto, ()>) {
        match value {
            Token::Goto(v) => Ok(v),
            _ => Err(()),
        }
    }
}

impl vstd::std_specs::convert::TryFromSpecImpl<Token> for Goto {
    open spec fn obeys_try_from_spec() -> bool {
        true
    }

    open spec fn try_from_spec(value: Token) -> Result<Goto, ()> {
        match value {
            Token::Goto(v) => Ok(v),
            _ => Err(()),
        }
    }
}

impl From<Local> for Token {
    fn from(value: Local) -> (t: Token) {
        Token::Local(value)
    }
}

impl vstd::std_specs::convert::FromSpecImpl<Local> for Token {
    open spec fn obeys_from_spec() -> bool {
        true
    }

    open spec fn from_spec(value: Local) -> Token {
        Token::Local(value)
    }
}

impl TryFrom<Token> for Local {
    type Error = ();

    fn try_from(value: Token) -> (r: Result<Local, ()>) {
        match value {
            Token::Local(v) => Ok(v),
            _ => Err(()),
        }
    }
}

impl vstd::std_specs::convert::TryFromSpecImpl<Token> for Local {
    open spec fn obeys_try_from_spec() -> bool {
        true
    }

    open spec fn try_from_spec(value: Token) -> Result<Local, ()> {
        match value {
            Token::Local(v) => Ok(v),
            _ => Err(()),
        }
    }
}

impl From<Function> for Token {
    fn from(value: Function) -> (t: Token) {
        Token::Function(value)
    }
}

impl vstd::std_specs::convert::FromSpecImpl<Function> for Token {
    open spec fn obeys_from_spec() -> bool {
        true
    }

    open spec fn from_spec(value: Function) -> Token {
        Token::Function(value)
    }
}

impl TryFrom<Token> for Function {
    type Error = ();

    fn try_from(value: Token) -> (r: Result<Function, ()>) {
        match value {
            Token::Function(v) => Ok(v),
            _ => Err(()),
        }
    }
}

impl vstd::std_specs::convert::TryFromSpecImpl<Token> for Function {
    open spec fn obeys_try_from_spec() -> bool {
        true
    }

    open spec fn try_from_spec(value: Token) -> Result<Function, ()> {
        match value {
            Token::Function(v) => Ok(v),
            _ => Err(()),
        }
    }
}

impl From<Return> for Token {
    fn from(value: Return) -> (t: Token) {
        Token::Return(value)
    }
}

impl vstd::std_specs::convert::FromSpecImpl<Return> for Token {
    open spec fn obeys_from_spec() -> bool {
        true
    }

    open spec fn from_spec(value: Return) -> Token {
        Token::Return(value)
    }
}

impl TryFrom<Token> for Return {
    type Error = ();

    fn try_from(value: Token) -> (r: Result<Return, ()>) {
        match value {
            Token::Return(v) => Ok(v),
            _ => Err(()),
        }
    }
}

impl vstd::std_specs::convert::TryFromSpecImpl<Token> for Return {
    open spec fn obeys_try_from_spec() -> bool {
        true
    }

    open spec fn try_from_spec(value: Token) -> Result<Return, ()> {
        match value {
            Token::Return(v) => Ok(v),
            _ => Err(()),
        }
    }
}

impl From<Nil> for Token {
    fn from(value: Nil) -> (t: Token) {
        Token::Nil(value)
    }
}

impl vstd::std_specs::convert::FromSpecImpl<Nil> for Token {
    open spec fn obeys_from_spec() -> bool {
        true
    }

    open spec fn from_spec(value: Nil) -> Token {
        Token::Nil(value)
    }
}

impl TryFrom<Token> for Nil {
    type Error = ();

    fn try_from(value: Token) -> (r: Result<Nil, ()>) {
        match value {
            Token::Nil(v) => Ok(v),
            _ => Err(()),
        }
    }
}

impl vstd::std_specs::convert::TryFromSpecImpl<Token> for Nil {
    open spec fn obeys_try_from_spec() -> bool {
        true
    }

    open spec fn try_from_spec(value: Token) -> Result<Nil, ()> {
        match value {
            Token::Nil(v) => Ok(v),
            _ => Err(()),
        }
    }
}

impl From<True> for Token {
    fn from(value: True) -> (t: Token) {
        Token::True(value)
    }
}

impl vstd::std_specs::convert::FromSpecImpl<True> for Token {
    open spec fn obeys_from_spec() -> bool {
        true
    }

    open spec fn from_spec(value: True) -> Token {
        Token::True(value)
    }
}

impl TryFrom<Token> for True {
    type Error = ();

    fn try_from(value: Token) -> (r: Result<True, ()>) {
        match value {
            Token::True(v) => Ok(v),
            _ => Err(()),
        }
    }
}

impl vstd::std_specs::convert::TryFromSpecImpl<Token> for True {
    open spec fn obeys_try_from_spec() -> bool {
        true
    }

    open spec fn try_from_spec(value: Token) -> Result<True, ()> {
        match value {
            Token::True(v) => Ok(v),
            _ => Err(()),
        }
    }
}

impl From<False> for Token {
    fn from(value: False) -> (t: Token) {
        Token::False(value)
    }
}

impl vstd::std_specs::convert::FromSpecImpl<False> for Token {
    open spec fn obeys_from_spec() -> bool {
        true
    }

    open spec fn from_spec(value: False) -> Token {
        Token::False(value)
    }
}

impl TryFrom<Token> for False {
    type Error = ();

    fn try_from(value: Token) -> (r: Result<False, ()>) {
        match value {
            Token::False(v) => Ok(v),
            _ => Err(()),
        }
    }
}

impl vstd::std_specs::convert::TryFromSpecImpl<Token> for False {
    open spec fn obeys_try_from_spec() -> bool {
        true
    }

    open spec fn try_from_spec(value: Token) -> Result<False, ()> {
        match value {
            Token::False(v) => Ok(v),
            _ => Err(()),
        }
    }
}

impl From<And> for Token {
    fn from(value: And) -> (t: Token) {
        Token::And(value)
    }
}

impl vstd::std_specs::convert::FromSpecImpl<And> for Token {
    open spec fn obeys_from_spec() -> bool {
        true
    }

    open spec fn from_spec(value: And) -> Token {
        Token::And(value)
    }
}

impl TryFrom<Token> for And {
    type Error = ();

    fn try_from(value: Token) -> (r: Result<And, ()>) {
        match value {
            Token::And(v) => Ok(v),
            _ => Err(()),
        }
    }
}

impl vstd::std_specs::convert::TryFromSpecImpl<Token> for And {
    open spec fn obeys_try_from_spec() -> bool {
        true
    }

    open spec fn try_from_spec(value: Token) -> Result<And, ()> {
        match value {
            Token::And(v) => Ok(v),
            _ => Err(()),
        }
    }
}

impl From<Or> for Token {
    fn from(value: Or) -> (t: Token) {
        Token::Or(value)
    }
}

impl vstd::std_specs::convert::FromSpecImpl<Or> for Token {
    open spec fn obeys_from_spec() -> bool {
        true
    }

    open spec fn from_spec(value: Or) -> Token {
        Token::Or(value)
    }
}

impl TryFrom<Token> for Or {
    type Error = ();

    fn try_from(value: Token) -> (r: Result<Or, ()>) {
        match value {
            Token::Or(v) => Ok(v),
            _ => Err(()),
        }
    }
}

impl vstd::std_specs::convert::TryFromSpecImpl<Token> for Or {
    open spec fn obeys_try_from_spec() -> bool {
        true
    }

    open spec fn try_from_spec(value: Token) -> Result<Or, ()> {
        match value {
            Token::Or(v) => Ok(v),
            _ => Err(()),
        }
    }
}

impl From<Not> for Token {
    fn from(value: Not) -> (t: Token) {
        Token::Not(value)
    }
}

impl vstd::std_specs::convert::FromSpecImpl<Not> for Token {
    open spec fn obeys_from_spec() -> bool {
        true
    }

    open spec fn from_spec(value: Not) -> Token {
        Token::Not(value)
    }
}

impl TryFrom<Token> for Not {
    type Error = ();

    fn try_from(value: Token) -> (r: Result<Not, ()>) {
        match value {
            Token::Not(v) => Ok(v),
            _ => Err(()),
        }
    }
}

impl vstd::std_specs::convert::TryFromSpecImpl<Token> for Not {
    open spec fn obeys_try_from_spec() -> bool {
        true
    }

    open spec fn try_from_spec(value: Token) -> Result<Not, ()> {
        match value {
            Token::Not(v) => Ok(v),
            _ => Err(()),
        }
    }
}

impl From<LiteralNumber> for Token {
    fn from(value: LiteralNumber) -> (t: Token) {
        Token::LiteralNumber(value)
    }
}

impl vstd::std_specs::convert::FromSpecImpl<LiteralNumber> for Token {
    open spec fn obeys_from_spec() -> bool {
        true
    }

    open spec fn from_spec(value: LiteralNumber) -> Token {
        Token::LiteralNumber(value)
    }
}

impl TryFrom<Token> for LiteralNumber {
    type Error = ();

    fn try_from(value: Token) -> (r: Result<LiteralNumber, ()>) {
        match value {
            Token::LiteralNumber(v) => Ok(v),
            _ => Err(()),
        }
    }
}

impl vstd::std_specs::convert::TryFromSpecImpl<Token> for LiteralNumber {
    open spec fn obeys_try_from_spec() -> bool {
        true
    }

    open spec fn try_from_spec(value: Token) -> Result<LiteralNumber, ()> {
        match value {
            Token::LiteralNumber(v) => Ok(v),
            _ => Err(()),
        }
    }
}

impl From<LiteralString> for Token {
    fn from(value: LiteralString) -> (t: Token) {
        Token::LiteralString(value)
    }
}

impl vstd::std_specs::convert::FromSpecImpl<LiteralString> for Token {
    open spec fn obeys_from_spec() -> bool {
        true
    }

    open spec fn from_spec(value: LiteralString) -> Token {
        Token::LiteralString(value)
    }
}

impl TryFrom<Token> for LiteralString {
    type Error = ();

    fn try_from(value: Token) -> (r: Result<LiteralString, ()>) {
        match value {
            Token::LiteralString(v) => Ok(v),
            _ => Err(()),
        }
    }
}

impl vstd::std_specs::convert::TryFromSpecImpl<Token> for LiteralString {
    open spec fn obeys_try_from_spec() -> bool {
        true
    }

    open spec fn try_from_spec(value: Token) -> Result<LiteralString, ()> {
        match value {
            Token::LiteralString(v) => Ok(v),
            _ => Err(()),
        }
    }
}

impl From<Semicolon> for Token {
    fn from(value: Semicolon) -> (t: Token) {
        Token::Semicolon(value)
    }
}

impl vstd::std_specs::convert::FromSpecImpl<Semicolon> for Token {
    open spec fn obeys_from_spec() -> bool {
        true
    }

    open spec fn from_spec(value: Semicolon) -> Token {
        Token::Semicolon(value)
    }
}

impl TryFrom<Token> for Semicolon {
    type Error = ();

    fn try_from(value: Token) -> (r: Result<Semicolon, ()>) {
        match value {
            Token::Semicolon(v) => Ok(v),
            _ => Err(()),
        }
    }
}

impl vstd::std_specs::convert::TryFromSpecImpl<Token> for Semicolon {
    open spec fn obeys_try_from_spec() -> bool {
        true
    }

    open spec fn try_from_spec(value: Token) -> Result<Semicolon, ()> {
        match value {
            Token::Semicolon(v) => Ok(v),
            _ => Err(()),
        }
    }
}

impl From<Equal> for Token {
    fn from(value: Equal) -> (t: Token) {
        Token::Equal(value)
    }
}

impl vstd::std_specs::convert::FromSpecImpl<Equal> for Token {
    open spec fn obeys_from_spec() -> bool {
        true
    }

    open spec fn from_spec(value: Equal) -> Token {
        Token::Equal(value)
    }
}

impl TryFrom<Token> for Equal {
    type Error = ();

    fn try_from(value: Token) -> (r: Result<Equal, ()>) {
        match value {
            Token::Equal(v) => Ok(v),
            _ => Err(()),
        }
    }
}

impl vstd::std_specs::convert::TryFromSpecImpl<Token> for Equal {
    open spec fn obeys_try_from_spec() -> bool {
        true
    }

    open spec fn try_from_spec(value: Token) -> Result<Equal, ()> {
        match value {
            Token::Equal(v) => Ok(v),
            _ => Err(()),
        }
    }
}

impl From<Plus> for Token {
    fn from(value: Plus) -> (t: Token) {
        Token::Plus(value)
    }
}

impl vstd::std_specs::convert::FromSpecImpl<Plus> for Token {
    open spec fn obeys_from_spec() -> bool {
        true
    }

    open spec fn from_spec(value: Plus) -> Token {
        Token::Plus(value)
    }
}

impl TryFrom<Token> for Plus {
    type Error = ();

    fn try_from(value: Token) -> (r: Result<Plus, ()>) {
        match value {
            Token::Plus(v) => Ok(v),
            _ => Err(()),
        }
    }
}

impl vstd::std_specs::convert::TryFromSpecImpl<Token> for Plus {
    open spec fn obeys_try_from_spec() -> bool {
        true
    }

    open spec fn try_from_spec(value: Token) -> Result<Plus, ()> {
        match value {
            Token::Plus(v) => Ok(v),
            _ => Err(()),
        }
    }
}

impl From<Minus> for Token {
    fn from(value: Minus) -> (t: Token) {
        Token::Minus(value)
    }
}

impl vstd::std_specs::convert::FromSpecImpl<Minus> for Token {
    open spec fn obeys_from_spec() -> bool {
        true
    }

    open spec fn from_spec(value: Minus) -> Token {
        Token::Minus(value)
    }
}

impl TryFrom<Token> for Minus {
    type Error = ();

    fn try_from(value: Token) -> (r: Result<Minus, ()>) {
        match value {
            Token::Minus(v) => Ok(v),
            _ => Err(()),
        }
    }
}

impl vstd::std_specs::convert::TryFromSpecImpl<Token> for Minus {
    open spec fn obeys_try_from_spec() -> bool {
        true
    }

    open spec fn try_from_spec(value: Token) -> Result<Minus, ()> {
        match value {
            Token::Minus(v) => Ok(v),
            _ => Err(()),
        }
    }
}

impl From<Asterisk> for Token {
    fn from(value: Asterisk) -> (t: Token) {
        Token::Asterisk(value)
    }
}

impl vstd::std_specs::convert::FromSpecImpl<Asterisk> for Token {
    open spec fn obeys_from_spec() -> bool {
        true
    }

    open spec fn from_spec(value: Asterisk) -> Token {
        Token::Asterisk(value)
    }
}

impl TryFrom<Token> for Asterisk {
    type Error = ();

    fn try_from(value: Token) -> (r: Result<Asterisk, ()>) {
        match value {
            Token::Asterisk(v) => Ok(v),
            _ => Err(()),
        }
    }
}

impl vstd::std_specs::convert::TryFromSpecImpl<Token> for Asterisk {
    open spec fn obeys_try_from_spec() -> bool {
        true
    }

    open spec fn try_from_spec(value: Token) -> Result<Asterisk, ()> {
        match value {
            Token::Asterisk(v) => Ok(v),
            _ => Err(()),
        }
    }
}

impl From<Slash> for Token {
    fn from(value: Slash) -> (t: Token) {
        Token::Slash(value)
    }
}

impl vstd::std_specs::convert::FromSpecImpl<Slash> for Token {
    open spec fn obeys_from_spec() -> bool {
        true
    }

    open spec fn from_spec(value: Slash) -> Token {
        Token::Slash(value)
    }
}

impl TryFrom<Token> for Slash {
    type Error = ();

    fn try_from(value: Token) -> (r: Result<Slash, ()>) {
        match value {
            Token::Slash(v) => Ok(v),
            _ => Err(()),
        }
    }
}

impl vstd::std_specs::convert::TryFromSpecImpl<Token> for Slash {
    open spec fn obeys_try_from_spec() -> bool {
        true
    }

    open spec fn try_from_spec(value: Token) -> Result<Slash, ()> {
        match value {
            Token::Slash(v) => Ok(v),
            _ => Err(()),
        }
    }
}

impl From<Carat> for Token {
    fn from(value: Carat) -> (t: Token) {
        Token::Carat(value)
    }
}

impl vstd::std_specs::convert::FromSpecImpl<Carat> for Token {
    open spec fn obeys_from_spec() -> bool {
        true
    }

    open spec fn from_spec(value: Carat) -> Token {
        Token::Carat(value)
    }
}

impl TryFrom<Token> for Carat {
    type Error = ();

    fn try_from(value: Token) -> (r: Result<Carat, ()>) {
        match value {
            Token::Carat(v) => Ok(v),
            _ => Err(()),
        }
    }
}

impl vstd::std_specs::convert::TryFromSpecImpl<Token> for Carat {
    open spec fn obeys_try_from_spec() -> bool {
        true
    }

    open spec fn try_from_spec(value: Token) -> Result<Carat, ()> {
        match value {
            Token::Carat(v) => Ok(v),
            _ => Err(()),
        }
    }
}

impl From<Percent> for Token {
    fn from(value: Percent) -> (t: Token) {
        Token::Percent(value)
    }
}

impl vstd::std_specs::convert::FromSpecImpl<Percent> for Token {
    open spec fn obeys_from_spec() -> bool {
        true
    }

    open spec fn from_spec(value: Percent) -> Token {
        Token::Percent(value)
    }
}

impl TryFrom<Token> for Percent {
    type Error = ();

    fn try_from(value: Token) -> (r: Result<Percent, ()>) {
        match value {
            Token::Percent(v) => Ok(v),
            _ => Err(()),
        }
    }
}

impl vstd::std_specs::convert::TryFromSpecImpl<Token> for Percent {
    open spec fn obeys_try_from_spec() -> bool {
        true
    }

    open spec fn try_from_spec(value: Token) -> Result<Percent, ()> {
        match value {
            Token::Percent(v) => Ok(v),
            _ => Err(()),
        }
    }
}

impl From<Dot> for Token {
    fn from(value: Dot) -> (t: Token) {
        Token::Dot(value)
    }
}

impl vstd::std_specs::convert::FromSpecImpl<Dot> for Token {
    open spec fn obeys_from_spec() -> bool {
        true
    }

    open spec fn from_spec(value: Dot) -> Token {
        Token::Dot(value)
    }
}

impl TryFrom<Token> for Dot {
    type Error = ();

    fn try_from(value: Token) -> (r: Result<Dot, ()>) {
        match value {
            Token::Dot(v) => Ok(v),
            _ => Err(()),
        }
    }
}

impl vstd::std_specs::convert::TryFromSpecImpl<Token> for Dot {
    open spec fn obeys_try_from_spec() -> bool {
        true
    }

    open spec fn try_from_spec(value: Token) -> Result<Dot, ()> {
        match value {
            Token::Dot(v) => Ok(v),
            _ => Err(()),
        }
    }
}

impl From<DoubleDot> for Token {
    fn from(value: DoubleDot) -> (t: Token) {
        Token::DoubleDot(value)
    }
}

impl vstd::std_specs::convert::FromSpecImpl<DoubleDot> for Token {
    open spec fn obeys_from_spec() -> bool {
        true
    }

    open spec fn from_spec(value: DoubleDot) -> Token {
        Token::DoubleDot(value)
    }
}

impl TryFrom<Token> for DoubleDot {
    type Error = ();

    fn try_from(value: Token) -> (r: Result<DoubleDot, ()>) {
        match value {
            Token::DoubleDot(v) => Ok(v),
            _ => Err(()),
        }
    }
}

impl vstd::std_specs::convert::TryFromSpecImpl<Token> for DoubleDot {
    open spec fn obeys_try_from_spec() -> bool {
        true
    }

    open spec fn try_from_spec(value: Token) -> Result<DoubleDot, ()> {
        match value {
            Token::DoubleDot(v) => Ok(v),
            _ => Err(()),
        }
    }
}

impl From<Less> for Token {
    fn from(value: Less) -> (t: Token) {
        Token::Less(value)
    }
}

impl vstd::std_specs::convert::FromSpecImpl<Less> for Token {
    open spec fn obeys_from_spec() -> bool {
        true
    }

    open spec fn from_spec(value: Less) -> Token {
        Token::Less(value)
    }
}

impl TryFrom<Token> for Less {
    type Error = ();

    fn try_from(value: Token) -> (r: Result<Less, ()>) {
        match value {
            Token::Less(v) => Ok(v),
            _ => Err(()),
        }
    }
}

impl vstd::std_specs::convert::TryFromSpecImpl<Token> for Less {
    open spec fn obeys_try_from_spec() -> bool {
        true
    }

    open spec fn try_from_spec(value: Token) -> Result<Less, ()> {
        match value {
            Token::Less(v) => Ok(v),
            _ => Err(()),
        }
    }
}

impl From<LessEqual> for Token {
    fn from(value: LessEqual) -> (t: Token) {
        Token::LessEqual(value)
    }
}

impl vstd::std_specs::convert::FromSpecImpl<LessEqual> for Token {
    open spec fn obeys_from_spec() -> bool {
        true
    }

    open spec fn from_spec(value: LessEqual) -> Token {
        Token::LessEqual(value)
    }
}

impl TryFrom<Token> for LessEqual {
    type Error = ();

    fn try_from(value: Token) -> (r: Result<LessEqual, ()>) {
        match value {
            Token::LessEqual(v) => Ok(v),
            _ => Err(()),
        }
    }
}

impl vstd::std_specs::convert::TryFromSpecImpl<Token> for LessEqual {
    open spec fn obeys_try_from_spec() -> bool {
        true
    }

    open spec fn try_from_spec(value: Token) -> Result<LessEqual, ()> {
        match value {
            Token::LessEqual(v) => Ok(v),
            _ => Err(()),
        }
    }
}

impl From<Greater> for Token {
    fn from(value: Greater) -> (t: Token) {
        Token::Greater(value)
    }
}

impl vstd::std_specs::convert::FromSpecImpl<Greater> for Token {
    open spec fn obeys_from_spec() -> bool {
        true
    }

    open spec fn from_spec(value: Greater) -> Token {
        Token::Greater(value)
    }
}

impl TryFrom<Token> for Greater {
    type Error = ();

    fn try_from(value: Token) -> (r: Result<Greater, ()>) {
        match value {
            Token::Greater(v) => Ok(v),
            _ => Err(()),
        }
    }
}

impl vstd::std_specs::convert::TryFromSpecImpl<Token> for Greater {
    open spec fn obeys_try_from_spec() -> bool {
        true
    }

    open spec fn try_from_spec(value: Token) -> Result<Greater, ()> {
        match value {
            Token::Greater(v) => Ok(v),
            _ => Err(()),
        }
    }
}

impl From<GreaterEqual> for Token {
    fn from(value: GreaterEqual) -> (t: Token) {
        Token::GreaterEqual(value)
    }
}

impl vstd::std_specs::convert::FromSpecImpl<GreaterEqual> for Token {
    open spec fn obeys_from_spec() -> bool {
        true
    }

    open spec fn from_spec(value: GreaterEqual) -> Token {
        Token::GreaterEqual(value)
    }
}

impl TryFrom<Token> for GreaterEqual {
    type Error = ();

    fn try_from(value: Token) -> (r: Result<GreaterEqual, ()>) {
        match value {
            Token::GreaterEqual(v) => Ok(v),
            _ => Err(()),
        }
    }
}

impl vstd::std_specs::convert::TryFromSpecImpl<Token> for GreaterEqual {
    open spec fn obeys_try_from_spec() -> bool {
        true
    }

    open spec fn try_from_spec(value: Token) -> Result<GreaterEqual, ()> {
        match value {
            Token::GreaterEqual(v) => Ok(v),
            _ => Err(()),
        }
    }
}

impl From<DoubleEqual> for Token {
    fn from(value: DoubleEqual) -> (t: Token) {
        Token::DoubleEqual(value)
    }
}

impl vstd::std_specs::convert::FromSpecImpl<DoubleEqual> for Token {
    open spec fn obeys_from_spec() -> bool {
        true
    }

    open spec fn from_spec(value: DoubleEqual) -> Token {
        Token::DoubleEqual(value)
    }
}

impl TryFrom<Token> for DoubleEqual {
    type Error = ();

    fn try_from(value: Token) -> (r: Result<DoubleEqual, ()>) {
        match value {
            Token::DoubleEqual(v) => Ok(v),
            _ => Err(()),
        }
    }
}

impl vstd::std_specs::convert::TryFromSpecImpl<Token> for DoubleEqual {
    open spec fn obeys_try_from_spec() -> bool {
        true
    }

    open spec fn try_from_spec(value: Token) -> Result<DoubleEqual, ()> {
        match value {
            Token::DoubleEqual(v) => Ok(v),
            _ => Err(()),
        }
    }
}

impl From<TildeEqual> for Token {
    fn from(value: TildeEqual) -> (t: Token) {
        Token::TildeEqual(value)
    }
}

impl vstd::std_specs::convert::FromSpecImpl<TildeEqual> for Token {
    open spec fn obeys_from_spec() -> bool {
        true
    }

    open spec fn from_spec(value: TildeEqual) -> Token {
        Token::TildeEqual(value)
    }
}

impl TryFrom<Token> for TildeEqual {
    type Error = ();

    fn try_from(value: Token) -> (r: Result<TildeEqual, ()>) {
        match value {
            Token::TildeEqual(v) => Ok(v),
            _ => Err(()),
        }
    }
}

impl vstd::std_specs::convert::TryFromSpecImpl<Token> for TildeEqual {
    open spec fn obeys_try_from_spec() -> bool {
        true
    }

    open spec fn try_from_spec(value: Token) -> Result<TildeEqual, ()> {
        match value {
            Token::TildeEqual(v) => Ok(v),
            _ => Err(()),
        }
    }
}

impl From<Hashtag> for Token {
    fn from(value: Hashtag) -> (t: Token) {
        Token::Hashtag(value)
    }
}

impl vstd::std_specs::convert::FromSpecImpl<Hashtag> for Token {
    open spec fn obeys_from_spec() -> bool {
        true
    }

    open spec fn from_spec(value: Hashtag) -> Token {
        Token::Hashtag(value)
    }
}

impl TryFrom<Token> for Hashtag {
    type Error = ();

    fn try_from(value: Token) -> (r: Result<Hashtag, ()>) {
        match value {
            Token::Hashtag(v) => Ok(v),
            _ => Err(()),
        }
    }
}

impl vstd::std_specs::convert::TryFromSpecImpl<Token> for Hashtag {
    open spec fn obeys_try_from_spec() -> bool {
        true
    }

    open spec fn try_from_spec(value: Token) -> Result<Hashtag, ()> {
        match value {
            Token::Hashtag(v) => Ok(v),
            _ => Err(()),
        }
    }
}

impl From<Ellipses> for Token {
    fn from(value: Ellipses) -> (t: Token) {
        Token::Ellipses(value)
    }
}

impl vstd::std_specs::convert::FromSpecImpl<Ellipses> for Token {
    open spec fn obeys_from_spec() -> bool {
        true
    }

    open spec fn from_spec(value: Ellipses) -> Token {
        Token::Ellipses(value)
    }
}

impl TryFrom<Token> for Ellipses {
    type Error = ();

    fn try_from(value: Token) -> (r: Result<Ellipses, ()>) {
        match value {
            Token::Ellipses(v) => Ok(v),
            _ => Err(()),
        }
    }
}

impl vstd::std_specs::convert::TryFromSpecImpl<Token> for Ellipses {
    open spec fn obeys_try_from_spec() -> bool {
        true
    }

    open spec fn try_from_spec(value: Token) -> Result<Ellipses, ()> {
        match value {
            Token::Ellipses(v) => Ok(v),
            _ => Err(()),
        }
    }
}

impl From<Comma> for Token {
    fn from(value: Comma) -> (t: Token) {
        Token::Comma(value)
    }
}

impl vstd::std_specs::convert::FromSpecImpl<Comma> for Token {
    open spec fn obeys_from_spec() -> bool {
        true
    }

    open spec fn from_spec(value: Comma) -> Token {
        Token::Comma(value)
    }
}

impl TryFrom<Token> for Comma {
    type Error = ();

    fn try_from(value: Token) -> (r: Result<Comma, ()>) {
        match value {
            Token::Comma(v) => Ok(v),
            _ => Err(()),
        }
    }
}

impl vstd::std_specs::convert::TryFromSpecImpl<Token> for Comma {
    open spec fn obeys_try_from_spec() -> bool {
        true
    }

    open spec fn try_from_spec(value: Token) -> Result<Comma, ()> {
        match value {
            Token::Comma(v) => Ok(v),
            _ => Err(()),
        }
    }
}

impl From<DoubleColon> for Token {
    fn from(value: DoubleColon) -> (t: Token) {
        Token::DoubleColon(value)
    }
}

impl vstd::std_specs::convert::FromSpecImpl<DoubleColon> for Token {
    open spec fn obeys_from_spec() -> bool {
        true
    }

    open spec fn from_spec(value: DoubleColon) -> Token {
        Token::DoubleColon(value)
    }
}

impl TryFrom<Token> for DoubleColon {
    type Error = ();

    fn try_from(value: Token) -> (r: Result<DoubleColon, ()>) {
        match value {
            Token::DoubleColon(v) => Ok(v),
            _ => Err(()),
        }
    }
}

impl vstd::std_specs::convert::TryFromSpecImpl<Token> for DoubleColon {
    open spec fn obeys_try_from_spec() -> bool {
        true
    }

    open spec fn try_from_spec(value: Token) -> Result<DoubleColon, ()> {
        match value {
            Token::DoubleColon(v) => Ok(v),
            _ => Err(()),
        }
    }
}

impl From<Colon> for Token {
    fn from(value: Colon) -> (t: Token) {
        Token::Colon(value)
    }
}

impl vstd::std_specs::convert::FromSpecImpl<Colon> for Token {
    open spec fn obeys_from_spec() -> bool {
        true
    }

    open spec fn from_spec(value: Colon) -> Token {
        Token::Colon(value)
    }
}

impl TryFrom<Token> for Colon {
    type Error = ();

    fn try_from(value: Token) -> (r: Result<Colon, ()>) {
        match value {
            Token::Colon(v) => Ok(v),
            _ => Err(()),
        }
    }
}

impl vstd::std_specs::convert::TryFromSpecImpl<Token> for Colon {
    open spec fn obeys_try_from_spec() -> bool {
        true
    }

    open spec fn try_from_spec(value: Token) -> Result<Colon, ()> {
        match value {
            Token::Colon(v) => Ok(v),
            _ => Err(()),
        }
    }
}

impl From<OpenParen> for Token {
    fn from(value: OpenParen) -> (t: Token) {
        Token::OpenParen(value)
    }
}

impl vstd::std_specs::convert::FromSpecImpl<OpenParen> for Token {
    open spec fn obeys_from_spec() -> bool {
        true
    }

    open spec fn from_spec(value: OpenParen) -> Token {
        Token::OpenParen(value)
    }
}

impl TryFrom<Token> for OpenParen {
    type Error = ();

    fn try_from(value: Token) -> (r: Result<OpenParen, ()>) {
        match value {
            Token::OpenParen(v) => Ok(v),
            _ => Err(()),
        }
    }
}

impl vstd::std_specs::convert::TryFromSpecImpl<Token> for OpenParen {
    open spec fn obeys_try_from_spec() -> bool {
        true
    }

    open spec fn try_from_spec(value: Token) -> Result<OpenParen, ()> {
        match value {
            Token::OpenParen(v) => Ok(v),
            _ => Err(()),
        }
    }
}

impl From<OpenBracket> for Token {
    fn from(value: OpenBracket) -> (t: Token) {
        Token::OpenBracket(value)
    }
}

impl vstd::std_specs::convert::FromSpecImpl<OpenBracket> for Token {
    open spec fn obeys_from_spec() -> bool {
        true
    }

    open spec fn from_spec(value: OpenBracket) -> Token {
        Token::OpenBracket(value)
    }
}

impl TryFrom<Token> for OpenBracket {
    type Error = ();

    fn try_from(value: Token) -> (r: Result<OpenBracket, ()>) {
        match value {
            Token::OpenBracket(v) => Ok(v),
            _ => Err(()),
        }
    }
}

impl vstd::std_specs::convert::TryFromSpecImpl<Token> for OpenBracket {
    open spec fn obeys_try_from_spec() -> bool {
        true
    }

    open spec fn try_from_spec(value: Token) -> Result<OpenBracket, ()> {
        match value {
            Token::OpenBracket(v) => Ok(v),
            _ => Err(()),
        }
    }
}

impl From<OpenBrace> for Token {
    fn from(value: OpenBrace) -> (t: Token) {
        Token::OpenBrace(value)
    }
}

impl vstd::std_specs::convert::FromSpecImpl<OpenBrace> for Token {
    open spec fn obeys_from_spec() -> bool {
        true
    }

    open spec fn from_spec(value: OpenBrace) -> Token {
        Token::OpenBrace(value)
    }
}

impl TryFrom<Token> for OpenBrace {
    type Error = ();

    fn try_from(value: Token) -> (r: Result<OpenBrace, ()>) {
        match value {
            Token::OpenBrace(v) => Ok(v),
            _ => Err(()),
        }
    }
}

impl vstd::std_specs::convert::TryFromSpecImpl<Token> for OpenBrace {
    open spec fn obeys_try_from_spec() -> bool {
        true
    }

    open spec fn try_from_spec(value: Token) -> Result<OpenBrace, ()> {
        match value {
            Token::OpenBrace(v) => Ok(v),
            _ => Err(()),
        }
    }
}

impl From<CloseParen> for Token {
    fn from(value: CloseParen) -> (t: Token) {
        Token::CloseParen(value)
    }
}

impl vstd::std_specs::convert::FromSpecImpl<CloseParen> for Token {
    open spec fn obeys_from_spec() -> bool {
        true
    }

    open spec fn from_spec(value: CloseParen) -> Token {
        Token::CloseParen(value)
    }
}

impl TryFrom<Token> for CloseParen {
    type Error = ();

    fn try_from(value: Token) -> (r: Result<CloseParen, ()>) {
        match value {
            Token::CloseParen(v) => Ok(v),
            _ => Err(()),
        }
    }
}

impl vstd::std_specs::convert::TryFromSpecImpl<Token> for CloseParen {
    open spec fn obeys_try_from_spec() -> bool {
        true
    }

    open spec fn try_from_spec(value: Token) -> Result<CloseParen, ()> {
        match value {
            Token::CloseParen(v) => Ok(v),
            _ => Err(()),
        }
    }
}

impl From<CloseBracket> for Token {
    fn from(value: CloseBracket) -> (t: Token) {
        Token::CloseBracket(value)
    }
}

impl vstd::std_specs::convert::FromSpecImpl<CloseBracket> for Token {
    open spec fn obeys_from_spec() -> bool {
        true
    }

    open spec fn from_spec(value: CloseBracket) -> Token {
        Token::CloseBracket(value)
    }
}

impl TryFrom<Token> for CloseBracket {
    type Error = ();

    fn try_from(value: Token) -> (r: Result<CloseBracket, ()>) {
        match value {
            Token::CloseBracket(v) => Ok(v),
            _ => Err(()),
        }
    }
}

impl vstd::std_specs::convert::TryFromSpecImpl<Token> for CloseBracket {
    open spec fn obeys_try_from_spec() -> bool {
        true
    }

    open spec fn try_from_spec(value: Token) -> Result<CloseBracket, ()> {
        match value {
            Token::CloseBracket(v) => Ok(v),
            _ => Err(()),
        }
    }
}

impl From<CloseBrace> for Token {
    fn from(value: CloseBrace) -> (t: Token) {
        Token::CloseBrace(value)
    }
}

impl vstd::std_specs::convert::FromSpecImpl<CloseBrace> for Token {
    open spec fn obeys_from_spec() -> bool {
        true
    }

    open spec fn from_spec(value: CloseBrace) -> Token {
        Token::CloseBrace(value)
    }
}

impl TryFrom<Token> for CloseBrace {
    type Error = ();

    fn try_from(value: Token) -> (r: Result<CloseBrace, ()>) {
        match value {
            Token::CloseBrace(v) => Ok(v),
            _ => Err(()),
        }
    }
}

impl vstd::std_specs::convert::TryFromSpecImpl<Token> for CloseBrace {
    open spec fn obeys_try_from_spec() -> bool {
        true
    }

    open spec fn try_from_spec(value: Token) -> Result<CloseBrace, ()> {
        match value {
            Token::CloseBrace(v) => Ok(v),
            _ => Err(()),
        }
    }
}

impl From<DoubleSlash> for Token {
    fn from(value: DoubleSlash) -> (t: Token) {
        Token::DoubleSlash(value)
    }
}

impl vstd::std_specs::convert::FromSpecImpl<DoubleSlash> for Token {
    open spec fn obeys_from_spec() -> bool {
        true
    }

    open spec fn from_spec(value: DoubleSlash) -> Token {
        Token::DoubleSlash(value)
    }
}

impl TryFrom<Token> for DoubleSlash {
    type Error = ();

    fn try_from(value: Token) -> (r: Result<DoubleSlash, ()>) {
        match value {
            Token::DoubleSlash(v) => Ok(v),
            _ => Err(()),
        }
    }
}

impl vstd::std_specs::convert::TryFromSpecImpl<Token> for DoubleSlash {
    open spec fn obeys_try_from_spec() -> bool {
        true
    }

    open spec fn try_from_spec(value: Token) -> Result<DoubleSlash, ()> {
        match value {
            Token::DoubleSlash(v) => Ok(v),
            _ => Err(()),
        }
    }
}

impl From<Pipe> for Token {
    fn from(value: Pipe) -> (t: Token) {
        Token::Pipe(value)
    }
}

impl vstd::std_specs::convert::FromSpecImpl<Pipe> for Token {
    open spec fn obeys_from_spec() -> bool {
        true
    }

    open spec fn from_spec(value: Pipe) -> Token {
        Token::Pipe(value)
    }
}

impl TryFrom<Token> for Pipe {
    type Error = ();

    fn try_from(value: Token) -> (r: Result<Pipe, ()>) {
        match value {
            Token::Pipe(v) => Ok(v),
            _ => Err(()),
        }
    }
}

impl vstd::std_specs::convert::TryFromSpecImpl<Token> for Pipe {
    open spec fn obeys_try_from_spec() -> bool {
        true
    }

    open spec fn try_from_spec(value: Token) -> Result<Pipe, ()> {
        match value {
            Token::Pipe(v) => Ok(v),
            _ => Err(()),
        }
    }
}

impl From<Tilde> for Token {
    fn from(value: Tilde) -> (t: Token) {
        Token::Tilde(value)
    }
}

impl vstd::std_specs::convert::FromSpecImpl<Tilde> for Token {
    open spec fn obeys_from_spec() -> bool {
        true
    }

    open spec fn from_spec(value: Tilde) -> Token {
        Token::Tilde(value)
    }
}

impl TryFrom<Token> for Tilde {
    type Error = ();

    fn try_from(value: Token) -> (r: Result<Tilde, ()>) {
        match value {
            Token::Tilde(v) => Ok(v),
            _ => Err(()),
        }
    }
}

impl vstd::std_specs::convert::TryFromSpecImpl<Token> for Tilde {
    open spec fn obeys_try_from_spec() -> bool {
        true
    }

    open spec fn try_from_spec(value: Token) -> Result<Tilde, ()> {
        match value {
            Token::Tilde(v) => Ok(v),
            _ => Err(()),
        }
    }
}

impl From<Ampersand> for Token {
    fn from(value: Ampersand) -> (t: Token) {
        Token::Ampersand(value)
    }
}

impl vstd::std_specs::convert::FromSpecImpl<Ampersand> for Token {
    open spec fn obeys_from_spec() -> bool {
        true
    }

    open spec fn from_spec(value: Ampersand) -> Token {
        Token::Ampersand(value)
    }
}

impl TryFrom<Token> for Ampersand {
    type Error = ();

    fn try_from(value: Token) -> (r: Result<Ampersand, ()>) {
        match value {
            Token::Ampersand(v) => Ok(v),
            _ => Err(()),
        }
    }
}

impl vstd::std_specs::convert::TryFromSpecImpl<Token> for Ampersand {
    open spec fn obeys_try_from_spec() -> bool {
        true
    }

    open spec fn try_from_spec(value: Token) -> Result<Ampersand, ()> {
        match value {
            Token::Ampersand(v) => Ok(v),
            _ => Err(()),
        }
    }
}

impl From<DoubleLess> for Token {
    fn from(value: DoubleLess) -> (t: Token) {
        Token::DoubleLess(value)
    }
}

impl vstd::std_specs::convert::FromSpecImpl<DoubleLess> for Token {
    open spec fn obeys_from_spec() -> bool {
        true
    }

    open spec fn from_spec(value: DoubleLess) -> Token {
        Token::DoubleLess(value)
    }
}

impl TryFrom<Token> for DoubleLess {
    type Error = ();

    fn try_from(value: Token) -> (r: Result<DoubleLess, ()>) {
        match value {
            Token::DoubleLess(v) => Ok(v),
            _ => Err(()),
        }
    }
}

impl vstd::std_specs::convert::TryFromSpecImpl<Token> for DoubleLess {
    open spec fn obeys_try_from_spec() -> bool {
        true
    }

    open spec fn try_from_spec(value: Token) -> Result<DoubleLess, ()> {
        match value {
            Token::DoubleLess(v) => Ok(v),
            _ => Err(()),
        }
    }
}

impl From<DoubleGreater> for Token {
    fn from(value: DoubleGreater) -> (t: Token) {
        Token::DoubleGreater(value)
    }
}

impl vstd::std_specs::convert::FromSpecImpl<DoubleGreater> for Token {
    open spec fn obeys_from_spec() -> bool {
        true
    }

    open spec fn from_spec(value: DoubleGreater) -> Token {
        Token::DoubleGreater(value)
    }
}

impl TryFrom<Token> for DoubleGreater {
    type Error = ();

    fn try_from(value: Token) -> (r: Result<DoubleGreater, ()>) {
        match value {
            Token::DoubleGreater(v) => Ok(v),
            _ => Err(()),
        }
    }
}

impl vstd::std_specs::convert::TryFromSpecImpl<Token> for DoubleGreater {
    open spec fn obeys_try_from_spec() -> bool {
        true
    }

    open spec fn try_from_spec(value: Token) -> Result<DoubleGreater, ()> {
        match value {
            Token::DoubleGreater(v) => Ok(v),
            _ => Err(()),
        }
    }
}

impl From<EOF> for Token {
    fn from(value: EOF) -> (t: Token) {
        Token::EOF(value)
    }
}

impl vstd::std_specs::convert::FromSpecImpl<EOF> for Token {
    open spec fn obeys_from_spec() -> bool {
        true
    }

    open spec fn from_spec(value: EOF) -> Token {
        Token::EOF(value)
    }
}

impl TryFrom<Token> for EOF {
    type Error = ();

    fn try_from(value: Token) -> (r: Result<EOF, ()>) {
        match value {
            Token::EOF(v) => Ok(v),
            _ => Err(()),
        }
    }
}

impl vstd::std_specs::convert::TryFromSpecImpl<Token> for EOF {
    open spec fn obeys_try_from_spec() -> bool {
        true
    }

    open spec fn try_from_spec(value: Token) -> Result<EOF, ()> {
        match value {
            Token::EOF(v) => Ok(v),
            _ => Err(()),
        }
    }
}

impl From<Name> for Token {
    fn from(value: Name) -> (t: Token) {
        Token::Name(value)
    }
}

impl vstd::std_specs::convert::FromSpecImpl<Name> for Token {
    open spec fn obeys_from_spec() -> bool {
        true
    }

    open spec fn from_spec(value: Name) -> Token {
        Token::Name(value)
    }
}

impl TryFrom<Token> for Name {
    type Error = ();

    fn try_from(value: Token) -> (r: Result<Name, ()>) {
        match value {
            Token::Name(v) => Ok(v),
            _ => Err(()),
        }
    }
}

impl vstd::std_specs::convert::TryFromSpecImpl<Token> for Name {
    open spec fn obeys_try_from_spec() -> bool {
        true
    }

    open spec fn try_from_spec(value: Token) -> Result<Name, ()> {
        match value {
            Token::Name(v) => Ok(v),
            _ => Err(()),
        }
    }
}

} // verus!

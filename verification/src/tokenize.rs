//! Tokenization.
//!
//! The tokenizer reads the source text as its UTF-8 bytes. Every position and
//! span is a byte offset.

use std::sync::Arc;
use vstd::prelude::*;
use vstd::string::StringSliceAdditionalSpecFns;

use crate::laws::{lemma_string_ends, tokenizing_never_panics};
use crate::parse::{perr, Outcome, ParsingError};
use crate::token;
use crate::token::{LiteralNumber, LiteralString, QuoteType, Token};
use crate::Span;

verus! {

/// Classes of bytes that the tokenizer scans over.
#[derive(Debug, Copy, Clone, PartialEq, Eq)]
pub enum ByteClass {
    /// ASCII whitespace: space, tab, line feed, form feed, carriage return.
    Space,
    /// `0`..=`9`.
    Digit,
    /// `0`..=`9`, `a`..=`f`, `A`..=`F`.
    HexDigit,
    /// ASCII letters, digits and `_`.
    Word,
    /// `=`.
    EqualSign,
    /// `+` and `-`.
    Sign,
    /// Anything but a line feed.
    NotNewline,
}

pub open spec fn is_digit(c: u8) -> bool {
    '0' as u8 <= c <= '9' as u8
}

pub open spec fn is_alpha(c: u8) -> bool {
    ('a' as u8 <= c <= 'z' as u8) || ('A' as u8 <= c <= 'Z' as u8)
}

pub open spec fn is_hex_digit(c: u8) -> bool {
    is_digit(c) || ('a' as u8 <= c <= 'f' as u8) || ('A' as u8 <= c <= 'F' as u8)
}

pub open spec fn in_class(c: u8, cls: ByteClass) -> bool {
    match cls {
        ByteClass::Space => c == ' ' as u8 || c == '\t' as u8 || c == '\n' as u8 || c == 12u8
            || c == '\r' as u8,
        ByteClass::Digit => is_digit(c),
        ByteClass::HexDigit => is_hex_digit(c),
        ByteClass::Word => is_alpha(c) || is_digit(c) || c == '_' as u8,
        ByteClass::EqualSign => c == '=' as u8,
        ByteClass::Sign => c == '+' as u8 || c == '-' as u8,
        ByteClass::NotNewline => c != '\n' as u8,
    }
}

/// The first position at or after `i` whose byte is not in `cls` (or the end).
pub open spec fn scan_end(b: Seq<u8>, i: nat, cls: ByteClass) -> nat
    decreases b.len() - i,
{
    if i < b.len() && in_class(b[i as int], cls) {
        scan_end(b, i + 1, cls)
    } else {
        i
    }
}

/// Byte `i` exists and is `c`.
pub open spec fn at(b: Seq<u8>, i: int, c: u8) -> bool {
    0 <= i < b.len() && b[i] == c
}

/// The bytes from `i` on begin with `p`.
pub open spec fn starts(b: Seq<u8>, i: int, p: Seq<u8>) -> bool {
    0 <= i && i + p.len() <= b.len() && b.subrange(i, i + p.len()) =~= p
}

/// The span from `a` to `e`.
pub open spec fn sp(a: nat, e: nat) -> Span {
    Span { start: a as usize, end: e as usize }
}

/// The keyword that the bytes from `i` begin with, tried in declaration order.
#[verifier::opaque]
pub open spec fn keyword_prefix(b: Seq<u8>, i: nat) -> Option<(Token, nat)> {
    if starts(b, i as int, seq!['d' as u8, 'o' as u8]) {
        Some((Token::Do(token::Do { span: sp(i, i + 2) }), i + 2))
    } else if starts(b, i as int, seq!['e' as u8, 'n' as u8, 'd' as u8]) {
        Some((Token::End(token::End { span: sp(i, i + 3) }), i + 3))
    } else if starts(b, i as int, seq!['i' as u8, 'f' as u8]) {
        Some((Token::If(token::If { span: sp(i, i + 2) }), i + 2))
    } else if starts(b, i as int, seq!['t' as u8, 'h' as u8, 'e' as u8, 'n' as u8]) {
        Some((Token::Then(token::Then { span: sp(i, i + 4) }), i + 4))
    } else if starts(b, i as int, seq!['e' as u8, 'l' as u8, 's' as u8, 'e' as u8, 'i' as u8, 'f' as u8]) {
        Some((Token::ElseIf(token::ElseIf { span: sp(i, i + 6) }), i + 6))
    } else if starts(b, i as int, seq!['e' as u8, 'l' as u8, 's' as u8, 'e' as u8]) {
        Some((Token::Else(token::Else { span: sp(i, i + 4) }), i + 4))
    } else if starts(b, i as int, seq!['f' as u8, 'o' as u8, 'r' as u8]) {
        Some((Token::For(token::For { span: sp(i, i + 3) }), i + 3))
    } else if starts(b, i as int, seq!['i' as u8, 'n' as u8]) {
        Some((Token::In(token::In { span: sp(i, i + 2) }), i + 2))
    } else if starts(b, i as int, seq!['w' as u8, 'h' as u8, 'i' as u8, 'l' as u8, 'e' as u8]) {
        Some((Token::While(token::While { span: sp(i, i + 5) }), i + 5))
    } else if starts(b, i as int, seq!['b' as u8, 'r' as u8, 'e' as u8, 'a' as u8, 'k' as u8]) {
        Some((Token::Break(token::Break { span: sp(i, i + 5) }), i + 5))
    } else if starts(b, i as int, seq!['r' as u8, 'e' as u8, 'p' as u8, 'e' as u8, 'a' as u8, 't' as u8]) {
        Some((Token::Repeat(token::Repeat { span: sp(i, i + 6) }), i + 6))
    } else if starts(b, i as int, seq!['u' as u8, 'n' as u8, 't' as u8, 'i' as u8, 'l' as u8]) {
        Some((Token::Until(token::Until { span: sp(i, i + 5) }), i + 5))
    } else if starts(b, i as int, seq!['g' as u8, 'o' as u8, 't' as u8, 'o' as u8]) {
        Some((Token::Goto(token::Goto { span: sp(i, i + 4) }), i + 4))
    } else if starts(b, i as int, seq!['l' as u8, 'o' as u8, 'c' as u8, 'a' as u8, 'l' as u8]) {
        Some((Token::Local(token::Local { span: sp(i, i + 5) }), i + 5))
    } else if starts(b, i as int, seq!['f' as u8, 'u' as u8, 'n' as u8, 'c' as u8, 't' as u8, 'i' as u8, 'o' as u8, 'n' as u8]) {
        Some((Token::Function(token::Function { span: sp(i, i + 8) }), i + 8))
    } else if starts(b, i as int, seq!['r' as u8, 'e' as u8, 't' as u8, 'u' as u8, 'r' as u8, 'n' as u8]) {
        Some((Token::Return(token::Return { span: sp(i, i + 6) }), i + 6))
    } else if starts(b, i as int, seq!['n' as u8, 'i' as u8, 'l' as u8]) {
        Some((Token::Nil(token::Nil { span: sp(i, i + 3) }), i + 3))
    } else if starts(b, i as int, seq!['t' as u8, 'r' as u8, 'u' as u8, 'e' as u8]) {
        Some((Token::True(token::True { span: sp(i, i + 4) }), i + 4))
    } else if starts(b, i as int, seq!['f' as u8, 'a' as u8, 'l' as u8, 's' as u8, 'e' as u8]) {
        Some((Token::False(token::False { span: sp(i, i + 5) }), i + 5))
    } else if starts(b, i as int, seq!['a' as u8, 'n' as u8, 'd' as u8]) {
        Some((Token::And(token::And { span: sp(i, i + 3) }), i + 3))
    } else if starts(b, i as int, seq!['o' as u8, 'r' as u8]) {
        Some((Token::Or(token::Or { span: sp(i, i + 2) }), i + 2))
    } else if starts(b, i as int, seq!['n' as u8, 'o' as u8, 't' as u8]) {
        Some((Token::Not(token::Not { span: sp(i, i + 3) }), i + 3))
    } else {
        None
    }
}

/// The keyword at byte `i`: one that is a whole word there, not the start of
/// a longer name.
pub open spec fn keyword_token(b: Seq<u8>, i: nat) -> Option<(Token, nat)> {
    match keyword_prefix(b, i) {
        Some((t, k)) => if k < b.len() && in_class(b[k as int], ByteClass::Word) {
            None
        } else {
            Some((t, k))
        },
        None => None,
    }
}

/// The symbol at byte `i`: the longest one that the bytes from `i` begin with.
#[verifier::opaque]
pub open spec fn symbol_token(b: Seq<u8>, i: nat) -> Option<(Token, nat)> {
    if starts(b, i as int, seq!['.' as u8, '.' as u8, '.' as u8]) {
        Some((Token::Ellipses(token::Ellipses { span: sp(i, i + 3) }), i + 3))
    } else if starts(b, i as int, seq!['.' as u8, '.' as u8]) {
        Some((Token::DoubleDot(token::DoubleDot { span: sp(i, i + 2) }), i + 2))
    } else if starts(b, i as int, seq!['<' as u8, '=' as u8]) {
        Some((Token::LessEqual(token::LessEqual { span: sp(i, i + 2) }), i + 2))
    } else if starts(b, i as int, seq!['>' as u8, '=' as u8]) {
        Some((Token::GreaterEqual(token::GreaterEqual { span: sp(i, i + 2) }), i + 2))
    } else if starts(b, i as int, seq!['=' as u8, '=' as u8]) {
        Some((Token::DoubleEqual(token::DoubleEqual { span: sp(i, i + 2) }), i + 2))
    } else if starts(b, i as int, seq!['~' as u8, '=' as u8]) {
        Some((Token::TildeEqual(token::TildeEqual { span: sp(i, i + 2) }), i + 2))
    } else if starts(b, i as int, seq![':' as u8, ':' as u8]) {
        Some((Token::DoubleColon(token::DoubleColon { span: sp(i, i + 2) }), i + 2))
    } else if starts(b, i as int, seq!['/' as u8, '/' as u8]) {
        Some((Token::DoubleSlash(token::DoubleSlash { span: sp(i, i + 2) }), i + 2))
    } else if starts(b, i as int, seq!['<' as u8, '<' as u8]) {
        Some((Token::DoubleLess(token::DoubleLess { span: sp(i, i + 2) }), i + 2))
    } else if starts(b, i as int, seq!['>' as u8, '>' as u8]) {
        Some((Token::DoubleGreater(token::DoubleGreater { span: sp(i, i + 2) }), i + 2))
    } else if starts(b, i as int, seq![';' as u8]) {
        Some((Token::Semicolon(token::Semicolon { span: sp(i, i + 1) }), i + 1))
    } else if starts(b, i as int, seq!['=' as u8]) {
        Some((Token::Equal(token::Equal { span: sp(i, i + 1) }), i + 1))
    } else if starts(b, i as int, seq!['+' as u8]) {
        Some((Token::Plus(token::Plus { span: sp(i, i + 1) }), i + 1))
    } else if starts(b, i as int, seq!['-' as u8]) {
        Some((Token::Minus(token::Minus { span: sp(i, i + 1) }), i + 1))
    } else if starts(b, i as int, seq!['*' as u8]) {
        Some((Token::Asterisk(token::Asterisk { span: sp(i, i + 1) }), i + 1))
    } else if starts(b, i as int, seq!['/' as u8]) {
        Some((Token::Slash(token::Slash { span: sp(i, i + 1) }), i + 1))
    } else if starts(b, i as int, seq!['^' as u8]) {
        Some((Token::Carat(token::Carat { span: sp(i, i + 1) }), i + 1))
    } else if starts(b, i as int, seq!['%' as u8]) {
        Some((Token::Percent(token::Percent { span: sp(i, i + 1) }), i + 1))
    } else if starts(b, i as int, seq!['.' as u8]) {
        Some((Token::Dot(token::Dot { span: sp(i, i + 1) }), i + 1))
    } else if starts(b, i as int, seq!['<' as u8]) {
        Some((Token::Less(token::Less { span: sp(i, i + 1) }), i + 1))
    } else if starts(b, i as int, seq!['>' as u8]) {
        Some((Token::Greater(token::Greater { span: sp(i, i + 1) }), i + 1))
    } else if starts(b, i as int, seq!['#' as u8]) {
        Some((Token::Hashtag(token::Hashtag { span: sp(i, i + 1) }), i + 1))
    } else if starts(b, i as int, seq![',' as u8]) {
        Some((Token::Comma(token::Comma { span: sp(i, i + 1) }), i + 1))
    } else if starts(b, i as int, seq![':' as u8]) {
        Some((Token::Colon(token::Colon { span: sp(i, i + 1) }), i + 1))
    } else if starts(b, i as int, seq!['(' as u8]) {
        Some((Token::OpenParen(token::OpenParen { span: sp(i, i + 1) }), i + 1))
    } else if starts(b, i as int, seq!['[' as u8]) {
        Some((Token::OpenBracket(token::OpenBracket { span: sp(i, i + 1) }), i + 1))
    } else if starts(b, i as int, seq!['{' as u8]) {
        Some((Token::OpenBrace(token::OpenBrace { span: sp(i, i + 1) }), i + 1))
    } else if starts(b, i as int, seq![')' as u8]) {
        Some((Token::CloseParen(token::CloseParen { span: sp(i, i + 1) }), i + 1))
    } else if starts(b, i as int, seq![']' as u8]) {
        Some((Token::CloseBracket(token::CloseBracket { span: sp(i, i + 1) }), i + 1))
    } else if starts(b, i as int, seq!['}' as u8]) {
        Some((Token::CloseBrace(token::CloseBrace { span: sp(i, i + 1) }), i + 1))
    } else if starts(b, i as int, seq!['|' as u8]) {
        Some((Token::Pipe(token::Pipe { span: sp(i, i + 1) }), i + 1))
    } else if starts(b, i as int, seq!['~' as u8]) {
        Some((Token::Tilde(token::Tilde { span: sp(i, i + 1) }), i + 1))
    } else if starts(b, i as int, seq!['&' as u8]) {
        Some((Token::Ampersand(token::Ampersand { span: sp(i, i + 1) }), i + 1))
    } else {
        None
    }
}

/// Whether the bytes spell one of Lua's symbols.
#[verifier::opaque]
pub open spec fn is_symbol(w: Seq<u8>) -> bool {
    w =~= seq!['.' as u8, '.' as u8, '.' as u8]
        || w =~= seq!['.' as u8, '.' as u8]
        || w =~= seq!['<' as u8, '=' as u8]
        || w =~= seq!['>' as u8, '=' as u8]
        || w =~= seq!['=' as u8, '=' as u8]
        || w =~= seq!['~' as u8, '=' as u8]
        || w =~= seq![':' as u8, ':' as u8]
        || w =~= seq!['/' as u8, '/' as u8]
        || w =~= seq!['<' as u8, '<' as u8]
        || w =~= seq!['>' as u8, '>' as u8]
        || w =~= seq![';' as u8]
        || w =~= seq!['=' as u8]
        || w =~= seq!['+' as u8]
        || w =~= seq!['-' as u8]
        || w =~= seq!['*' as u8]
        || w =~= seq!['/' as u8]
        || w =~= seq!['^' as u8]
        || w =~= seq!['%' as u8]
        || w =~= seq!['.' as u8]
        || w =~= seq!['<' as u8]
        || w =~= seq!['>' as u8]
        || w =~= seq!['#' as u8]
        || w =~= seq![',' as u8]
        || w =~= seq![':' as u8]
        || w =~= seq!['(' as u8]
        || w =~= seq!['[' as u8]
        || w =~= seq!['{' as u8]
        || w =~= seq![')' as u8]
        || w =~= seq![']' as u8]
        || w =~= seq!['}' as u8]
        || w =~= seq!['|' as u8]
        || w =~= seq!['~' as u8]
        || w =~= seq!['&' as u8]
}

/// Whether the bytes spell one of Lua's keywords.
#[verifier::opaque]
pub open spec fn is_keyword(w: Seq<u8>) -> bool {
    w =~= seq!['d' as u8, 'o' as u8]
        || w =~= seq!['e' as u8, 'n' as u8, 'd' as u8]
        || w =~= seq!['i' as u8, 'f' as u8]
        || w =~= seq!['t' as u8, 'h' as u8, 'e' as u8, 'n' as u8]
        || w =~= seq!['e' as u8, 'l' as u8, 's' as u8, 'e' as u8, 'i' as u8, 'f' as u8]
        || w =~= seq!['e' as u8, 'l' as u8, 's' as u8, 'e' as u8]
        || w =~= seq!['f' as u8, 'o' as u8, 'r' as u8]
        || w =~= seq!['i' as u8, 'n' as u8]
        || w =~= seq!['w' as u8, 'h' as u8, 'i' as u8, 'l' as u8, 'e' as u8]
        || w =~= seq!['b' as u8, 'r' as u8, 'e' as u8, 'a' as u8, 'k' as u8]
        || w =~= seq!['r' as u8, 'e' as u8, 'p' as u8, 'e' as u8, 'a' as u8, 't' as u8]
        || w =~= seq!['u' as u8, 'n' as u8, 't' as u8, 'i' as u8, 'l' as u8]
        || w =~= seq!['g' as u8, 'o' as u8, 't' as u8, 'o' as u8]
        || w =~= seq!['l' as u8, 'o' as u8, 'c' as u8, 'a' as u8, 'l' as u8]
        || w =~= seq!['f' as u8, 'u' as u8, 'n' as u8, 'c' as u8, 't' as u8, 'i' as u8, 'o' as u8, 'n' as u8]
        || w =~= seq!['r' as u8, 'e' as u8, 't' as u8, 'u' as u8, 'r' as u8, 'n' as u8]
        || w =~= seq!['n' as u8, 'i' as u8, 'l' as u8]
        || w =~= seq!['t' as u8, 'r' as u8, 'u' as u8, 'e' as u8]
        || w =~= seq!['f' as u8, 'a' as u8, 'l' as u8, 's' as u8, 'e' as u8]
        || w =~= seq!['a' as u8, 'n' as u8, 'd' as u8]
        || w =~= seq!['o' as u8, 'r' as u8]
        || w =~= seq!['n' as u8, 'o' as u8, 't' as u8]
}
/// The exponent marker of a number: `e`/`E` in decimal, `p`/`P` in hexadecimal.
pub open spec fn exp_marker(c: u8, hex: bool) -> bool {
    if hex {
        c == 'p' as u8 || c == 'P' as u8
    } else {
        c == 'e' as u8 || c == 'E' as u8
    }
}

/// Scans a number's exponent that starts at `p`, just after its marker: any
/// run of signs, then digits of the number's base. Gives the end of the number.
pub open spec fn spec_exponent(b: Seq<u8>, p: nat, cls: ByteClass) -> Result<nat, ParsingError> {
    let s = scan_end(b, p, ByteClass::Sign);
    let d = scan_end(b, s, cls);
    if d > s {
        Ok(d)
    } else if s < b.len() {
        Err(perr(s as int, "number exponent must have at least one digit"))
    } else {
        Err(perr(s as int, "number must have a digit"))
    }
}

/// Scans a numeric literal at byte `i`: the end of the literal, or the error.
///
/// A `0x` or `0X` prefix selects hexadecimal digits. The mantissa is digits,
/// a point and digits, with at least one digit on either side of the point;
/// an exponent marker may follow (`e`/`E`, or `p`/`P` in hexadecimal), then
/// signs and digits of the number's base.
pub open spec fn spec_number(b: Seq<u8>, i: nat) -> Result<nat, ParsingError> {
    let hex = starts(b, i as int, seq!['0' as u8, 'x' as u8]) || starts(
        b,
        i as int,
        seq!['0' as u8, 'X' as u8],
    );
    let cls = if hex {
        ByteClass::HexDigit
    } else {
        ByteClass::Digit
    };
    let p0 = if hex {
        i + 2
    } else {
        i
    };
    let q = scan_end(b, p0, cls);
    let first = q > p0;
    if at(b, q as int, '.' as u8) {
        let r = scan_end(b, q + 1, cls);
        if !first && r == q + 1 {
            Err(perr((q + 1) as int, "number must have at least one digit"))
        } else if r < b.len() && exp_marker(b[r as int], hex) {
            spec_exponent(b, r + 1, cls)
        } else {
            Ok(r)
        }
    } else if !first {
        Err(perr(q as int, "number must have a digit"))
    } else if q < b.len() && exp_marker(b[q as int], hex) {
        spec_exponent(b, q + 1, cls)
    } else {
        Ok(q)
    }
}

/// Looks for the closing delimiter of a string at byte `p`: whether it is
/// there, and its length.
pub open spec fn spec_close_ahead(q: QuoteType, b: Seq<u8>, p: nat) -> (bool, nat) {
    match q {
        QuoteType::Single => (at(b, p as int, '\'' as u8), 1),
        QuoteType::Double => (at(b, p as int, '"' as u8), 1),
        QuoteType::Bracketed { eq_count } => {
            let n = eq_count as nat;
            if at(b, p as int, ']' as u8) && p + 1 + n < b.len() && (forall|k: int|
                p + 1 <= k < p + 1 + n ==> b[k] == '=' as u8) && b[(p + 1 + n) as int] == ']' as u8 {
                (true, n + 2)
            } else {
                (false, 0)
            }
        },
    }
}

/// Scans the body of a string literal from byte `p`, one byte at a time; a
/// backslash makes the next byte literal. The literal opened at `start`, and
/// its contents begin at `inner`.
pub open spec fn string_body(
    b: Seq<u8>,
    start: nat,
    inner: nat,
    q: QuoteType,
    p: nat,
    esc: bool,
) -> Outcome<LiteralString>
    decreases b.len() - p,
{
    if p >= b.len() {
        Outcome::Returns(Err(perr(p as int, "reached EOF before finding end of string")), start)
    } else if esc {
        string_body(b, start, inner, q, p + 1, false)
    } else if b[p as int] == '\\' as u8 {
        string_body(b, start, inner, q, p + 1, true)
    } else {
        match spec_close_ahead(q, b, p) {
            (true, k) => Outcome::Returns(
                Ok(
                    LiteralString {
                        start_span: sp(start, inner),
                        inner_span: sp(inner, p),
                        end_span: sp(p, p + k),
                        quote_type: q,
                    },
                ),
                p + k,
            ),
            (false, _) => string_body(b, start, inner, q, p + 1, false),
        }
    }
}

/// Scans a string literal at byte `i`: `"..."`, `'...'` or `[==[...]==]` with
/// any number of `=`.
pub open spec fn spec_string(b: Seq<u8>, i: nat) -> Outcome<LiteralString> {
    if at(b, i as int, '"' as u8) {
        string_body(b, i, i + 1, QuoteType::Double, i + 1, false)
    } else if at(b, i as int, '\'' as u8) {
        string_body(b, i, i + 1, QuoteType::Single, i + 1, false)
    } else if at(b, i as int, '[' as u8) {
        let e = scan_end(b, i + 1, ByteClass::EqualSign);
        if !at(b, e as int, '[' as u8) {
            Outcome::Returns(Err(perr(e as int, "expected bracket to close block string")), i)
        } else {
            string_body(
                b,
                i,
                e + 1,
                QuoteType::Bracketed { eq_count: (e - (i + 1)) as usize },
                e + 1,
                false,
            )
        }
    } else {
        Outcome::Returns(Err(perr(i as int, "invalid string quote")), i)
    }
}

/// Skips whitespace and comments from byte `i`. A comment is a long bracket
/// (`[`, any number of `=`, `[`) right after `--`, up to its closing bracket;
/// any other comment runs from `--` to the end of the line.
pub open spec fn skip_ws(b: Seq<u8>, i: nat) -> Outcome<()>
    decreases b.len() - i,
{
    let j = scan_end(b, i, ByteClass::Space);
    if j >= b.len() {
        Outcome::Returns(Ok(()), j)
    } else if starts(b, j as int, seq!['-' as u8, '-' as u8]) {
        let p = j + 2;
        if at(b, p as int, '[' as u8) && at(b, scan_end(b, p + 1, ByteClass::EqualSign) as int, '[' as u8) {
            match spec_string(b, p) {
                Outcome::Panics => Outcome::Panics,
                Outcome::Returns(Err(e), _) => Outcome::Returns(Err(e), p),
                Outcome::Returns(Ok(_), k) => {
                    // Positions only move forward; the guard shows it.
                    if i < k <= b.len() {
                        skip_ws(b, k)
                    } else {
                        Outcome::Panics
                    }
                },
            }
        } else {
            let n = scan_end(b, p, ByteClass::NotNewline);
            if i < n <= b.len() {
                skip_ws(b, n)
            } else {
                Outcome::Panics
            }
        }
    } else {
        Outcome::Returns(Ok(()), j)
    }
}

/// An identifier at byte `i`: a letter or `_`, then letters, digits and `_`,
/// and not a keyword.
pub open spec fn name_token(b: Seq<u8>, i: nat) -> Option<(Token, nat)> {
    if i < b.len() && (is_alpha(b[i as int]) || b[i as int] == '_' as u8) {
        let e = scan_end(b, i, ByteClass::Word);
        if is_keyword(b.subrange(i as int, e as int)) {
            None
        } else {
            Some((Token::Name(token::Name { span: sp(i, e) }), e))
        }
    } else {
        None
    }
}

/// The token at byte `i`, which follows any whitespace. The kinds are tried in
/// order: keywords, numbers, strings, symbols, the end of input, identifiers.
#[verifier::opaque]
pub open spec fn spec_next_token(b: Seq<u8>, i: nat) -> Outcome<Token> {
    match keyword_token(b, i) {
        Some((t, k)) => Outcome::Returns(Ok(t), k),
        None => match spec_number(b, i) {
            Ok(e) => Outcome::Returns(Ok(Token::LiteralNumber(LiteralNumber { span: sp(i, e) })), e),
            Err(_) => match spec_string(b, i) {
                Outcome::Panics => Outcome::Panics,
                Outcome::Returns(Ok(s), k) => Outcome::Returns(Ok(Token::LiteralString(s)), k),
                Outcome::Returns(Err(_), _) => match symbol_token(b, i) {
                    Some((t, k)) => Outcome::Returns(Ok(t), k),
                    None => if i >= b.len() {
                        Outcome::Returns(Ok(Token::EOF(token::EOF { span: sp(i, i) })), i)
                    } else {
                        match name_token(b, i) {
                            Some((t, k)) => Outcome::Returns(Ok(t), k),
                            None => Outcome::Returns(Err(perr(i as int, "invalid token")), i),
                        }
                    },
                },
            },
        },
    }
}

/// Tokenizes the bytes from `i` on: the tokens up to and including the end of
/// input.
pub open spec fn lex(b: Seq<u8>, i: nat) -> Outcome<Seq<Token>>
    decreases b.len() - i,
{
    match skip_ws(b, i) {
        Outcome::Panics => Outcome::Panics,
        Outcome::Returns(Err(e), p) => Outcome::Returns(Err(e), p),
        Outcome::Returns(Ok(_), j) => match spec_next_token(b, j) {
            Outcome::Panics => Outcome::Panics,
            Outcome::Returns(Err(e), p) => Outcome::Returns(Err(e), p),
            Outcome::Returns(Ok(t), k) => if t is EOF {
                Outcome::Returns(Ok(seq![t]), k)
            } else if i < k <= b.len() {
                // Every other token is at least one byte long; the guard shows it.
                match lex(b, k) {
                    Outcome::Returns(Ok(ts), p) => Outcome::Returns(Ok(seq![t] + ts), p),
                    other => other,
                }
            } else {
                Outcome::Panics
            },
        },
    }
}

/// Tokenizing from byte `i` after `toks` were produced: `toks` come first.
pub open spec fn prepend(toks: Seq<Token>, o: Outcome<Seq<Token>>) -> Outcome<Seq<Token>> {
    match o {
        Outcome::Returns(Ok(ts), p) => Outcome::Returns(Ok(toks + ts), p),
        other => other,
    }
}

/// Scanning stops within the text and only passes bytes of the class.
pub proof fn lemma_scan_end(b: Seq<u8>, i: nat, cls: ByteClass)
    requires
        i <= b.len(),
    ensures
        i <= scan_end(b, i, cls) <= b.len(),
        forall|k: int| i <= k < scan_end(b, i, cls) ==> in_class(b[k], cls),
        scan_end(b, i, cls) < b.len() ==> !in_class(b[scan_end(b, i, cls) as int], cls),
    decreases b.len() - i,
{
    if i < b.len() && in_class(b[i as int], cls) {
        lemma_scan_end(b, i + 1, cls);
    }
}

fn class_byte(c: u8, cls: ByteClass) -> (r: bool)
    ensures
        r == in_class(c, cls),
{
    match cls {
        ByteClass::Space => c == ' ' as u8 || c == '\t' as u8 || c == '\n' as u8 || c == 12u8 || c
            == '\r' as u8,
        ByteClass::Digit => '0' as u8 <= c && c <= '9' as u8,
        ByteClass::HexDigit => ('0' as u8 <= c && c <= '9' as u8) || ('a' as u8 <= c && c
            <= 'f' as u8) || ('A' as u8 <= c && c <= 'F' as u8),
        ByteClass::Word => ('a' as u8 <= c && c <= 'z' as u8) || ('A' as u8 <= c && c <= 'Z' as u8)
            || ('0' as u8 <= c && c <= '9' as u8) || c == '_' as u8,
        ByteClass::EqualSign => c == '=' as u8,
        ByteClass::Sign => c == '+' as u8 || c == '-' as u8,
        ByteClass::NotNewline => c != '\n' as u8,
    }
}

/// The first position at or after `i` whose byte is not in `cls`.
fn scan_while(b: &[u8], i: usize, cls: ByteClass) -> (r: usize)
    requires
        i <= b.len(),
    ensures
        r as nat == scan_end(b@, i as nat, cls),
        i <= r <= b.len(),
{
    let mut k = i;
    while k < b.len() && class_byte(b[k], cls)
        invariant
            i <= k <= b.len(),
            scan_end(b@, k as nat, cls) == scan_end(b@, i as nat, cls),
        decreases b.len() - k,
    {
        k += 1;
    }
    k
}

/// Whether byte `i` exists and is `c`.
fn byte_is(b: &[u8], i: usize, c: u8) -> (r: bool)
    ensures
        r == at(b@, i as int, c),
{
    i < b.len() && b[i] == c
}

/// Whether the bytes from `j` on begin with `p`.
fn starts_at(b: &[u8], j: usize, p: &[u8]) -> (r: bool)
    ensures
        r == starts(b@, j as int, p@),
{
    if j > b.len() || p.len() > b.len() - j {
        return false;
    }
    let mut k: usize = 0;
    while k < p.len()
        invariant
            j + p.len() <= b.len(),
            k <= p.len(),
            forall|m: int| 0 <= m < k ==> b@[j + m] == p@[m],
        decreases p.len() - k,
    {
        if b[j + k] != p[k] {
            assert(b@.subrange(j as int, j + p.len())[k as int] != p@[k as int]);
            return false;
        }
        k += 1;
    }
    assert(b@.subrange(j as int, j + p.len()) =~= p@);
    true
}

/// Whether `b[i..e]` is exactly `p`.
fn spells(b: &[u8], i: usize, e: usize, p: &[u8]) -> (r: bool)
    requires
        i <= e <= b.len(),
    ensures
        r == (b@.subrange(i as int, e as int) =~= p@),
{
    if e - i != p.len() {
        return false;
    }
    starts_at(b, i, p)
}

/// Whether the bytes from `i` on begin with the 1 given bytes.
fn starts1(b: &[u8], i: usize, c0: u8) -> (r: bool)
    ensures
        r == starts(b@, i as int, seq![c0]),
{
    let p = [c0];
    assert(p@ =~= seq![c0]);
    starts_at(b, i, &p)
}

/// Whether the bytes from `i` on begin with the 2 given bytes.
fn starts2(b: &[u8], i: usize, c0: u8, c1: u8) -> (r: bool)
    ensures
        r == starts(b@, i as int, seq![c0, c1]),
{
    let p = [c0, c1];
    assert(p@ =~= seq![c0, c1]);
    starts_at(b, i, &p)
}

/// Whether the bytes from `i` on begin with the 3 given bytes.
fn starts3(b: &[u8], i: usize, c0: u8, c1: u8, c2: u8) -> (r: bool)
    ensures
        r == starts(b@, i as int, seq![c0, c1, c2]),
{
    let p = [c0, c1, c2];
    assert(p@ =~= seq![c0, c1, c2]);
    starts_at(b, i, &p)
}

/// Whether the bytes from `i` on begin with the 4 given bytes.
fn starts4(b: &[u8], i: usize, c0: u8, c1: u8, c2: u8, c3: u8) -> (r: bool)
    ensures
        r == starts(b@, i as int, seq![c0, c1, c2, c3]),
{
    let p = [c0, c1, c2, c3];
    assert(p@ =~= seq![c0, c1, c2, c3]);
    starts_at(b, i, &p)
}

/// Whether the bytes from `i` on begin with the 5 given bytes.
fn starts5(b: &[u8], i: usize, c0: u8, c1: u8, c2: u8, c3: u8, c4: u8) -> (r: bool)
    ensures
        r == starts(b@, i as int, seq![c0, c1, c2, c3, c4]),
{
    let p = [c0, c1, c2, c3, c4];
    assert(p@ =~= seq![c0, c1, c2, c3, c4]);
    starts_at(b, i, &p)
}

/// Whether the bytes from `i` on begin with the 6 given bytes.
fn starts6(b: &[u8], i: usize, c0: u8, c1: u8, c2: u8, c3: u8, c4: u8, c5: u8) -> (r: bool)
    ensures
        r == starts(b@, i as int, seq![c0, c1, c2, c3, c4, c5]),
{
    let p = [c0, c1, c2, c3, c4, c5];
    assert(p@ =~= seq![c0, c1, c2, c3, c4, c5]);
    starts_at(b, i, &p)
}

/// Whether the bytes from `i` on begin with the 7 given bytes.
fn starts7(b: &[u8], i: usize, c0: u8, c1: u8, c2: u8, c3: u8, c4: u8, c5: u8, c6: u8) -> (r: bool)
    ensures
        r == starts(b@, i as int, seq![c0, c1, c2, c3, c4, c5, c6]),
{
    let p = [c0, c1, c2, c3, c4, c5, c6];
    assert(p@ =~= seq![c0, c1, c2, c3, c4, c5, c6]);
    starts_at(b, i, &p)
}

/// Whether the bytes from `i` on begin with the 8 given bytes.
fn starts8(b: &[u8], i: usize, c0: u8, c1: u8, c2: u8, c3: u8, c4: u8, c5: u8, c6: u8, c7: u8) -> (r: bool)
    ensures
        r == starts(b@, i as int, seq![c0, c1, c2, c3, c4, c5, c6, c7]),
{
    let p = [c0, c1, c2, c3, c4, c5, c6, c7];
    assert(p@ =~= seq![c0, c1, c2, c3, c4, c5, c6, c7]);
    starts_at(b, i, &p)
}

/// Matches the keyword that the bytes from `i` begin with.
fn match_keyword_prefix(b: &[u8], i: usize) -> (r: Option<(Token, usize)>)
    requires
        i <= b.len(),
    ensures
        match keyword_prefix(b@, i as nat) {
            Some((t, k)) => r == Some((t, k as usize)) && k <= b@.len(),
            None => r is None,
        },
        r matches Some((t, k)) ==> i < k <= b.len() && t.wf() && !(t is EOF),
{
    reveal(keyword_prefix);
    if starts2(b, i, 'd' as u8, 'o' as u8) {
        Some((Token::Do(token::Do { span: Span::new(i, i + 2) }), i + 2))
    } else if starts3(b, i, 'e' as u8, 'n' as u8, 'd' as u8) {
        Some((Token::End(token::End { span: Span::new(i, i + 3) }), i + 3))
    } else if starts2(b, i, 'i' as u8, 'f' as u8) {
        Some((Token::If(token::If { span: Span::new(i, i + 2) }), i + 2))
    } else if starts4(b, i, 't' as u8, 'h' as u8, 'e' as u8, 'n' as u8) {
        Some((Token::Then(token::Then { span: Span::new(i, i + 4) }), i + 4))
    } else if starts6(b, i, 'e' as u8, 'l' as u8, 's' as u8, 'e' as u8, 'i' as u8, 'f' as u8) {
        Some((Token::ElseIf(token::ElseIf { span: Span::new(i, i + 6) }), i + 6))
    } else if starts4(b, i, 'e' as u8, 'l' as u8, 's' as u8, 'e' as u8) {
        Some((Token::Else(token::Else { span: Span::new(i, i + 4) }), i + 4))
    } else if starts3(b, i, 'f' as u8, 'o' as u8, 'r' as u8) {
        Some((Token::For(token::For { span: Span::new(i, i + 3) }), i + 3))
    } else if starts2(b, i, 'i' as u8, 'n' as u8) {
        Some((Token::In(token::In { span: Span::new(i, i + 2) }), i + 2))
    } else if starts5(b, i, 'w' as u8, 'h' as u8, 'i' as u8, 'l' as u8, 'e' as u8) {
        Some((Token::While(token::While { span: Span::new(i, i + 5) }), i + 5))
    } else if starts5(b, i, 'b' as u8, 'r' as u8, 'e' as u8, 'a' as u8, 'k' as u8) {
        Some((Token::Break(token::Break { span: Span::new(i, i + 5) }), i + 5))
    } else if starts6(b, i, 'r' as u8, 'e' as u8, 'p' as u8, 'e' as u8, 'a' as u8, 't' as u8) {
        Some((Token::Repeat(token::Repeat { span: Span::new(i, i + 6) }), i + 6))
    } else if starts5(b, i, 'u' as u8, 'n' as u8, 't' as u8, 'i' as u8, 'l' as u8) {
        Some((Token::Until(token::Until { span: Span::new(i, i + 5) }), i + 5))
    } else if starts4(b, i, 'g' as u8, 'o' as u8, 't' as u8, 'o' as u8) {
        Some((Token::Goto(token::Goto { span: Span::new(i, i + 4) }), i + 4))
    } else if starts5(b, i, 'l' as u8, 'o' as u8, 'c' as u8, 'a' as u8, 'l' as u8) {
        Some((Token::Local(token::Local { span: Span::new(i, i + 5) }), i + 5))
    } else if starts8(b, i, 'f' as u8, 'u' as u8, 'n' as u8, 'c' as u8, 't' as u8, 'i' as u8, 'o' as u8, 'n' as u8) {
        Some((Token::Function(token::Function { span: Span::new(i, i + 8) }), i + 8))
    } else if starts6(b, i, 'r' as u8, 'e' as u8, 't' as u8, 'u' as u8, 'r' as u8, 'n' as u8) {
        Some((Token::Return(token::Return { span: Span::new(i, i + 6) }), i + 6))
    } else if starts3(b, i, 'n' as u8, 'i' as u8, 'l' as u8) {
        Some((Token::Nil(token::Nil { span: Span::new(i, i + 3) }), i + 3))
    } else if starts4(b, i, 't' as u8, 'r' as u8, 'u' as u8, 'e' as u8) {
        Some((Token::True(token::True { span: Span::new(i, i + 4) }), i + 4))
    } else if starts5(b, i, 'f' as u8, 'a' as u8, 'l' as u8, 's' as u8, 'e' as u8) {
        Some((Token::False(token::False { span: Span::new(i, i + 5) }), i + 5))
    } else if starts3(b, i, 'a' as u8, 'n' as u8, 'd' as u8) {
        Some((Token::And(token::And { span: Span::new(i, i + 3) }), i + 3))
    } else if starts2(b, i, 'o' as u8, 'r' as u8) {
        Some((Token::Or(token::Or { span: Span::new(i, i + 2) }), i + 2))
    } else if starts3(b, i, 'n' as u8, 'o' as u8, 't' as u8) {
        Some((Token::Not(token::Not { span: Span::new(i, i + 3) }), i + 3))
    } else {
        None
    }
}

/// Matches a keyword at byte `i` that is a whole word.
fn match_keyword(b: &[u8], i: usize) -> (r: Option<(Token, usize)>)
    requires
        i <= b.len(),
    ensures
        match keyword_token(b@, i as nat) {
            Some((t, k)) => r == Some((t, k as usize)) && k <= b@.len(),
            None => r is None,
        },
        r matches Some((t, k)) ==> i < k <= b.len() && t.wf() && !(t is EOF),
{
    match match_keyword_prefix(b, i) {
        Some((t, k)) => if k < b.len() && class_byte(b[k], ByteClass::Word) {
            None
        } else {
            Some((t, k))
        },
        None => None,
    }
}

/// Matches a symbol at byte `i`.
fn match_symbol(b: &[u8], i: usize) -> (r: Option<(Token, usize)>)
    requires
        i <= b.len(),
    ensures
        match symbol_token(b@, i as nat) {
            Some((t, k)) => r == Some((t, k as usize)) && k <= b@.len(),
            None => r is None,
        },
        r matches Some((t, k)) ==> i < k <= b.len() && t.wf() && !(t is EOF),
{
    reveal(symbol_token);
    if starts3(b, i, '.' as u8, '.' as u8, '.' as u8) {
        Some((Token::Ellipses(token::Ellipses { span: Span::new(i, i + 3) }), i + 3))
    } else if starts2(b, i, '.' as u8, '.' as u8) {
        Some((Token::DoubleDot(token::DoubleDot { span: Span::new(i, i + 2) }), i + 2))
    } else if starts2(b, i, '<' as u8, '=' as u8) {
        Some((Token::LessEqual(token::LessEqual { span: Span::new(i, i + 2) }), i + 2))
    } else if starts2(b, i, '>' as u8, '=' as u8) {
        Some((Token::GreaterEqual(token::GreaterEqual { span: Span::new(i, i + 2) }), i + 2))
    } else if starts2(b, i, '=' as u8, '=' as u8) {
        Some((Token::DoubleEqual(token::DoubleEqual { span: Span::new(i, i + 2) }), i + 2))
    } else if starts2(b, i, '~' as u8, '=' as u8) {
        Some((Token::TildeEqual(token::TildeEqual { span: Span::new(i, i + 2) }), i + 2))
    } else if starts2(b, i, ':' as u8, ':' as u8) {
        Some((Token::DoubleColon(token::DoubleColon { span: Span::new(i, i + 2) }), i + 2))
    } else if starts2(b, i, '/' as u8, '/' as u8) {
        Some((Token::DoubleSlash(token::DoubleSlash { span: Span::new(i, i + 2) }), i + 2))
    } else if starts2(b, i, '<' as u8, '<' as u8) {
        Some((Token::DoubleLess(token::DoubleLess { span: Span::new(i, i + 2) }), i + 2))
    } else if starts2(b, i, '>' as u8, '>' as u8) {
        Some((Token::DoubleGreater(token::DoubleGreater { span: Span::new(i, i + 2) }), i + 2))
    } else if starts1(b, i, ';' as u8) {
        Some((Token::Semicolon(token::Semicolon { span: Span::new(i, i + 1) }), i + 1))
    } else if starts1(b, i, '=' as u8) {
        Some((Token::Equal(token::Equal { span: Span::new(i, i + 1) }), i + 1))
    } else if starts1(b, i, '+' as u8) {
        Some((Token::Plus(token::Plus { span: Span::new(i, i + 1) }), i + 1))
    } else if starts1(b, i, '-' as u8) {
        Some((Token::Minus(token::Minus { span: Span::new(i, i + 1) }), i + 1))
    } else if starts1(b, i, '*' as u8) {
        Some((Token::Asterisk(token::Asterisk { span: Span::new(i, i + 1) }), i + 1))
    } else if starts1(b, i, '/' as u8) {
        Some((Token::Slash(token::Slash { span: Span::new(i, i + 1) }), i + 1))
    } else if starts1(b, i, '^' as u8) {
        Some((Token::Carat(token::Carat { span: Span::new(i, i + 1) }), i + 1))
    } else if starts1(b, i, '%' as u8) {
        Some((Token::Percent(token::Percent { span: Span::new(i, i + 1) }), i + 1))
    } else if starts1(b, i, '.' as u8) {
        Some((Token::Dot(token::Dot { span: Span::new(i, i + 1) }), i + 1))
    } else if starts1(b, i, '<' as u8) {
        Some((Token::Less(token::Less { span: Span::new(i, i + 1) }), i + 1))
    } else if starts1(b, i, '>' as u8) {
        Some((Token::Greater(token::Greater { span: Span::new(i, i + 1) }), i + 1))
    } else if starts1(b, i, '#' as u8) {
        Some((Token::Hashtag(token::Hashtag { span: Span::new(i, i + 1) }), i + 1))
    } else if starts1(b, i, ',' as u8) {
        Some((Token::Comma(token::Comma { span: Span::new(i, i + 1) }), i + 1))
    } else if starts1(b, i, ':' as u8) {
        Some((Token::Colon(token::Colon { span: Span::new(i, i + 1) }), i + 1))
    } else if starts1(b, i, '(' as u8) {
        Some((Token::OpenParen(token::OpenParen { span: Span::new(i, i + 1) }), i + 1))
    } else if starts1(b, i, '[' as u8) {
        Some((Token::OpenBracket(token::OpenBracket { span: Span::new(i, i + 1) }), i + 1))
    } else if starts1(b, i, '{' as u8) {
        Some((Token::OpenBrace(token::OpenBrace { span: Span::new(i, i + 1) }), i + 1))
    } else if starts1(b, i, ')' as u8) {
        Some((Token::CloseParen(token::CloseParen { span: Span::new(i, i + 1) }), i + 1))
    } else if starts1(b, i, ']' as u8) {
        Some((Token::CloseBracket(token::CloseBracket { span: Span::new(i, i + 1) }), i + 1))
    } else if starts1(b, i, '}' as u8) {
        Some((Token::CloseBrace(token::CloseBrace { span: Span::new(i, i + 1) }), i + 1))
    } else if starts1(b, i, '|' as u8) {
        Some((Token::Pipe(token::Pipe { span: Span::new(i, i + 1) }), i + 1))
    } else if starts1(b, i, '~' as u8) {
        Some((Token::Tilde(token::Tilde { span: Span::new(i, i + 1) }), i + 1))
    } else if starts1(b, i, '&' as u8) {
        Some((Token::Ampersand(token::Ampersand { span: Span::new(i, i + 1) }), i + 1))
    } else {
        None
    }
}

/// Whether `b[i..e]` spells one of Lua's keywords.
fn is_keyword_at(b: &[u8], i: usize, e: usize) -> (r: bool)
    requires
        i <= e <= b.len(),
    ensures
        r == is_keyword(b@.subrange(i as int, e as int)),
{
    reveal(is_keyword);
    (e - i == 2 && starts2(b, i, 'd' as u8, 'o' as u8))
        || (e - i == 3 && starts3(b, i, 'e' as u8, 'n' as u8, 'd' as u8))
        || (e - i == 2 && starts2(b, i, 'i' as u8, 'f' as u8))
        || (e - i == 4 && starts4(b, i, 't' as u8, 'h' as u8, 'e' as u8, 'n' as u8))
        || (e - i == 6 && starts6(b, i, 'e' as u8, 'l' as u8, 's' as u8, 'e' as u8, 'i' as u8, 'f' as u8))
        || (e - i == 4 && starts4(b, i, 'e' as u8, 'l' as u8, 's' as u8, 'e' as u8))
        || (e - i == 3 && starts3(b, i, 'f' as u8, 'o' as u8, 'r' as u8))
        || (e - i == 2 && starts2(b, i, 'i' as u8, 'n' as u8))
        || (e - i == 5 && starts5(b, i, 'w' as u8, 'h' as u8, 'i' as u8, 'l' as u8, 'e' as u8))
        || (e - i == 5 && starts5(b, i, 'b' as u8, 'r' as u8, 'e' as u8, 'a' as u8, 'k' as u8))
        || (e - i == 6 && starts6(b, i, 'r' as u8, 'e' as u8, 'p' as u8, 'e' as u8, 'a' as u8, 't' as u8))
        || (e - i == 5 && starts5(b, i, 'u' as u8, 'n' as u8, 't' as u8, 'i' as u8, 'l' as u8))
        || (e - i == 4 && starts4(b, i, 'g' as u8, 'o' as u8, 't' as u8, 'o' as u8))
        || (e - i == 5 && starts5(b, i, 'l' as u8, 'o' as u8, 'c' as u8, 'a' as u8, 'l' as u8))
        || (e - i == 8 && starts8(b, i, 'f' as u8, 'u' as u8, 'n' as u8, 'c' as u8, 't' as u8, 'i' as u8, 'o' as u8, 'n' as u8))
        || (e - i == 6 && starts6(b, i, 'r' as u8, 'e' as u8, 't' as u8, 'u' as u8, 'r' as u8, 'n' as u8))
        || (e - i == 3 && starts3(b, i, 'n' as u8, 'i' as u8, 'l' as u8))
        || (e - i == 4 && starts4(b, i, 't' as u8, 'r' as u8, 'u' as u8, 'e' as u8))
        || (e - i == 5 && starts5(b, i, 'f' as u8, 'a' as u8, 'l' as u8, 's' as u8, 'e' as u8))
        || (e - i == 3 && starts3(b, i, 'a' as u8, 'n' as u8, 'd' as u8))
        || (e - i == 2 && starts2(b, i, 'o' as u8, 'r' as u8))
        || (e - i == 3 && starts3(b, i, 'n' as u8, 'o' as u8, 't' as u8))
}
/// A cursor over the bytes of the source text.
pub(crate) struct Tokenizer<'source> {
    pub(crate) source: &'source [u8],
    pub(crate) index: usize,
}

impl<'source> Tokenizer<'source> {
    /// The cursor is within the text.
    pub(crate) open spec fn wf(&self) -> bool {
        self.index <= self.source@.len()
    }

    /// Moves the cursor ahead by `amount` bytes, stopping at the end.
    fn jump(&mut self, amount: usize)
        requires
            old(self).wf(),
        ensures
            final(self).wf(),
            final(self).source == old(self).source,
            final(self).index == if amount <= old(self).source@.len() - old(self).index {
                old(self).index + amount
            } else {
                old(self).source@.len() as int
            },
    {
        let rest = self.source.len() - self.index;
        if amount <= rest {
            self.index = self.index + amount;
        } else {
            self.index = self.index + rest;
        }
    }

    /// Skips whitespace.
    #[verifier::loop_isolation(false)]
    fn skip_whitespace(&mut self) -> (r: Result<(), ParsingError>)
        requires
            old(self).wf(),
            !(skip_ws(old(self).source@, old(self).index as nat) is Panics),
        ensures
            final(self).wf(),
            final(self).source == old(self).source,
            final(self).index >= old(self).index,
            match skip_ws(old(self).source@, old(self).index as nat) {
                Outcome::Returns(Ok(_), j) => r is Ok && final(self).index == j,
                Outcome::Returns(Err(e), _) => r == Err::<(), ParsingError>(e),
                Outcome::Panics => false,
            },
    {
        loop
            invariant
                self.wf(),
                self.source == old(self).source,
                !(skip_ws(old(self).source@, old(self).index as nat) is Panics),
                self.index >= old(self).index,
                skip_ws(self.source@, self.index as nat) == skip_ws(
                    old(self).source@,
                    old(self).index as nat,
                ),
            decreases self.source@.len() - self.index,
        {
            let ghost i = self.index as nat;
            let n = scan_while(self.source, self.index, ByteClass::Space);
            self.jump(n - self.index);
            if self.index == self.source.len() {
                return Ok(());
            }
            if starts_at(self.source, self.index, &['-' as u8, '-' as u8]) {
                // Comment
                self.jump(2);
                if byte_is(self.source, self.index, '[' as u8) && byte_is(
                    self.source,
                    scan_while(self.source, self.index + 1, ByteClass::EqualSign),
                    '[' as u8,
                ) {
                    tokenize_literal_string(self)?;
                } else {
                    let e = scan_while(self.source, self.index, ByteClass::NotNewline);
                    self.jump(e - self.index);
                }
                assert(skip_ws(self.source@, i) == skip_ws(self.source@, self.index as nat));
                continue ;
            }
            return Ok(());
        }
    }
}

/// Whether `c` marks the exponent of a number.
fn is_exp_marker(c: u8, hex: bool) -> (r: bool)
    ensures
        r == exp_marker(c, hex),
{
    if hex {
        c == 'p' as u8 || c == 'P' as u8
    } else {
        c == 'e' as u8 || c == 'E' as u8
    }
}

/// Scans the exponent of a number at `p`, just after its marker.
fn tokenize_exponent(b: &[u8], p: usize, cls: ByteClass) -> (r: Result<usize, ParsingError>)
    requires
        p <= b.len(),
    ensures
        match spec_exponent(b@, p as nat, cls) {
            Ok(e) => r == Ok::<usize, ParsingError>(e as usize) && p < e <= b.len(),
            Err(err) => r == Err::<usize, ParsingError>(err),
        },
{
    let s = scan_while(b, p, ByteClass::Sign);
    let d = scan_while(b, s, cls);
    if d > s {
        Ok(d)
    } else if s < b.len() {
        Err(ParsingError::new(s, "number exponent must have at least one digit"))
    } else {
        Err(ParsingError::new(s, "number must have a digit"))
    }
}

/// Tokenizes a numeric literal at the cursor, moving past it on success.
pub(crate) fn tokenize_literal_number(t: &mut Tokenizer<'_>) -> (r: Result<LiteralNumber, ParsingError>)
    requires
        old(t).wf(),
    ensures
        final(t).wf(),
        final(t).source == old(t).source,
        match spec_number(old(t).source@, old(t).index as nat) {
            Ok(e) => r == Ok::<LiteralNumber, ParsingError>(
                LiteralNumber { span: sp(old(t).index as nat, e) },
            ) && final(t).index == e && e > old(t).index,
            Err(err) => r == Err::<LiteralNumber, ParsingError>(err) && final(t).index == old(
                t,
            ).index,
        },
{
    let b = t.source;
    let start = t.index;
    let len = b.len();
    let hex = starts2(b, start, '0' as u8, 'x' as u8) || starts2(b, start, '0' as u8, 'X' as u8);
    let cls = if hex {
        ByteClass::HexDigit
    } else {
        ByteClass::Digit
    };
    let p0 = if hex {
        start + 2
    } else {
        start
    };
    let q = scan_while(b, p0, cls);
    let first = q > p0;
    let end;
    if byte_is(b, q, '.' as u8) {
        let r = scan_while(b, q + 1, cls);
        if !first && r == q + 1 {
            return Err(ParsingError::new(q + 1, "number must have at least one digit"));
        }
        if r < len && is_exp_marker(b[r], hex) {
            end = tokenize_exponent(b, r + 1, cls)?;
        } else {
            end = r;
        }
    } else if !first {
        return Err(ParsingError::new(q, "number must have a digit"));
    } else if q < len && is_exp_marker(b[q], hex) {
        end = tokenize_exponent(b, q + 1, cls)?;
    } else {
        end = q;
    }
    t.index = end;
    Ok(LiteralNumber { span: Span::new(start, end) })
}

impl QuoteType {
    /// Looks for the closing quote of a string at the cursor: whether it is
    /// there, and its length.
    #[verifier::loop_isolation(false)]
    fn close_ahead(&self, tok: &mut Tokenizer<'_>) -> (r: (bool, usize))
        requires
            old(tok).wf(),
        ensures
            *final(tok) == *old(tok),
            spec_close_ahead(*self, old(tok).source@, old(tok).index as nat) == (r.0, r.1 as nat),
            r.0 ==> old(tok).index + r.1 <= old(tok).source@.len(),
    {
        let b = tok.source;
        let p = tok.index;
        let len = b.len();
        match self {
            QuoteType::Single => (byte_is(b, p, '\'' as u8), 1),
            QuoteType::Double => (byte_is(b, p, '"' as u8), 1),
            QuoteType::Bracketed { eq_count } => {
                let n = *eq_count;
                if !byte_is(b, p, ']' as u8) {
                    return (false, 0);
                }
                let p1 = p + 1;
                if b.len() - p1 < n {
                    return (false, 0);
                }
                let mut k: usize = 0;
                while k < n
                    invariant
                        p1 + n <= b.len(),
                        k <= n,
                        forall|m: int| p1 <= m < p1 + k ==> b@[m] == '=' as u8,
                    decreases n - k,
                {
                    if b[p1 + k] != '=' as u8 {
                        assert(b@[(p1 + k) as int] != '=' as u8);
                        return (false, 0);
                    }
                    k += 1;
                }
                if !byte_is(b, p1 + n, ']' as u8) {
                    return (false, 0);
                }
                (true, n + 2)
            },
        }
    }
}

/// Tokenizes a string literal at the cursor, moving past it on success.
#[verifier::loop_isolation(false)]
pub(crate) fn tokenize_literal_string(t: &mut Tokenizer<'_>) -> (r: Result<LiteralString, ParsingError>)
    requires
        old(t).wf(),
    ensures
        final(t).wf(),
        final(t).source == old(t).source,
        match spec_string(old(t).source@, old(t).index as nat) {
            Outcome::Returns(Ok(s), k) => r == Ok::<LiteralString, ParsingError>(s)
                && final(t).index == k && k > old(t).index,
            Outcome::Returns(Err(e), _) => r == Err::<LiteralString, ParsingError>(e)
                && final(t).index == old(t).index,
            Outcome::Panics => false,
        },
        r matches Ok(s) ==> s.start_span.start <= s.end_span.end,
{
    proof {
        lemma_string_ends(old(t).source@, old(t).index as nat);
    }
    let mut tok = Tokenizer { source: t.source, index: t.index };
    let b = tok.source;
    let start = tok.index;
    let quote_type;
    if byte_is(b, tok.index, '"' as u8) {
        tok.jump(1);
        quote_type = QuoteType::Double;
    } else if byte_is(b, tok.index, '\'' as u8) {
        tok.jump(1);
        quote_type = QuoteType::Single;
    } else if byte_is(b, tok.index, '[' as u8) {
        tok.jump(1);
        let eq_count = scan_while(b, tok.index, ByteClass::EqualSign) - tok.index;
        tok.jump(eq_count);
        if !byte_is(b, tok.index, '[' as u8) {
            return Err(ParsingError::new(tok.index, "expected bracket to close block string"));
        }
        tok.jump(1);
        quote_type = QuoteType::Bracketed { eq_count };
    } else {
        return Err(ParsingError::new(tok.index, "invalid string quote"));
    }
    let inner_start = tok.index;
    let mut was_escape = false;
    loop
        invariant
            tok.wf(),
            tok.source == b,
            b == old(t).source,
            *t == *old(t),
            start == old(t).index,
            !(spec_string(b@, start as nat) is Panics),
            start < inner_start <= tok.index,
            string_body(b@, start as nat, inner_start as nat, quote_type, tok.index as nat, was_escape)
                == spec_string(b@, start as nat),
        decreases b@.len() - tok.index,
    {
        if tok.index >= b.len() {
            return Err(ParsingError::new(tok.index, "reached EOF before finding end of string"));
        }
        if was_escape {
            was_escape = false;
        } else {
            if byte_is(b, tok.index, '\\' as u8) {
                was_escape = true;
            } else {
                let (closed, skip_len) = quote_type.close_ahead(&mut tok);
                if closed {
                    let inner_end = tok.index;
                    tok.jump(skip_len);
                    t.index = tok.index;
                    return Ok(
                        LiteralString {
                            start_span: Span::new(start, inner_start),
                            inner_span: Span::new(inner_start, inner_end),
                            end_span: Span::new(inner_end, t.index),
                            quote_type,
                        },
                    );
                }
            }
        }
        tok.jump(1);
    }
}

/// Matches an identifier at byte `i`: one that is not a keyword.
fn match_name(b: &[u8], i: usize) -> (r: Option<(Token, usize)>)
    requires
        i <= b.len(),
    ensures
        match name_token(b@, i as nat) {
            Some((t, k)) => r == Some((t, k as usize)) && k <= b@.len(),
            None => r is None,
        },
        r matches Some((t, k)) ==> i < k <= b.len() && t.wf() && !(t is EOF),
{
    if i < b.len() && (('a' as u8 <= b[i] && b[i] <= 'z' as u8) || ('A' as u8 <= b[i] && b[i]
        <= 'Z' as u8) || b[i] == '_' as u8) {
        let e = scan_while(b, i, ByteClass::Word);
        proof {
            lemma_scan_end(b@, (i + 1) as nat, ByteClass::Word);
        }
        if is_keyword_at(b, i, e) {
            None
        } else {
            Some((Token::Name(token::Name { span: Span::new(i, e) }), e))
        }
    } else {
        None
    }
}

/// Reads the token at the cursor, which follows any whitespace.
fn next_token(tok: &mut Tokenizer<'_>) -> (r: Result<Token, ParsingError>)
    requires
        old(tok).wf(),
        !(spec_next_token(old(tok).source@, old(tok).index as nat) is Panics),
    ensures
        final(tok).wf(),
        final(tok).source == old(tok).source,
        match spec_next_token(old(tok).source@, old(tok).index as nat) {
            Outcome::Returns(Ok(t), k) => r == Ok::<Token, ParsingError>(t) && final(tok).index
                == k && t.wf() && (t is EOF || k > old(tok).index),
            Outcome::Returns(Err(e), _) => r == Err::<Token, ParsingError>(e),
            Outcome::Panics => false,
        },
{
    reveal(spec_next_token);
    let b = tok.source;
    let i = tok.index;
    if let Some((t, k)) = match_keyword(b, i) {
        tok.index = k;
        return Ok(t);
    }
    if let Ok(n) = tokenize_literal_number(tok) {
        return Ok(Token::LiteralNumber(n));
    }
    if let Ok(s) = tokenize_literal_string(tok) {
        return Ok(Token::LiteralString(s));
    }
    if let Some((t, k)) = match_symbol(b, i) {
        tok.index = k;
        return Ok(t);
    }
    if i >= b.len() {
        return Ok(Token::EOF(token::EOF { span: Span::new(i, i) }));
    }
    if let Some((t, k)) = match_name(b, i) {
        tok.index = k;
        return Ok(t);
    }
    Err(ParsingError::new(i, "invalid token"))
}

/// The tokens of a source text, and where the text ends.
pub struct Tokens {
    pub tokens: Seq<Token>,
    /// The length of the source text, where the end-of-input token sits.
    pub eof: usize,
}

/// The token at position `i`, or the end of input past the last one.
pub open spec fn peek_at(input: Tokens, i: int) -> Token {
    if 0 <= i < input.tokens.len() {
        input.tokens[i]
    } else {
        Token::EOF(token::EOF { span: Span { start: input.eof, end: input.eof } })
    }
}

/// A token stream seen as its tokens, the end of the text and the cursor.
pub struct TokenStreamView {
    pub tokens: Seq<Token>,
    pub eof: usize,
    pub index: nat,
}

impl TokenStreamView {
    pub open spec fn input(self) -> Tokens {
        Tokens { tokens: self.tokens, eof: self.eof }
    }

    /// Every token is well formed, as the tokenizer makes them, and the
    /// cursor and the number of tokens fit in a `usize`.
    pub open spec fn wf(self) -> bool {
        &&& forall|i: int| 0 <= i < self.tokens.len() ==> #[trigger] self.tokens[i].wf()
        &&& self.tokens.len() <= usize::MAX
        &&& self.index <= usize::MAX
    }
}

/// A stream of tokens ready to be parsed.
#[derive(Debug, Clone, PartialEq, Eq)]
pub struct TokenStream {
    pub(crate) buffer: Arc<Vec<Token>>,
    index: usize,
    source_len: usize,
}

impl View for TokenStream {
    type V = TokenStreamView;

    closed spec fn view(&self) -> TokenStreamView {
        TokenStreamView { tokens: self.buffer@, eof: self.source_len, index: self.index as nat }
    }
}

impl TokenStream {
    /// Parses a tokenizable buffer into a token stream.
    pub fn parse(source: &str) -> (r: Result<TokenStream, ParsingError>)
        ensures
            match lex(source.spec_bytes(), 0) {
                Outcome::Returns(Ok(ts), _) => r matches Ok(s) && s@ == (TokenStreamView {
                    tokens: ts,
                    eof: source.spec_bytes().len() as usize,
                    index: 0,
                }) && s@.wf(),
                Outcome::Returns(Err(e), _) => r == Err::<TokenStream, ParsingError>(e),
                Outcome::Panics => false,
            },
    {
        let bytes = source.as_bytes();
        proof {
            tokenizing_never_panics(source.spec_bytes());
        }
        let mut tok = Tokenizer { source: bytes, index: 0 };
        let mut buf: Vec<Token> = Vec::new();
        loop
            invariant
                tok.wf(),
                tok.source == bytes,
                bytes@ == source.spec_bytes(),
                !(lex(bytes@, 0) is Panics),
                forall|i: int| 0 <= i < buf@.len() ==> #[trigger] buf@[i].wf(),
                lex(bytes@, 0) == prepend(buf@, lex(bytes@, tok.index as nat)),
            decreases bytes@.len() - tok.index,
        {
            let ghost i = tok.index as nat;
            let ghost before = buf@;
            tok.skip_whitespace()?;
            let t = next_token(&mut tok)?;
            buf.push(t);
            if let Token::EOF(_) = t {
                let _n = buf.len();
                assert(buf@ =~= before + seq![t]);
                return Ok(TokenStream { buffer: Arc::new(buf), index: 0, source_len: bytes.len() });
            }
            assert(buf@ =~= before + seq![t]);
            proof {
                if let Outcome::Returns(Ok(ts), _) = lex(bytes@, tok.index as nat) {
                    assert(before + (seq![t] + ts) =~= buf@ + ts);
                }
            }
        }
    }

    /// All the tokens of the stream.
    pub fn tokens(&self) -> (r: &Vec<Token>)
        ensures
            r@ == self@.tokens,
    {
        &*self.buffer
    }

    /// Peeks ahead in the token stream by the given number of tokens.
    ///
    /// If no tokens are left, this will return the end-of-input token.
    pub fn peek(&self, ahead: usize) -> (t: Token)
        requires
            self@.index + ahead <= usize::MAX,
            self@.wf(),
        ensures
            t == peek_at(self@.input(), self@.index + ahead),
            t.wf(),
    {
        let i = self.index + ahead;
        if i < self.buffer.len() {
            self.buffer[i]
        } else {
            Token::EOF(token::EOF { span: Span::new(self.source_len, self.source_len) })
        }
    }

    /// Gets the start of the span of the current token.
    pub fn char_index(&self) -> (r: usize)
        requires
            self@.wf(),
        ensures
            r == peek_at(self@.input(), self@.index as int).spec_span().start,
    {
        self.peek(0).span().start
    }

    /// Skips ahead in the token stream by the given number of tokens.
    pub fn skip(&mut self, amount: usize)
        requires
            old(self)@.index + amount <= usize::MAX,
        ensures
            final(self)@ == (TokenStreamView { index: (old(self)@.index + amount) as nat, ..old(self)@ }),
    {
        self.index = self.index + amount;
    }

    /// Where the cursor is, to come back to it.
    pub(crate) fn mark(&self) -> (r: usize)
        ensures
            r == self@.index,
    {
        self.index
    }

    /// Moves the cursor back to `index`.
    pub(crate) fn reset(&mut self, index: usize)
        ensures
            final(self)@ == (TokenStreamView { index: index as nat, ..old(self)@ }),
    {
        self.index = index;
    }
}

} // verus!

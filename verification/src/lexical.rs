//! Lua's lexical rules, stated over the bytes of the text: whitespace, the
//! closing of quoted strings, numerals and reserved words.

use vstd::prelude::*;

use crate::laws::lemma_string_ends;
use crate::parse::{Outcome, ParsingError};
use crate::token;
use crate::token::{QuoteType, Token};
use crate::tokenize::{
    at, in_class, is_keyword, keyword_prefix, keyword_token, lemma_scan_end, scan_end, skip_ws,
    sp, spec_next_token, spec_number, spec_string, starts, string_body, symbol_token, ByteClass,
};
use crate::Span;

verus! {

/// ASCII whitespace: space, tab, line feed, form feed and carriage return.
pub open spec fn is_ascii_whitespace(c: u8) -> bool {
    c == 32 || c == 9 || c == 10 || c == 12 || c == 13
}

/// A decimal digit.
pub open spec fn is_decimal(c: u8) -> bool {
    48 <= c <= 57
}

/// A hexadecimal digit.
pub open spec fn is_hexadecimal(c: u8) -> bool {
    48 <= c <= 57 || 97 <= c <= 102 || 65 <= c <= 70
}

/// The bytes from `a` up to `e` are all decimal digits, and the one at `e`
/// (if any) is not.
pub open spec fn decimal_run(b: Seq<u8>, a: nat, e: nat) -> bool {
    &&& a <= e <= b.len()
    &&& forall|k: int| a <= k < e ==> is_decimal(#[trigger] b[k])
    &&& e < b.len() ==> !is_decimal(b[e as int])
}

/// The bytes from `a` up to `e` are all hexadecimal digits, and the one at
/// `e` (if any) is not.
pub open spec fn hex_run(b: Seq<u8>, a: nat, e: nat) -> bool {
    &&& a <= e <= b.len()
    &&& forall|k: int| a <= k < e ==> is_hexadecimal(#[trigger] b[k])
    &&& e < b.len() ==> !is_hexadecimal(b[e as int])
}

/// The bytes from `a` up to `e` are all signs, `+` or `-`.
pub open spec fn sign_run(b: Seq<u8>, a: nat, e: nat) -> bool {
    &&& a <= e <= b.len()
    &&& forall|k: int| a <= k < e ==> #[trigger] b[k] == 43 || b[k] == 45
}

/// Byte `p` of a string's contents, which begin at `inner`, is escaped: a
/// backslash that is not escaped itself stands right before it.
pub open spec fn escaped(b: Seq<u8>, inner: nat, p: nat) -> bool
    decreases p,
{
    if inner < p && p <= b.len() {
        b[p - 1] == 92 && !escaped(b, inner, (p - 1) as nat)
    } else {
        false
    }
}

/// The byte that opens and closes a quoted string.
pub open spec fn quote_byte(q: QuoteType) -> u8 {
    if q is Double {
        34
    } else {
        39
    }
}

/// Where a scan stops is the first position without a byte of the class.
proof fn lemma_scan_end_at(b: Seq<u8>, a: nat, e: nat, cls: ByteClass)
    requires
        a <= e <= b.len(),
        forall|k: int| a <= k < e ==> in_class(#[trigger] b[k], cls),
        e < b.len() ==> !in_class(b[e as int], cls),
    ensures
        scan_end(b, a, cls) == e,
    decreases e - a,
{
    if a < e {
        lemma_scan_end_at(b, a + 1, e, cls);
    }
}

// ------------------------------------------------------------------ whitespace

/// Skipping whitespace stops at no whitespace byte: where it ends, the text
/// has ended or a byte other than ASCII whitespace stands.
pub proof fn whitespace_is_skipped(b: Seq<u8>, i: nat)
    requires
        i <= b.len(),
    ensures
        skip_ws(b, i) matches Outcome::Returns(Ok(_), j) ==> j == b.len() || (j < b.len()
            && !is_ascii_whitespace(b[j as int])),
    decreases b.len() - i,
{
    let j = scan_end(b, i, ByteClass::Space);
    lemma_scan_end(b, i, ByteClass::Space);
    if j < b.len() && starts(b, j as int, seq!['-' as u8, '-' as u8]) {
        let p = j + 2;
        if at(b, p as int, '[' as u8) && at(
            b,
            scan_end(b, p + 1, ByteClass::EqualSign) as int,
            '[' as u8,
        ) {
            lemma_string_ends(b, p);
            if let Outcome::Returns(Ok(_), k) = spec_string(b, p) {
                if i < k <= b.len() {
                    whitespace_is_skipped(b, k);
                }
            }
        } else {
            lemma_scan_end(b, p, ByteClass::NotNewline);
            let n = scan_end(b, p, ByteClass::NotNewline);
            if i < n <= b.len() {
                whitespace_is_skipped(b, n);
            }
        }
    }
}

// ------------------------------------------------------------------ strings

proof fn lemma_quoted_body(b: Seq<u8>, start: nat, q: QuoteType, p: nat, esc: bool)
    requires
        !(q is Bracketed),
        b.len() <= usize::MAX,
        start + 1 <= p <= b.len(),
        b[start as int] == quote_byte(q),
        esc == escaped(b, start + 1, p),
        forall|r: nat|
            start + 1 <= r < p ==> !(b[r as int] == quote_byte(q) && !#[trigger] escaped(
                b,
                start + 1,
                r,
            )),
    ensures
        string_body(b, start, start + 1, q, p, esc) matches Outcome::Returns(Ok(s), k) ==> {
            &&& s.quote_type == q
            &&& s.start_span.start == start && s.inner_span.start == start + 1
            &&& s.inner_span.end == s.end_span.start && s.end_span.end == k
            &&& k == s.end_span.start + 1 && k <= b.len()
            &&& b[s.end_span.start as int] == quote_byte(q)
            &&& !escaped(b, start + 1, s.end_span.start as nat)
            &&& forall|r: nat|
                start + 1 <= r < s.end_span.start ==> !(b[r as int] == quote_byte(q)
                    && !#[trigger] escaped(b, start + 1, r))
        },
        (exists|r: nat|
            p <= r < b.len() && b[r as int] == quote_byte(q) && !#[trigger] escaped(
                b,
                start + 1,
                r,
            )) ==> string_body(b, start, start + 1, q, p, esc) is Returns && string_body(
            b,
            start,
            start + 1,
            q,
            p,
            esc,
        )->0 is Ok,
    decreases b.len() - p,
{
    if p < b.len() {
        assert(escaped(b, start + 1, p + 1) == (b[p as int] == 92 && !escaped(b, start + 1, p)));
        if esc {
            lemma_quoted_body(b, start, q, p + 1, false);
        } else if b[p as int] == 92 {
            lemma_quoted_body(b, start, q, p + 1, true);
        } else if b[p as int] != quote_byte(q) {
            lemma_quoted_body(b, start, q, p + 1, false);
        }
    }
}

/// A quoted string closes at the first byte that is its quote and is not
/// escaped, and only there: its contents hold no unescaped quote of its kind
/// and any other byte (a double-quoted string may hold `'`, and the other way
/// round). Where such a quote follows, the string tokenizes.
pub proof fn quoted_strings_close_at_their_quote(b: Seq<u8>, i: nat, q: QuoteType)
    requires
        !(q is Bracketed),
        b.len() <= usize::MAX,
        i < b.len(),
        b[i as int] == quote_byte(q),
    ensures
        spec_string(b, i) matches Outcome::Returns(Ok(s), k) ==> {
            &&& s.quote_type == q
            &&& s.start_span.start == i && s.inner_span.start == i + 1
            &&& s.inner_span.end == s.end_span.start && s.end_span.end == k
            &&& k == s.end_span.start + 1
            &&& b[s.end_span.start as int] == quote_byte(q)
            &&& !escaped(b, i + 1, s.end_span.start as nat)
            &&& forall|r: nat|
                i + 1 <= r < s.end_span.start ==> !(b[r as int] == quote_byte(q)
                    && !#[trigger] escaped(b, i + 1, r))
        },
        (exists|r: nat|
            i + 1 <= r < b.len() && b[r as int] == quote_byte(q) && !#[trigger] escaped(
                b,
                i + 1,
                r,
            )) ==> spec_string(b, i) is Returns && spec_string(b, i)->0 is Ok,
{
    lemma_quoted_body(b, i, q, i + 1, false);
}

// ------------------------------------------------------------------ numerals

/// A decimal numeral with an exponent and no point, such as `1e6`: digits,
/// `e` or `E`, signs, digits. It is one number up to its last digit.
pub proof fn decimal_exponent_numerals(b: Seq<u8>, i: nat, q: nat, s: nat, d: nat)
    requires
        i < q,
        decimal_run(b, i, q),
        q < b.len(),
        b[q as int] == 101 || b[q as int] == 69,
        sign_run(b, q + 1, s),
        s < d,
        decimal_run(b, s, d),
    ensures
        spec_number(b, i) == Ok::<nat, ParsingError>(d),
{
    lemma_scan_end_at(b, i, q, ByteClass::Digit);
    lemma_scan_end_at(b, q + 1, s, ByteClass::Sign);
    lemma_scan_end_at(b, s, d, ByteClass::Digit);
}

/// A decimal numeral with a point and an exponent, such as `1.5e3` or `.5E-2`:
/// digits, a point, digits (a digit on at least one side), `e` or `E`, signs,
/// digits. It is one number up to its last digit.
pub proof fn decimal_point_exponent_numerals(
    b: Seq<u8>,
    i: nat,
    q: nat,
    r: nat,
    s: nat,
    d: nat,
)
    requires
        decimal_run(b, i, q),
        q < b.len(),
        b[q as int] == 46,
        decimal_run(b, q + 1, r),
        i < q || q + 1 < r,
        r < b.len(),
        b[r as int] == 101 || b[r as int] == 69,
        sign_run(b, r + 1, s),
        s < d,
        decimal_run(b, s, d),
    ensures
        spec_number(b, i) == Ok::<nat, ParsingError>(d),
{
    lemma_scan_end_at(b, i, q, ByteClass::Digit);
    lemma_scan_end_at(b, q + 1, r, ByteClass::Digit);
    lemma_scan_end_at(b, r + 1, s, ByteClass::Sign);
    lemma_scan_end_at(b, s, d, ByteClass::Digit);
}

/// A decimal numeral without an exponent: digits, and optionally a point and
/// more digits (a digit on at least one side). It is one number up to its
/// last digit or its point. (`0x` and `0X` begin a hexadecimal numeral.)
pub proof fn decimal_plain_numerals(b: Seq<u8>, i: nat, q: nat, r: nat)
    requires
        !(b[i as int] == 48 && i + 1 < b.len() && (b[i + 1int] == 120 || b[i + 1int] == 88)),
        decimal_run(b, i, q),
        q < b.len() && b[q as int] == 46 ==> decimal_run(b, q + 1, r) && (i < q || q + 1 < r),
        !(q < b.len() && b[q as int] == 46) ==> r == q && i < q,
        r < b.len() ==> b[r as int] != 101 && b[r as int] != 69,
    ensures
        spec_number(b, i) == Ok::<nat, ParsingError>(r),
{
    lemma_scan_end_at(b, i, q, ByteClass::Digit);
    if q < b.len() && b[q as int] == 46 {
        lemma_scan_end_at(b, q + 1, r, ByteClass::Digit);
    }
}

/// A hexadecimal numeral with an exponent, such as `0x1P4` or `0xA.8p-1`:
/// `0x` or `0X`, hexadecimal digits with an optional point (a digit on at
/// least one side), `p` or `P`, signs, digits. It is one number up to its
/// last digit.
pub proof fn hexadecimal_exponent_numerals(
    b: Seq<u8>,
    i: nat,
    q: nat,
    r: nat,
    s: nat,
    d: nat,
)
    requires
        i + 2 <= b.len(),
        b[i as int] == 48,
        b[i + 1int] == 120 || b[i + 1int] == 88,
        hex_run(b, i + 2, q),
        q < b.len() && b[q as int] == 46 ==> hex_run(b, q + 1, r) && (i + 2 < q || q + 1 < r),
        !(q < b.len() && b[q as int] == 46) ==> r == q && i + 2 < q,
        r < b.len(),
        b[r as int] == 112 || b[r as int] == 80,
        sign_run(b, r + 1, s),
        s < d,
        hex_run(b, s, d),
    ensures
        spec_number(b, i) == Ok::<nat, ParsingError>(d),
{
    assert(starts(b, i as int, seq!['0' as u8, 'x' as u8]) || starts(
        b,
        i as int,
        seq!['0' as u8, 'X' as u8],
    )) by {
        if b[i + 1int] == 120 {
            assert(b.subrange(i as int, i + 2int) =~= seq!['0' as u8, 'x' as u8]);
        } else {
            assert(b.subrange(i as int, i + 2int) =~= seq!['0' as u8, 'X' as u8]);
        }
    }
    lemma_scan_end_at(b, i + 2, q, ByteClass::HexDigit);
    if q < b.len() && b[q as int] == 46 {
        lemma_scan_end_at(b, q + 1, r, ByteClass::HexDigit);
    }
    lemma_scan_end_at(b, r + 1, s, ByteClass::Sign);
    lemma_scan_end_at(b, s, d, ByteClass::HexDigit);
}

// ------------------------------------------------------------------ words

/// The keyword token that word `w` is, with span `s`: Lua's reserved words
/// are `and`, `break`, `do`, `else`, `elseif`, `end`, `false`, `for`,
/// `function`, `goto`, `if`, `in`, `local`, `nil`, `not`, `or`, `repeat`,
/// `return`, `then`, `true`, `until` and `while`; any other word is none.
pub open spec fn reserved_word_token(w: Seq<u8>, s: Span) -> Option<Token> {
    if w =~= seq![97u8, 110u8, 100u8] {
        // `and`
        Some(Token::And(token::And { span: s }))
    } else if w =~= seq![98u8, 114u8, 101u8, 97u8, 107u8] {
        // `break`
        Some(Token::Break(token::Break { span: s }))
    } else if w =~= seq![100u8, 111u8] {
        // `do`
        Some(Token::Do(token::Do { span: s }))
    } else if w =~= seq![101u8, 108u8, 115u8, 101u8] {
        // `else`
        Some(Token::Else(token::Else { span: s }))
    } else if w =~= seq![101u8, 108u8, 115u8, 101u8, 105u8, 102u8] {
        // `elseif`
        Some(Token::ElseIf(token::ElseIf { span: s }))
    } else if w =~= seq![101u8, 110u8, 100u8] {
        // `end`
        Some(Token::End(token::End { span: s }))
    } else if w =~= seq![102u8, 97u8, 108u8, 115u8, 101u8] {
        // `false`
        Some(Token::False(token::False { span: s }))
    } else if w =~= seq![102u8, 111u8, 114u8] {
        // `for`
        Some(Token::For(token::For { span: s }))
    } else if w =~= seq![102u8, 117u8, 110u8, 99u8, 116u8, 105u8, 111u8, 110u8] {
        // `function`
        Some(Token::Function(token::Function { span: s }))
    } else if w =~= seq![103u8, 111u8, 116u8, 111u8] {
        // `goto`
        Some(Token::Goto(token::Goto { span: s }))
    } else if w =~= seq![105u8, 102u8] {
        // `if`
        Some(Token::If(token::If { span: s }))
    } else if w =~= seq![105u8, 110u8] {
        // `in`
        Some(Token::In(token::In { span: s }))
    } else if w =~= seq![108u8, 111u8, 99u8, 97u8, 108u8] {
        // `local`
        Some(Token::Local(token::Local { span: s }))
    } else if w =~= seq![110u8, 105u8, 108u8] {
        // `nil`
        Some(Token::Nil(token::Nil { span: s }))
    } else if w =~= seq![110u8, 111u8, 116u8] {
        // `not`
        Some(Token::Not(token::Not { span: s }))
    } else if w =~= seq![111u8, 114u8] {
        // `or`
        Some(Token::Or(token::Or { span: s }))
    } else if w =~= seq![114u8, 101u8, 112u8, 101u8, 97u8, 116u8] {
        // `repeat`
        Some(Token::Repeat(token::Repeat { span: s }))
    } else if w =~= seq![114u8, 101u8, 116u8, 117u8, 114u8, 110u8] {
        // `return`
        Some(Token::Return(token::Return { span: s }))
    } else if w =~= seq![116u8, 104u8, 101u8, 110u8] {
        // `then`
        Some(Token::Then(token::Then { span: s }))
    } else if w =~= seq![116u8, 114u8, 117u8, 101u8] {
        // `true`
        Some(Token::True(token::True { span: s }))
    } else if w =~= seq![117u8, 110u8, 116u8, 105u8, 108u8] {
        // `until`
        Some(Token::Until(token::Until { span: s }))
    } else if w =~= seq![119u8, 104u8, 105u8, 108u8, 101u8] {
        // `while`
        Some(Token::While(token::While { span: s }))
    } else {
        None
    }
}

/// A word character: an ASCII letter, digit or `_`.
pub open spec fn is_word_byte(c: u8) -> bool {
    48 <= c <= 57 || 65 <= c <= 90 || 97 <= c <= 122 || c == 95
}

/// The bytes from `a` up to `e` are all word characters, and the one at `e`
/// (if any) is not.
pub open spec fn word_run(b: Seq<u8>, a: nat, e: nat) -> bool {
    &&& a <= e <= b.len()
    &&& forall|k: int| a <= k < e ==> is_word_byte(#[trigger] b[k])
    &&& e < b.len() ==> !is_word_byte(b[e as int])
}

#[verifier::spinoff_prover]
#[verifier::rlimit(100)]
proof fn lemma_keyword_token_is_reserved(b: Seq<u8>, i: nat, e: nat)
    requires
        b.len() <= usize::MAX,
        i < e,
        word_run(b, i, e),
    ensures
        keyword_token(b, i) == match reserved_word_token(b.subrange(i as int, e as int), sp(i, e)) {
            Some(t) => Some((t, e)),
            None => None::<(Token, nat)>,
        },
{
    reveal(keyword_prefix);
    lemma_scan_end_at(b, i, e, ByteClass::Word);
    let w = b.subrange(i as int, e as int);
    assert(w.len() == e - i);
    assert forall|j: int| 0 <= j < w.len() implies #[trigger] w[j] == b[i + j] by {}
}

/// Each word tokenizes as a whole: a word that is one of Lua's reserved words
/// is its keyword token, and any other word is a name. So no name spells a
/// reserved word, and no keyword is the start of a longer word.
#[verifier::spinoff_prover]
#[verifier::rlimit(100)]
pub proof fn words_are_keywords_or_names(b: Seq<u8>, i: nat, e: nat)
    requires
        b.len() <= usize::MAX,
        i < e,
        word_run(b, i, e),
        !is_decimal(b[i as int]),
    ensures
        spec_next_token(b, i) == match reserved_word_token(b.subrange(i as int, e as int), sp(i, e)) {
            Some(t) => Outcome::Returns(Ok::<Token, ParsingError>(t), e),
            None => Outcome::Returns(Ok(Token::Name(token::Name { span: sp(i, e) })), e),
        },
{
    reveal(spec_next_token);
    reveal(symbol_token);
    reveal(is_keyword);
    lemma_keyword_token_is_reserved(b, i, e);
    lemma_scan_end_at(b, i, e, ByteClass::Word);
    lemma_scan_end_at(b, i, i, ByteClass::Digit);
    let w = b.subrange(i as int, e as int);
    assert(w.len() == e - i);
    assert forall|j: int| 0 <= j < w.len() implies #[trigger] w[j] == b[i + j] by {}
    assert forall|p: Seq<u8>| #[trigger] starts(b, i as int, p) && p.len() > 0 implies b[i as int]
        == p[0] by {
        assert(b.subrange(i as int, i + p.len() as int)[0] == b[i as int]);
    }
}

} // verus!

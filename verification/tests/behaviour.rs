use luasyn::element::{
    BinaryOperand, Chunk, Exp, ExpAtom, ExpLiteral, FunctionName, Separated, SeparatedTrailing,
    StBlock, Statement, TableConstructor, UnaryOperand,
};
use luasyn::parse::{Parseable, ParsingError};
use luasyn::token::{Comma, Do, End, LiteralString, Name, QuoteType, Token, EOF};
use luasyn::tokenize::TokenStream;
use luasyn::Span;

fn stream(source: &str) -> TokenStream {
    TokenStream::parse(source).expect("tokenizing failed")
}

fn number_at(e: &Exp, start: usize) -> bool {
    matches!(e, Exp::Atom(ExpAtom::Literal(ExpLiteral::Number(n))) if n.span.start == start)
}

#[test]
fn span_new_keeps_bounds() {
    let s = Span::new(3, 7);
    assert_eq!(s.start, 3);
    assert_eq!(s.end, 7);
    assert_eq!(Span::new(5, 5), Span { start: 5, end: 5 });
}

#[test]
fn error_reads_with_index_and_message() {
    let e = ParsingError::new(12, "expected Statement");
    assert_eq!(e.index, 12);
    assert_eq!(e.to_string(), "parsing error at index 12: expected Statement");
    assert_eq!(ParsingError::new(0, "x").to_string(), "parsing error at index 0: x");
    assert_eq!(
        ParsingError::new(1907, "invalid token").to_string(),
        "parsing error at index 1907: invalid token"
    );
}

#[test]
fn tokens_end_with_one_eof() {
    let s = stream("local x = 10");
    let toks = s.tokens();
    assert_eq!(toks.len(), 5);
    assert!(matches!(toks[0], Token::Local(_)));
    assert!(matches!(toks[1], Token::Name(_)));
    assert!(matches!(toks[2], Token::Equal(_)));
    assert!(matches!(toks[3], Token::LiteralNumber(_)));
    assert!(matches!(toks[4], Token::EOF(_)));
    assert_eq!(toks[4].span(), Span::new(12, 12));
    assert_eq!(toks[1].span(), Span::new(6, 7));
    assert_eq!(stream("").tokens().len(), 1);
    assert_eq!(stream("  -- only a comment").tokens().len(), 1);
}

#[test]
fn peek_past_the_end_gives_eof() {
    let mut s = stream("a b");
    assert_eq!(s.char_index(), 0);
    assert!(matches!(s.peek(1), Token::Name(Name { span: Span { start: 2, end: 3 } })));
    assert!(matches!(s.peek(5), Token::EOF(_)));
    s.skip(1);
    assert_eq!(s.char_index(), 2);
    s.skip(4);
    assert!(matches!(s.peek(0), Token::EOF(_)));
    assert_eq!(s.char_index(), 3);
}

#[test]
fn keywords_match_whole_words_and_symbols_longest_first() {
    let s = stream("double .. index == a... do");
    let toks = s.tokens();
    assert!(matches!(toks[0], Token::Name(Name { span: Span { start: 0, end: 6 } })));
    assert!(matches!(toks[1], Token::DoubleDot(_)));
    assert!(matches!(toks[2], Token::Name(Name { span: Span { start: 10, end: 15 } })));
    assert!(matches!(toks[3], Token::DoubleEqual(_)));
    assert!(matches!(toks[4], Token::Name(_)));
    assert!(matches!(toks[5], Token::Ellipses(_)));
    assert!(matches!(toks[6], Token::Do(_)));
    assert!(matches!(toks[7], Token::EOF(_)));
    let s = stream("a == b ~= c <= d >= e :: f // g << h >> i");
    let kinds: Vec<bool> = vec![
        matches!(s.tokens()[1], Token::DoubleEqual(_)),
        matches!(s.tokens()[3], Token::TildeEqual(_)),
        matches!(s.tokens()[5], Token::LessEqual(_)),
        matches!(s.tokens()[7], Token::GreaterEqual(_)),
        matches!(s.tokens()[9], Token::DoubleColon(_)),
        matches!(s.tokens()[11], Token::DoubleSlash(_)),
        matches!(s.tokens()[13], Token::DoubleLess(_)),
        matches!(s.tokens()[15], Token::DoubleGreater(_)),
    ];
    assert!(kinds.iter().all(|k| *k));
    assert_eq!(s.tokens().len(), 18);
}

#[test]
fn numbers_need_a_mantissa_digit() {
    let s = stream(".e+");
    assert!(matches!(s.tokens()[0], Token::Dot(_)));
    assert!(matches!(s.tokens()[1], Token::Name(_)));
    let s = stream("e5");
    assert!(matches!(s.tokens()[0], Token::Name(Name { span: Span { start: 0, end: 2 } })));
    let s = stream("0x1P4");
    assert_eq!(s.tokens().len(), 2);
    assert_eq!(s.tokens()[0].span(), Span::new(0, 5));
    let s = stream("3.e2 .5");
    assert_eq!(s.tokens()[0].span(), Span::new(0, 4));
    assert_eq!(s.tokens()[1].span(), Span::new(5, 7));
}

#[test]
fn string_spans() {
    let s = stream("'ab'");
    match s.tokens()[0] {
        Token::LiteralString(l) => {
            assert_eq!(l.quote_type, QuoteType::Single);
            assert_eq!(l.inner_span, Span::new(1, 3));
            assert_eq!(l.full_span(), Span::new(0, 4));
        },
        _ => panic!("not a string"),
    }
    let s = stream("[==[x]==]");
    match s.tokens()[0] {
        Token::LiteralString(LiteralString { quote_type, inner_span, .. }) => {
            assert_eq!(quote_type, QuoteType::Bracketed { eq_count: 2 });
            assert_eq!(inner_span, Span::new(4, 5));
        },
        _ => panic!("not a string"),
    }
}

#[test]
fn tokenizer_errors() {
    let e = TokenStream::parse("$").unwrap_err();
    assert_eq!(e.index, 0);
    assert_eq!(e.message, "invalid token");
    let e = TokenStream::parse("x = 1 @").unwrap_err();
    assert_eq!(e.index, 6);
    assert_eq!(e.message, "invalid token");
    let e = TokenStream::parse("x --[[abc").unwrap_err();
    assert_eq!(e.message, "reached EOF before finding end of string");
    let e = TokenStream::parse("'abc").unwrap_err();
    assert_eq!(e.index, 0);
    assert_eq!(e.message, "invalid token");
}

#[test]
fn comments() {
    let s = stream("--[ only a line\nx --[=[ long ]=] y --[=x\nz");
    let toks = s.tokens();
    assert_eq!(toks.len(), 4);
    assert_eq!(toks[0].span(), Span::new(16, 17));
    assert_eq!(toks[1].span(), Span::new(33, 34));
    assert_eq!(toks[2].span(), Span::new(41, 42));
}

#[test]
fn strings_may_hold_any_text() {
    let s = stream("x = '\u{e9}t\u{e9}' .. [[\u{4e2d}\u{6587}]]");
    let toks = s.tokens();
    assert_eq!(toks.len(), 6);
    match toks[2] {
        Token::LiteralString(l) => assert_eq!(l.full_span(), Span::new(4, 11)),
        _ => panic!("not a string"),
    }
    assert!(matches!(toks[4], Token::LiteralString(_)));
}

#[test]
fn option_parse_never_fails() {
    let mut s = stream("+");
    let r = Option::<Exp>::parse(&mut s).expect("an option never fails");
    assert!(r.is_none());
    assert_eq!(s.char_index(), 0);
    let mut s = stream("x");
    assert!(Option::<Name>::parse(&mut s).unwrap().is_some());
    assert!(matches!(s.peek(0), Token::EOF(_)));
}

#[test]
fn chunk_parse_never_fails() {
    let mut s = stream("+ + )");
    let c = Chunk::parse(&mut s).expect("a chunk never fails");
    assert!(c.statements.is_empty());
    assert!(c.last_statement.is_none());
    assert_eq!(s.char_index(), 0);
}

#[test]
fn chunk_reads_statements() {
    let mut s = stream("do end; goto l ::l:: break");
    let c = Chunk::parse(&mut s).unwrap();
    assert_eq!(c.statements.len(), 4);
    assert!(matches!(c.statements[0].0, Statement::Block(_)));
    assert!(c.statements[0].1.is_some());
    assert!(matches!(c.statements[1].0, Statement::Goto(_)));
    assert!(matches!(c.statements[2].0, Statement::Label(_)));
    assert!(matches!(c.statements[3].0, Statement::Break(_)));
    assert!(matches!(s.peek(0), Token::EOF(_)));
}

#[test]
fn failed_struct_parse_restores_cursor() {
    let mut s = stream("do x");
    let e = StBlock::parse(&mut s).unwrap_err();
    assert_eq!(e.message, "expected token End");
    assert_eq!(e.index, 3);
    assert_eq!(s.char_index(), 0);
    assert!(matches!(s.peek(0), Token::Do(_)));
}

#[test]
fn failed_enum_parse_names_the_enum() {
    let mut s = stream("  +");
    let e = Statement::parse(&mut s).unwrap_err();
    assert_eq!(e.message, "expected Statement");
    assert_eq!(e.index, 2);
    assert_eq!(s.char_index(), 2);
    let mut s = stream("=");
    let e = BinaryOperand::parse(&mut s).unwrap_err();
    assert_eq!(e.message, "expected BinaryOperand");
    let e = Name::parse(&mut s).unwrap_err();
    assert_eq!(e.message, "expected token Name");
    assert_eq!(e.index, 0);
}

#[test]
fn trailing_list_ends_after_last_item() {
    let mut s = stream("a, b c");
    let l = SeparatedTrailing::<Name, Comma>::parse(&mut s).unwrap();
    assert_eq!(l.list.len(), 1);
    assert_eq!(l.last.span, Span::new(3, 4));
    assert_eq!(s.char_index(), 5);
}

#[test]
fn separated_list_takes_its_last_item() {
    let mut s = stream("a, b c");
    match Separated::<Name, Comma>::parse(&mut s).unwrap() {
        Separated::Trailing(t) => {
            assert_eq!(t.list.len(), 1);
            assert_eq!(t.last.span, Span::new(3, 4));
        },
        Separated::NoTrailing(_) => panic!("expected a trailing item"),
    }
    assert_eq!(s.char_index(), 5);
    let mut s = stream("a, b,");
    match Separated::<Name, Comma>::parse(&mut s).unwrap() {
        Separated::NoTrailing(n) => assert_eq!(n.list.len(), 2),
        Separated::Trailing(_) => panic!("expected no trailing item"),
    }
    assert!(matches!(s.peek(0), Token::EOF(_)));
}

#[test]
fn list_parse_never_fails() {
    let mut s = stream("a b c ,");
    let v = Vec::<Name>::parse(&mut s).unwrap();
    assert_eq!(v.len(), 3);
    assert!(matches!(s.peek(0), Token::Comma(_)));
    let mut s = stream(",");
    assert!(Vec::<Name>::parse(&mut s).unwrap().is_empty());
    assert_eq!(s.char_index(), 0);
}

#[test]
fn tables_with_and_without_a_last_separator() {
    let mut s = stream("{1,}");
    let t = TableConstructor::parse(&mut s).unwrap();
    assert!(matches!(t.fields, Separated::NoTrailing(ref n) if n.list.len() == 1));
    let mut s = stream("{1; 2}");
    let t = TableConstructor::parse(&mut s).unwrap();
    assert!(matches!(t.fields, Separated::Trailing(ref n) if n.list.len() == 1));
    assert!(matches!(s.peek(0), Token::EOF(_)));
    let mut s = stream("{1 2}");
    let e = TableConstructor::parse(&mut s).unwrap_err();
    assert_eq!(e.message, "expected token CloseBrace");
    assert_eq!(e.index, 3);
    assert_eq!(s.char_index(), 0);
}

#[test]
fn function_name_path() {
    let mut s = stream("a.b:c (");
    let f = FunctionName::parse(&mut s).unwrap();
    assert_eq!(f.path.list.len(), 1);
    assert_eq!(f.path.last.span, Span::new(2, 3));
    assert!(matches!(f.suffix, Some((_, Name { span: Span { start: 4, end: 5 } }))));
    assert_eq!(s.char_index(), 6);
}

#[test]
fn local_declarations() {
    let mut s = stream("local x = 1 local y <const>, z");
    let c = Chunk::parse(&mut s).unwrap();
    assert_eq!(c.statements.len(), 2);
    match &c.statements[0].0 {
        Statement::LocalInit(l) => {
            assert!(l.attrnames.last.1.is_none());
            assert!(l.init.is_some());
        },
        _ => panic!("expected a local declaration"),
    }
    match &c.statements[1].0 {
        Statement::LocalInit(l) => {
            assert_eq!(l.attrnames.list.len(), 1);
            assert!(l.attrnames.list[0].0 .1.is_some());
            assert!(l.init.is_none());
        },
        _ => panic!("expected a local declaration"),
    }
    assert!(matches!(s.peek(0), Token::EOF(_)));
}

#[test]
fn unary_minus_binds_looser_than_power() {
    let mut s = stream("-2 ^ 2");
    match Exp::parse(&mut s).unwrap() {
        Exp::Unary(u) => {
            assert!(matches!(u.operand, UnaryOperand::Minus(_)));
            match *u.value {
                Exp::Binary(b) => {
                    assert!(matches!(b.operand, BinaryOperand::Carat(_)));
                    assert!(number_at(&b.left, 1));
                    assert!(number_at(&b.right, 5));
                },
                _ => panic!("expected a power"),
            }
        },
        _ => panic!("expected a negation"),
    }
    assert!(matches!(s.peek(0), Token::EOF(_)));
}

#[test]
fn product_binds_tighter_than_sum() {
    let mut s = stream("1 + 2 * 3");
    match Exp::parse(&mut s).unwrap() {
        Exp::Binary(b) => {
            assert!(matches!(b.operand, BinaryOperand::Plus(_)));
            assert!(number_at(&b.left, 0));
            match *b.right {
                Exp::Binary(r) => {
                    assert!(matches!(r.operand, BinaryOperand::Asterisk(_)));
                    assert!(number_at(&r.left, 4));
                    assert!(number_at(&r.right, 8));
                },
                _ => panic!("expected a product"),
            }
        },
        _ => panic!("expected a sum"),
    }
}

#[test]
fn product_before_sum_groups_first() {
    let mut s = stream("1 * 2 + 3");
    match Exp::parse(&mut s).unwrap() {
        Exp::Binary(b) => {
            assert!(matches!(b.operand, BinaryOperand::Plus(_)));
            assert!(number_at(&b.right, 8));
            match *b.left {
                Exp::Binary(l) => {
                    assert!(matches!(l.operand, BinaryOperand::Asterisk(_)));
                    assert!(number_at(&l.left, 0));
                    assert!(number_at(&l.right, 4));
                },
                _ => panic!("expected a product"),
            }
        },
        _ => panic!("expected a sum"),
    }
}

#[test]
fn unary_operand_of_power() {
    let mut s = stream("2 ^ -3");
    match Exp::parse(&mut s).unwrap() {
        Exp::Binary(b) => {
            assert!(matches!(b.operand, BinaryOperand::Carat(_)));
            assert!(number_at(&b.left, 0));
            assert!(matches!(*b.right, Exp::Unary(ref u) if number_at(&u.value, 5)));
        },
        _ => panic!("expected a power"),
    }
    let mut s = stream("-1 + 2");
    match Exp::parse(&mut s).unwrap() {
        Exp::Binary(b) => {
            assert!(matches!(b.operand, BinaryOperand::Plus(_)));
            assert!(matches!(*b.left, Exp::Unary(ref u) if number_at(&u.value, 1)));
            assert!(number_at(&b.right, 5));
        },
        _ => panic!("expected a sum"),
    }
}

#[test]
fn concatenation_groups_to_the_right() {
    let mut s = stream("1 .. 2 .. 3");
    match Exp::parse(&mut s).unwrap() {
        Exp::Binary(b) => {
            assert!(matches!(b.operand, BinaryOperand::DoubleDot(_)));
            assert!(number_at(&b.left, 0));
            assert!(matches!(*b.right, Exp::Binary(ref r) if number_at(&r.left, 5) && number_at(&r.right, 10)));
        },
        _ => panic!("expected a concatenation"),
    }
}

#[test]
fn comparison_and_logic_levels() {
    let mut s = stream("a < b and c or d");
    match Exp::parse(&mut s).unwrap() {
        Exp::Binary(b) => {
            assert!(matches!(b.operand, BinaryOperand::Or(_)));
            match *b.left {
                Exp::Binary(l) => {
                    assert!(matches!(l.operand, BinaryOperand::And(_)));
                    assert!(matches!(*l.left, Exp::Binary(ref c) if matches!(c.operand, BinaryOperand::Less(_))));
                },
                _ => panic!("expected a conjunction"),
            }
        },
        _ => panic!("expected a disjunction"),
    }
}

#[test]
fn expression_errors() {
    let mut s = stream(")");
    let e = Exp::parse(&mut s).unwrap_err();
    assert_eq!(e.message, "expected ExpAtom");
    assert_eq!(e.index, 0);
    let mut s = stream("- )");
    let e = Exp::parse(&mut s).unwrap_err();
    assert_eq!(e.message, "expected ExpAtom");
    assert_eq!(e.index, 2);
    assert_eq!(s.char_index(), 2);
}

#[test]
fn token_conversions() {
    let d = Do { span: Span::new(0, 2) };
    let t = Token::from(d);
    assert!(matches!(t, Token::Do(Do { span: Span { start: 0, end: 2 } })));
    assert_eq!(Do::try_from(t), Ok(d));
    assert_eq!(End::try_from(t), Err(()));
    let t2: Token = Name { span: Span::new(4, 9) }.into();
    assert_eq!(Name::try_from(t2).map(|n| n.span), Ok(Span::new(4, 9)));
}

#[test]
fn token_spans_follow_the_text() {
    let src = "local t = { [1] = 'a', b = 0x1p4 } -- note\nreturn t .. [[x]]";
    let s = stream(src);
    let toks = s.tokens();
    for w in toks.windows(2) {
        assert!(w[0].span().end <= w[1].span().start, "{:?} overlaps {:?}", w[0], w[1]);
    }
    for t in toks.iter() {
        assert!(t.span().start <= t.span().end && t.span().end <= src.len());
    }
    assert_eq!(toks[toks.len() - 1].span(), Span::new(src.len(), src.len()));
    assert_eq!(toks.iter().filter(|t| matches!(t, Token::EOF(_))).count(), 1);
}

#[test]
fn every_text_tokenizes_without_panic() {
    for c in 0u8..128 {
        let text = format!("x{}y", c as char);
        let _ = TokenStream::parse(&text);
    }
    let all: String = (0u8..128).map(|c| c as char).collect();
    let _ = TokenStream::parse(&all);
    let _ = TokenStream::parse("[==[ unterminated ] ]= ]==");
    let _ = TokenStream::parse("--[[ open comment");
    let _ = TokenStream::parse("x = 'h\u{e9}llo' -- \u{fc}ber");
    let _ = TokenStream::parse("s = [[\u{1F600}]] \u{e9}");
    let _ = TokenStream::parse("'\u{e9}");
    let _ = TokenStream::parse("[=[\u{e9}]");
}

#[test]
fn same_level_operators_group_to_the_left() {
    let mut s = stream("1 + 2 - 3");
    match Exp::parse(&mut s).unwrap() {
        Exp::Binary(b) => {
            assert!(matches!(b.operand, BinaryOperand::Minus(_)));
            assert!(number_at(&b.right, 8));
            match *b.left {
                Exp::Binary(l) => {
                    assert!(matches!(l.operand, BinaryOperand::Plus(_)));
                    assert!(number_at(&l.left, 0));
                    assert!(number_at(&l.right, 4));
                },
                _ => panic!("expected a sum"),
            }
        },
        _ => panic!("expected a difference"),
    }
}

#[test]
fn power_groups_to_the_right() {
    let mut s = stream("2 ^ 3 ^ 4");
    match Exp::parse(&mut s).unwrap() {
        Exp::Binary(b) => {
            assert!(matches!(b.operand, BinaryOperand::Carat(_)));
            assert!(number_at(&b.left, 0));
            assert!(matches!(*b.right, Exp::Binary(ref r) if number_at(&r.left, 4) && number_at(&r.right, 8)));
        },
        _ => panic!("expected a power"),
    }
}

#[test]
fn parses_stop_after_what_they_read() {
    let mut s = stream("1 + 2 * 3 ) x");
    let e = Exp::parse(&mut s).expect("an expression");
    assert!(matches!(e, Exp::Binary(_)));
    assert!(matches!(s.peek(0), Token::CloseParen(_)));
    assert_eq!(s.char_index(), 10);

    let mut s = stream("local a <const> = -1 + 2 return a");
    let c = Chunk::parse(&mut s).expect("a chunk never fails");
    assert_eq!(c.statements.len(), 1);
    assert!(c.last_statement.is_some());
    assert!(matches!(s.peek(0), Token::EOF(_)));
}

#[test]
fn end_of_input_parses_only_at_the_end() {
    let mut s = stream("x");
    let e = EOF::parse(&mut s).unwrap_err();
    assert_eq!(e.index, 0);
    assert_eq!(e.message, "expected token EOF");
    assert!(matches!(s.peek(0), Token::Name(_)));
    s.skip(1);
    let eof = EOF::parse(&mut s).expect("the end of input");
    assert_eq!(eof.span, Span::new(1, 1));
    assert!(matches!(s.peek(0), Token::EOF(_)));
    let again = EOF::parse(&mut s).expect("still the end of input");
    assert_eq!(again.span, Span::new(1, 1));
}

#[test]
fn parsing_past_the_end_does_not_panic() {
    let mut s = stream("x = 1");
    s.skip(10);
    let c = Chunk::parse(&mut s).expect("a chunk never fails");
    assert!(c.statements.is_empty());
    assert!(c.last_statement.is_none());
    let e = Exp::parse(&mut s).unwrap_err();
    assert_eq!(e.index, 5);
    assert!(matches!(s.peek(0), Token::EOF(_)));
}

#[test]
fn copies_are_equal() {
    let mut s = stream("local t = { 1, x = 2; [3] = f(a.b:c 'd') } return -t ^ 2 .. 'x'");
    let c = Chunk::parse(&mut s).expect("a chunk never fails");
    let d = c.clone();
    assert_eq!(format!("{:?}", c), format!("{:?}", d));
    let mut s = stream("1 + 2 * -3");
    let e = Exp::parse(&mut s).expect("an expression");
    assert_eq!(format!("{:?}", e.clone()), format!("{:?}", e));
}

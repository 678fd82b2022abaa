use luasyn::token::Token;
use luasyn::tokenize::TokenStream;

fn number_ok(l: &str) {
    let stream = TokenStream::parse(l).expect(&format!("erroneous failure: {}", l));
    assert!(stream.tokens().len() == 2, "erroneous failure: {} {:?}", l, stream);
}

fn number_rejected(l: &str) {
    let stream = TokenStream::parse(l);
    if let Ok(s) = stream {
        assert!(
            s.tokens().len() > 2 || !matches!(s.tokens()[0], Token::LiteralNumber(_)),
            "erroneous success: {} {:?}",
            l,
            s
        )
    }
}

#[test]
fn parse_numbers() {
    println!("testing...");
    number_ok("000000");
    number_ok("1");
    number_ok("12");
    number_ok("1.2");
    number_ok("123456");
    number_ok("123.4");
    number_rejected("123.4.");
    number_rejected("123.4.5");
    number_rejected("123ABC");
    number_rejected("123p4");
    number_rejected(".4.5");
    number_rejected(".");
    number_ok("1.234");
    number_ok("123.456");
    number_ok("123456.");
    number_ok(".123456");
    number_rejected("e");
    number_rejected("E+");
    number_rejected(".e+");
    number_ok("123.e45");
    number_ok("123.e4");
    number_ok("123.456E7");
    number_ok("123.456e+789");
    number_ok("123.456E-78");
    number_ok("123.456E-7");
    number_ok("0x0000");
    number_ok("0x1234");
    number_ok("0x12AB");
    number_ok("0x123.4");
    number_ok("0x12A.B");
    number_ok("0x123p4");
    number_ok("0x12ApB");
    number_ok("0x123p+4");
    number_ok("0x12Ap-B");
    number_ok("0x1.23P+45");
    number_ok("0x1.2AP+B5");
    number_ok("0x.123p-A5B");
}

fn string_ok(l: &str) {
    println!("testing: {}", l);
    let stream = TokenStream::parse(l).expect(&format!("erroneous failure: {}", l));
    assert!(
        stream.tokens().len() == 2 && matches!(stream.tokens()[0], Token::LiteralString(_)),
        "erroneous failure: {} {:?}",
        l,
        stream
    );
    println!("passed: {}", l);
}

fn string_rejected(l: &str) {
    println!("testing: {}", l);
    let s = TokenStream::parse(l);
    if let Ok(stream) = s {
        assert!(
            !(stream.tokens().len() == 2 && matches!(stream.tokens()[0], Token::LiteralString(_))),
            "erroneous success: {} {:?}",
            l,
            stream
        );
    }
    println!("passed: {}", l);
}

#[test]
fn parse_strings() {
    println!("testing...");
    string_ok(r#" "meow" "#);
    string_ok(r#" 'meow' "#);
    string_rejected(r#" 'meow\' "#);
    string_ok(r#" 'meow\'' "#);
    string_rejected(r#" [meow] "#);
    string_ok(r#"  [[meow]] "#);
    string_rejected(r#" [[meow\]] "#);
    string_ok(r#" [[meow\]==]] "#);
    string_ok(r#" [==[$me[o]w$]==] "#);
    string_rejected(r#" [=[meow]] "#);
    string_ok(r#" [=[meow]=] "#);
    string_rejected(r#" [=[meow]==] "#);
    string_ok(r#" [==[meow]==] "#);
    string_ok(" --\"meow\" \n 'woof' ");
    string_rejected(r#" --"meow" 'woof' "#);
    string_ok(r#" --[[meow]] 'woof' "#);
    string_ok(r#" --[=[meow]=] 'woof' "#);
}

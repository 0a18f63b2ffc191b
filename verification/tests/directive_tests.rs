use spec_attr::directive::{parse_directive, DirToken, GrammarError, SpecStatement};

fn tok_ident(s: &str) -> DirToken {
    DirToken::Ident(s.to_string())
}

fn tok_str(s: &str) -> DirToken {
    DirToken::StrLit(s.to_string())
}

fn valid_shall_tokens() -> Vec<DirToken> {
    vec![
        tok_ident("name"),
        DirToken::EqSign,
        tok_str("a"),
        DirToken::Comma,
        tok_ident("shall"),
        DirToken::EqSign,
        tok_str("return a positive value"),
    ]
}

#[test]
fn shall_statement_text() {
    let st = SpecStatement::Shall("return a positive value".to_string());
    assert_eq!(st.stmt("check"), "`check` shall return a positive value");
}

#[test]
fn cond_statement_text() {
    let st = SpecStatement::Cond("the input is empty, returns zero".to_string());
    assert_eq!(st.stmt("f"), "If `f` the input is empty, returns zero");
}

#[test]
fn default_statement_is_empty_shall() {
    assert_eq!(SpecStatement::default(), SpecStatement::Shall(String::new()));
}

#[test]
fn parse_valid_without_cert() {
    let d = match parse_directive(&valid_shall_tokens()) {
        Ok(d) => d,
        Err(e) => panic!("expected a directive, got {:?}", e),
    };
    assert_eq!(d.name, "a");
    assert_eq!(d.stmt, SpecStatement::Shall("return a positive value".to_string()));
    assert!(d.cert.is_empty());
}

#[test]
fn parse_valid_cond_with_cert() {
    let toks = vec![
        tok_ident("name"),
        DirToken::EqSign,
        tok_str("b"),
        DirToken::Comma,
        tok_ident("cond"),
        DirToken::EqSign,
        tok_str("the input is empty, returns zero"),
        DirToken::Comma,
        tok_ident("cert"),
        DirToken::CertBlock(vec!["assert_eq ! (f (\"\") , 0) ;".to_string()]),
    ];
    let d = match parse_directive(&toks) {
        Ok(d) => d,
        Err(e) => panic!("expected a directive, got {:?}", e),
    };
    assert_eq!(d.name, "b");
    assert_eq!(d.stmt, SpecStatement::Cond("the input is empty, returns zero".to_string()));
    assert_eq!(d.cert, vec!["assert_eq ! (f (\"\") , 0) ;".to_string()]);
}

#[test]
fn parse_empty_input_is_rejected() {
    let r = parse_directive(&Vec::new());
    assert!(matches!(r, Err(GrammarError::Unexpected)));
}

#[test]
fn parse_missing_name_clause() {
    let toks = vec![tok_ident("names"), DirToken::EqSign, tok_str("a")];
    let r = parse_directive(&toks);
    assert!(matches!(r, Err(GrammarError::ExpectedName)));
    assert_eq!(GrammarError::ExpectedName.message(), "Expected spec name");
}

#[test]
fn parse_name_without_equals() {
    let toks = vec![tok_ident("name"), DirToken::Comma, tok_str("a")];
    let r = parse_directive(&toks);
    assert!(matches!(r, Err(GrammarError::ExpectedName)));
}

#[test]
fn parse_name_value_not_a_string() {
    let toks = vec![
        tok_ident("name"),
        DirToken::EqSign,
        DirToken::OtherLit,
        DirToken::Comma,
        tok_ident("shall"),
        DirToken::EqSign,
        tok_str("t"),
    ];
    let r = parse_directive(&toks);
    assert!(matches!(r, Err(GrammarError::NameValue)));
    assert_eq!(GrammarError::NameValue.message(), "Error parsing spec name");
}

#[test]
fn parse_unknown_statement_clause() {
    let toks = vec![
        tok_ident("name"),
        DirToken::EqSign,
        tok_str("a"),
        DirToken::Comma,
        tok_ident("should"),
        DirToken::EqSign,
        tok_str("t"),
    ];
    let r = parse_directive(&toks);
    assert!(matches!(r, Err(GrammarError::ExpectedShallOrCond)));
    assert_eq!(GrammarError::ExpectedShallOrCond.message(), "Expected spec shall or cond");
}

#[test]
fn parse_shall_value_not_a_string() {
    let toks = vec![
        tok_ident("name"),
        DirToken::EqSign,
        tok_str("a"),
        DirToken::Comma,
        tok_ident("shall"),
        DirToken::EqSign,
        DirToken::OtherLit,
    ];
    let r = parse_directive(&toks);
    assert!(matches!(r, Err(GrammarError::ShallValue)));
    assert_eq!(GrammarError::ShallValue.message(), "Error parsing spec shall statement value");
}

#[test]
fn parse_cond_value_not_a_string() {
    let toks = vec![
        tok_ident("name"),
        DirToken::EqSign,
        tok_str("a"),
        DirToken::Comma,
        tok_ident("cond"),
        DirToken::EqSign,
        DirToken::OtherLit,
    ];
    let r = parse_directive(&toks);
    assert!(matches!(r, Err(GrammarError::CondValue)));
    assert_eq!(GrammarError::CondValue.message(), "Error parsing spec cond statement value");
}

#[test]
fn parse_unknown_third_clause() {
    let mut toks = valid_shall_tokens();
    toks.push(DirToken::Comma);
    toks.push(tok_ident("certify"));
    toks.push(DirToken::CertBlock(Vec::new()));
    let r = parse_directive(&toks);
    assert!(matches!(r, Err(GrammarError::ExpectedCert)));
    assert_eq!(GrammarError::ExpectedCert.message(), "Expected spec cert");
}

#[test]
fn parse_cert_without_braced_block() {
    let mut toks = valid_shall_tokens();
    toks.push(DirToken::Comma);
    toks.push(tok_ident("cert"));
    toks.push(DirToken::OtherTok);
    let r = parse_directive(&toks);
    assert!(matches!(r, Err(GrammarError::Unexpected)));
}

#[test]
fn parse_trailing_tokens_are_rejected() {
    let mut toks = valid_shall_tokens();
    toks.push(DirToken::Comma);
    toks.push(tok_ident("cert"));
    toks.push(DirToken::CertBlock(Vec::new()));
    toks.push(DirToken::Comma);
    let r = parse_directive(&toks);
    assert!(matches!(r, Err(GrammarError::Unexpected)));
}

#[test]
fn parse_leading_non_identifier() {
    let toks = vec![DirToken::OtherLit, DirToken::EqSign, tok_str("a")];
    let r = parse_directive(&toks);
    assert!(matches!(r, Err(GrammarError::Unexpected)));
}

use atl::ast::def::Def;
use atl::ast::ident::Ident;
use atl::ast::subtypes::Subtypes;
use atl::ast::ty::Ty;
use atl::ast::ParseError;
use atl::ast::ParseResultExt;
use atl::lexer::Lexer;
use atl::lexer::Token;

#[test]
fn test_parse_error_new_message() {
    let e = ParseError::new("tok".to_owned(), "Ident: expected identifier");
    assert_eq!(
        e.message(),
        "error encountered at token \"tok\" while parsing Ident: expected identifier\n"
    );
}

#[test]
fn test_parse_error_context_appends() {
    let e = ParseError::new("tok".to_owned(), "inner cause").context("outer rule");
    assert_eq!(
        e.message(),
        "error encountered at token \"tok\" while parsing inner cause\n-> while parsing outer rule\n"
    );
}

#[test]
fn test_parse_error_err_and_result_context() {
    let r: Result<(), ParseError> = ParseError::err("t".to_owned(), "cause");
    let r = r.context("wrapped");
    let e = r.unwrap_err();
    assert_eq!(
        e.message(),
        "error encountered at token \"t\" while parsing cause\n-> while parsing wrapped\n"
    );
}

#[test]
fn test_bare_identifier_error_rendering() {
    let lexer = &mut Lexer::new("mytype").unwrap();
    let e = Def::parse(lexer).unwrap_err();
    assert_eq!(
        e.message(),
        "error encountered at token \"mytype\" while parsing \
         Def: expected left bracket or left angle bracket for type definition\n"
    );
}

#[test]
fn test_unmatched_bracket_error_trace() {
    let lexer = &mut Lexer::new("outer[inner[int, bool, char]").unwrap();
    let e = Def::parse(lexer).unwrap_err();
    assert_eq!(
        e.message(),
        "error encountered at token \"]\" while parsing Ident: expected identifier\n\
         -> while parsing Ty: expected identifier\n\
         -> while parsing Subtypes: expected type\n\
         -> while parsing Prod: expected subtypes\n\
         -> while parsing Def: expected type definition\n"
    );
}

#[test]
fn test_keyword_is_not_an_identifier() {
    let lexer = &mut Lexer::new("let").unwrap();
    assert!(Ident::parse(lexer).is_err());
    let lexer = &mut Lexer::new("def").unwrap();
    assert!(Ident::parse(lexer).is_err());
}

#[test]
fn test_reparse_yields_equal_asts() {
    let s = "a[b<d[], e<>>, c[f[], g<>]]";
    let first = Def::parse(&mut Lexer::new(s).unwrap()).unwrap();
    let second = Def::parse(&mut Lexer::new(s).unwrap()).unwrap();
    assert_eq!(first, second);
}

#[test]
fn test_leading_comma_is_tolerated() {
    let lexer = &mut Lexer::new("a<,b>").unwrap();
    let def = Def::parse(lexer).unwrap();
    assert_eq!(
        def,
        Def::Sum(
            Ident("a".to_owned()),
            atl::ast::sum::Sum(Subtypes(vec![Ty::Named(Ident("b".to_owned()))])),
        )
    );
}

#[test]
fn test_missing_comma_is_tolerated() {
    let lexer = &mut Lexer::new("a<b c>").unwrap();
    let def = Def::parse(lexer).unwrap();
    assert_eq!(
        def,
        Def::Sum(
            Ident("a".to_owned()),
            atl::ast::sum::Sum(Subtypes(vec![
                Ty::Named(Ident("b".to_owned())),
                Ty::Named(Ident("c".to_owned())),
            ])),
        )
    );
}

#[test]
fn test_trailing_comma_is_rejected() {
    let lexer = &mut Lexer::new("a<b,>").unwrap();
    assert!(Def::parse(lexer).is_err());
}

#[test]
fn test_mismatched_closing_bracket_is_rejected() {
    let lexer = &mut Lexer::new("a[b>").unwrap();
    assert!(Def::parse(lexer).is_err());
    let lexer = &mut Lexer::new("a<b]").unwrap();
    assert!(Def::parse(lexer).is_err());
}

#[test]
fn test_subtypes_rule_directly() {
    let lexer = &mut Lexer::new("x, y] rest").unwrap();
    let subtypes = Subtypes::parse(lexer, Token::RightBracket).unwrap();
    assert_eq!(
        subtypes,
        Subtypes(vec![
            Ty::Named(Ident("x".to_owned())),
            Ty::Named(Ident("y".to_owned())),
        ])
    );
    assert_eq!(lexer.peek(), Some(Token::Identifier));
}

#[test]
fn test_ty_fallback_keeps_following_token() {
    let lexer = &mut Lexer::new("name, other").unwrap();
    let ty = Ty::parse(lexer).unwrap();
    assert_eq!(ty, Ty::Named(Ident("name".to_owned())));
    assert_eq!(lexer.peek(), Some(Token::Comma));
}

#[test]
fn test_sum_guard_error() {
    let lexer = &mut Lexer::new("[x]").unwrap();
    let e = atl::ast::sum::Sum::parse(lexer).unwrap_err();
    assert_eq!(
        e.message(),
        "error encountered at token \"\" while parsing Sum: expected left angle bracket\n"
    );
}

#[test]
fn test_prod_guard_error() {
    let lexer = &mut Lexer::new("<x>").unwrap();
    assert!(atl::ast::prod::Prod::parse(lexer).is_err());
}

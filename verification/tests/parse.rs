use dirmod::error::Error;
use dirmod::parse::all::{Arg, Args};
use dirmod::parse::arg::ArgCfg;
use dirmod::parse::modifier::Modifier;
use dirmod::parse::module_type::ModuleTypeKw;
use dirmod::parse::priv_vis::PrivVis;
use dirmod::token::{Token, Visibility};

fn ident(s: &str) -> Token {
    Token::Ident(s.to_string())
}

fn restricted(p: &str) -> Token {
    Token::Vis(Visibility::Restricted(p.to_string()))
}

fn names_of(idents: &[dirmod::parse::arg::Name]) -> Vec<String> {
    idents.iter().map(|n| n.text.clone()).collect()
}

#[test]
fn test_arg_default_vis() {
    let tokens = vec![ident("default"), restricted("crate")];
    let (arg, used) = Arg::parse(&tokens, 0).unwrap();
    assert_eq!(used, 2);
    let dv = if let Arg::DefaultVis(dv) = arg {
        dv
    } else {
        panic!("assertion failed: arg matches Arg::DefaultVis");
    };
    assert!(matches!(dv.modifier.vis, PrivVis::Vis(Visibility::Restricted(_))));
    assert!(!dv.modifier.imports);
    assert!(matches!(dv.module_type, ModuleTypeKw::All));
}

#[test]
fn test_arg_special_vis() {
    let tokens = vec![Token::Vis(Visibility::Public), Token::KwUse, ident("foo")];
    let (arg, _) = Arg::parse(&tokens, 0).unwrap();
    let sv = if let Arg::SpecialVis(sv) = arg {
        sv
    } else {
        panic!("assertion failed: arg matches Arg::SpecialVis(_)")
    };
    assert!(matches!(sv.modifier.vis, PrivVis::Vis(Visibility::Public)));
    assert!(sv.modifier.imports);
    assert_eq!(names_of(&sv.idents), vec!["foo".to_string()]);

    let tokens = vec![Token::KwPriv, ident("foo"), Token::Comma, ident("bar")];
    let (arg, _) = Arg::parse(&tokens, 0).unwrap();
    let sv = if let Arg::SpecialVis(sv) = arg {
        sv
    } else {
        panic!("assertion failed: arg matches Arg::SpecialVis(_)")
    };
    assert!(matches!(sv.modifier.vis, PrivVis::Priv));
    assert!(!sv.modifier.imports);
    assert_eq!(names_of(&sv.idents), vec!["foo".to_string(), "bar".to_string()]);
}

#[test]
fn test_arg_except() {
    let tokens = vec![ident("except"), ident("corge"), Token::Comma, ident("grault")];
    let (arg, _) = Arg::parse(&tokens, 0).unwrap();
    let ex = if let Arg::Except(ex) = arg {
        ex
    } else {
        panic!("assertion failed: arg matches Arg::Except(_)")
    };
    assert_eq!(names_of(&ex.idents), vec!["corge", "grault"]);
}

#[test]
fn test_priv_vis() {
    let (pv, used) = PrivVis::parse(&vec![Token::KwPriv], 0);
    assert!(matches!(pv, PrivVis::Priv));
    assert_eq!(used, 1);
    assert_eq!(pv.rendered(), None);

    let (pv, used) = PrivVis::parse(&Vec::new(), 0);
    assert!(matches!(pv, PrivVis::Vis(Visibility::Inherited)));
    assert_eq!(used, 0);
    assert_eq!(pv.rendered(), None);

    let (pv, _) = PrivVis::parse(&vec![Token::Vis(Visibility::Public)], 0);
    assert!(matches!(pv, PrivVis::Vis(Visibility::Public)));
    assert_eq!(pv.rendered(), Some(Visibility::Public));

    let (pv, _) = PrivVis::parse(&vec![restricted("crate")], 0);
    assert!(matches!(pv, PrivVis::Vis(Visibility::Restricted(_))));
    assert_eq!(pv.rendered(), Some(Visibility::Restricted("crate".to_string())));

    let (pv, _) = PrivVis::parse(&vec![restricted("self")], 0);
    assert!(matches!(pv, PrivVis::Vis(Visibility::Restricted(_))));
    assert_eq!(pv.rendered(), Some(Visibility::Restricted("self".to_string())));

    let (pv, _) = PrivVis::parse(&vec![restricted("super")], 0);
    assert!(matches!(pv, PrivVis::Vis(Visibility::Restricted(_))));
    assert_eq!(pv.rendered(), Some(Visibility::Restricted("super".to_string())));
}

#[test]
fn test_parse_modifier() {
    let (m, _) = Modifier::parse(&vec![Token::KwPriv], 0);
    assert!(matches!(m.vis, PrivVis::Priv));
    assert!(!m.imports);

    let (m, _) = Modifier::parse(&vec![Token::KwPriv, Token::KwUse], 0);
    assert!(matches!(m.vis, PrivVis::Priv));
    assert!(m.imports);

    let (m, _) = Modifier::parse(&Vec::new(), 0);
    assert!(matches!(m.vis, PrivVis::Vis(Visibility::Inherited)));
    assert!(!m.imports);

    let (m, _) = Modifier::parse(&vec![Token::KwUse], 0);
    assert!(matches!(m.vis, PrivVis::Vis(Visibility::Inherited)));
    assert!(m.imports);

    let (m, _) = Modifier::parse(&vec![restricted("self")], 0);
    assert!(matches!(m.vis, PrivVis::Vis(Visibility::Restricted(_))));
    assert!(!m.imports);

    let (m, _) = Modifier::parse(&vec![restricted("self"), Token::KwUse], 0);
    assert!(matches!(m.vis, PrivVis::Vis(Visibility::Restricted(_))));
    assert!(m.imports);
}

#[test]
fn test_all_args() {
    let tokens = vec![
        ident("default"),
        restricted("crate"),
        Token::Semi,
        Token::Vis(Visibility::Public),
        Token::KwUse,
        ident("foo"),
        Token::Comma,
        ident("bar"),
        Token::Semi,
        Token::KwPriv,
        ident("qux"),
        Token::Semi,
        ident("except"),
        ident("corge"),
        Token::Comma,
        ident("grault"),
        Token::Semi,
    ];
    let args = Args::parse(&tokens).unwrap();
    let mut args = args.0.into_iter();

    if let Some(Arg::DefaultVis(dv)) = args.next() {
        assert!(matches!(dv.modifier.vis, PrivVis::Vis(Visibility::Restricted(_))));
        assert!(!dv.modifier.imports);
    } else {
        panic!("assertion failed: args.next() matches Some(Arg::DefaultVis(_))");
    }

    if let Some(Arg::SpecialVis(sv)) = args.next() {
        assert!(matches!(sv.modifier.vis, PrivVis::Vis(Visibility::Public)));
        assert!(sv.modifier.imports);
    } else {
        panic!("assertion failed: args.next() matches Some(Arg::SpecialVis(_))");
    }

    if let Some(Arg::SpecialVis(sv)) = args.next() {
        assert!(matches!(sv.modifier.vis, PrivVis::Priv));
        assert!(!sv.modifier.imports);
    } else {
        panic!("assertion failed: args.next() matches Some(Arg::SpecialVis(_))");
    }

    if let Some(Arg::Except(except)) = args.next() {
        assert_eq!(names_of(&except.idents), vec!["corge", "grault"]);
    } else {
        panic!("assertion failed: args.next() matches Some(Arg::Except(_))");
    }

    assert!(args.next().is_none());
}

#[test]
fn test_module_type_scope_keywords() {
    let tokens = vec![ident("default"), ident("file"), Token::Vis(Visibility::Public)];
    let (arg, _) = Arg::parse(&tokens, 0).unwrap();
    if let Arg::DefaultVis(dv) = arg {
        assert!(matches!(dv.module_type, ModuleTypeKw::File));
        assert!(dv.module_type.is_file());
        assert!(!dv.module_type.is_dir());
    } else {
        panic!("expected a default-visibility statement");
    }

    let tokens = vec![ident("default"), ident("dir"), Token::KwPriv];
    let (arg, _) = Arg::parse(&tokens, 0).unwrap();
    if let Arg::DefaultVis(dv) = arg {
        assert!(matches!(dv.module_type, ModuleTypeKw::Dir));
        assert!(!dv.module_type.is_file());
        assert!(dv.module_type.is_dir());
    } else {
        panic!("expected a default-visibility statement");
    }

    assert!(ModuleTypeKw::All.is_file());
    assert!(ModuleTypeKw::All.is_dir());
}

#[test]
fn test_parse_errors_carry_locations() {
    // a bare identifier cannot start a statement
    let tokens = vec![ident("foo")];
    assert_eq!(Args::parse(&tokens), Err(Error::Syntax { loc: 0 }));

    // a missing separator faults at the first unconsumed token
    let tokens = vec![Token::Vis(Visibility::Public), ident("foo"), ident("bar")];
    assert_eq!(Args::parse(&tokens), Err(Error::Syntax { loc: 2 }));

    // an empty name list is rejected at its (missing) first name
    let tokens = vec![Token::KwPriv, Token::Semi, ident("except"), ident("x")];
    assert_eq!(Args::parse(&tokens), Err(Error::Syntax { loc: 1 }));

    // an empty statement between separators is rejected at the separator
    let tokens = vec![Token::Vis(Visibility::Public), ident("a"), Token::Semi, Token::Semi];
    assert_eq!(Args::parse(&tokens), Err(Error::Syntax { loc: 3 }));
}

#[test]
fn test_parse_trailing_separators() {
    // trailing semicolon after the last statement
    let tokens = vec![Token::KwPriv, ident("a"), Token::Semi];
    let args = Args::parse(&tokens).unwrap();
    assert_eq!(args.0.len(), 1);

    // trailing comma in a name list
    let tokens = vec![Token::KwPriv, ident("a"), Token::Comma, Token::Semi];
    let args = Args::parse(&tokens).unwrap();
    assert_eq!(args.0.len(), 1);
    if let Arg::SpecialVis(sv) = &args.0[0] {
        assert_eq!(names_of(&sv.idents), vec!["a"]);
    } else {
        panic!("expected a special-visibility statement");
    }

    // empty input parses to no statements
    assert_eq!(Args::parse(&Vec::new()).unwrap().0.len(), 0);
}

#[test]
fn test_arg_cfg_parse() {
    // bare modifier, no fallback
    let (arg, used) = ArgCfg::parse(&vec![Token::KwPriv], 0).unwrap();
    assert!(matches!(arg.modifier.vis, PrivVis::Priv));
    assert_eq!(arg.error, None);
    assert_eq!(used, 1);

    // fallback marker without message
    let (arg, _) = ArgCfg::parse(&vec![Token::Vis(Visibility::Public), Token::OrOr], 0).unwrap();
    assert_eq!(arg.error, Some(None));

    // fallback marker with custom message
    let tokens = vec![Token::KwUse, Token::OrOr, Token::LitStr("boom".to_string())];
    let (arg, _) = ArgCfg::parse(&tokens, 0).unwrap();
    assert!(arg.modifier.imports);
    assert_eq!(arg.error, Some(Some("boom".to_string())));

    // something other than a string literal after the marker
    let tokens = vec![Token::OrOr, ident("oops")];
    assert_eq!(ArgCfg::parse(&tokens, 0), Err(Error::Syntax { loc: 1 }));
}

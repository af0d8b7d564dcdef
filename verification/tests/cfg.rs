use dirmod::emit::DeclStyle;
use dirmod::entries::{Entry, ModuleType};
use dirmod::error::Error;
use dirmod::imp::{family, feature, os};
use dirmod::token::{Token, Visibility};

fn entry(name: &str, kind: ModuleType) -> Entry {
    Entry { name: name.to_string(), kind }
}

fn two_entries() -> Vec<Entry> {
    vec![entry("a", ModuleType::File), entry("b", ModuleType::Dir)]
}

#[test]
fn conditional_generator_gates_every_entry() {
    // no fallback requested: two gated declarations, distinct conditions,
    // no guard record
    let out = os(&Vec::new(), &two_entries()).unwrap();
    assert_eq!(out.decls.len(), 2);
    let c0 = out.decls[0].condition.clone().unwrap();
    let c1 = out.decls[1].condition.clone().unwrap();
    assert_eq!(c0.flag, "target_os");
    assert_eq!(c0.value, "a");
    assert_eq!(c1.flag, "target_os");
    assert_eq!(c1.value, "b");
    assert_ne!(c0, c1);
    assert!(out.guard.is_none());
    // the built-in modifier is private: no qualifier on the declarations
    assert_eq!(out.decls[0].style, DeclStyle::Plain(None));
}

#[test]
fn fallback_without_message_synthesizes_one() {
    // `pub use ||` -> guard with the synthesized message naming every entry
    let tokens = vec![Token::Vis(Visibility::Public), Token::KwUse, Token::OrOr];
    let out = feature(&tokens, &two_entries()).unwrap();
    assert_eq!(out.decls.len(), 2);
    assert_eq!(out.decls[0].style, DeclStyle::Reexport(Some(Visibility::Public)));
    let guard = out.guard.unwrap();
    assert_eq!(guard.flag, "feature");
    assert_eq!(guard.values, vec!["a".to_string(), "b".to_string()]);
    assert_eq!(guard.message, "feature must be one of \"a\", \"b\"");
    assert!(guard.message.contains("\"a\""));
    assert!(guard.message.contains("\"b\""));
}

#[test]
fn fallback_with_custom_message_keeps_it() {
    let tokens = vec![
        Token::KwPriv,
        Token::OrOr,
        Token::LitStr("Unsupported operating system".to_string()),
    ];
    let out = os(&tokens, &two_entries()).unwrap();
    let guard = out.guard.unwrap();
    assert_eq!(guard.flag, "target_os");
    assert_eq!(guard.message, "Unsupported operating system");
    assert_eq!(guard.values, vec!["a".to_string(), "b".to_string()]);
}

#[test]
fn fallback_message_with_no_entries() {
    let tokens = vec![Token::OrOr];
    let out = family(&tokens, &Vec::new()).unwrap();
    assert_eq!(out.decls.len(), 0);
    let guard = out.guard.unwrap();
    assert_eq!(guard.message, "target_family must be one of \"\"");
}

#[test]
fn repeated_conditional_statement_is_rejected() {
    // a second statement faults at its first token
    let tokens = vec![Token::Vis(Visibility::Public), Token::Semi, Token::KwPriv];
    assert_eq!(os(&tokens, &two_entries()), Err(Error::RepeatedStatement { loc: 2 }));
}

#[test]
fn flag_names_of_the_three_fronts() {
    let entries = vec![entry("x", ModuleType::File)];
    let o = os(&Vec::new(), &entries).unwrap();
    assert_eq!(o.decls[0].condition.clone().unwrap().flag, "target_os");
    let f = family(&Vec::new(), &entries).unwrap();
    assert_eq!(f.decls[0].condition.clone().unwrap().flag, "target_family");
    let t = feature(&Vec::new(), &entries).unwrap();
    assert_eq!(t.decls[0].condition.clone().unwrap().flag, "feature");
    let c = dirmod::imp::cfg(&Vec::new(), &entries, "my_flag").unwrap();
    assert_eq!(c.decls[0].condition.clone().unwrap().flag, "my_flag");
}

#[test]
fn conditional_generator_ignores_no_one() {
    // both kinds of entry are gated, none filtered, none excluded
    let tokens = vec![Token::Vis(Visibility::Public)];
    let out = os(&tokens, &two_entries()).unwrap();
    assert_eq!(out.decls.len(), 2);
    assert_eq!(out.decls[0].name, "a");
    assert_eq!(out.decls[1].name, "b");
    assert_eq!(out.decls[0].style, DeclStyle::Plain(Some(Visibility::Public)));
    assert_eq!(out.decls[1].style, DeclStyle::Plain(Some(Visibility::Public)));
}

#[test]
fn malformed_conditional_configuration_fails() {
    // a name list has no place in the conditional grammar
    let tokens = vec![Token::Vis(Visibility::Public), Token::Ident("foo".to_string())];
    assert_eq!(os(&tokens, &two_entries()), Err(Error::Syntax { loc: 1 }));
}

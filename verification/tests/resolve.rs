use dirmod::emit::{Decl, DeclStyle};
use dirmod::entries::{Entry, ModuleType};
use dirmod::error::Error;
use dirmod::imp::all;
use dirmod::token::{Token, Visibility};

fn ident(s: &str) -> Token {
    Token::Ident(s.to_string())
}

fn entry(name: &str, kind: ModuleType) -> Entry {
    Entry { name: name.to_string(), kind }
}

fn plain(name: &str, vis: Option<Visibility>) -> Decl {
    Decl { name: name.to_string(), style: DeclStyle::Plain(vis), condition: None }
}

#[test]
fn end_to_end_special_and_exclusion() {
    // entries [foo(File), bar(File), qux(Directory)], statements
    // `default priv; pub foo; except qux` -> foo public, bar private, qux gone
    let tokens = vec![
        ident("default"),
        Token::KwPriv,
        Token::Semi,
        Token::Vis(Visibility::Public),
        ident("foo"),
        Token::Semi,
        ident("except"),
        ident("qux"),
    ];
    let entries = vec![
        entry("foo", ModuleType::File),
        entry("bar", ModuleType::File),
        entry("qux", ModuleType::Dir),
    ];
    let decls = all(&tokens, &entries).unwrap();
    assert_eq!(
        decls,
        vec![plain("foo", Some(Visibility::Public)), plain("bar", None)]
    );
}

#[test]
fn resolved_count_drops_excluded_entries() {
    // no conflicts: the output holds one record per entry not excluded
    let tokens = vec![ident("except"), ident("b"), Token::Comma, ident("d")];
    let entries = vec![
        entry("a", ModuleType::File),
        entry("b", ModuleType::File),
        entry("c", ModuleType::Dir),
        entry("d", ModuleType::Dir),
    ];
    let decls = all(&tokens, &entries).unwrap();
    assert_eq!(decls.len(), 2);
    assert_eq!(decls[0].name, "a");
    assert_eq!(decls[1].name, "c");
}

#[test]
fn duplicate_special_visibility_fails_at_second_occurrence() {
    // `pub foo; priv foo` -> the second `foo` (token index 4) is faulted
    let tokens = vec![
        Token::Vis(Visibility::Public),
        ident("foo"),
        Token::Semi,
        Token::KwPriv,
        ident("foo"),
    ];
    let entries = vec![entry("foo", ModuleType::File)];
    assert_eq!(all(&tokens, &entries), Err(Error::MultipleVisibilities { loc: 4 }));

    // the conflict is raised even with no entries at all
    assert_eq!(all(&tokens, &Vec::new()), Err(Error::MultipleVisibilities { loc: 4 }));

    // a repeat inside one name list is a conflict too
    let tokens = vec![Token::Vis(Visibility::Public), ident("x"), Token::Comma, ident("x")];
    assert_eq!(all(&tokens, &Vec::new()), Err(Error::MultipleVisibilities { loc: 3 }));
}

#[test]
fn excluded_with_special_visibility_fails_at_the_statement() {
    // entries [foo], statements `pub foo; except foo` -> conflict at the
    // special-visibility statement (token index 0)
    let tokens = vec![
        Token::Vis(Visibility::Public),
        ident("foo"),
        Token::Semi,
        ident("except"),
        ident("foo"),
    ];
    let entries = vec![entry("foo", ModuleType::File)];
    assert_eq!(all(&tokens, &entries), Err(Error::SpecialButExcluded { loc: 0 }));

    // without an entry of that name, nothing is faulted
    let others = vec![entry("bar", ModuleType::File)];
    let decls = all(&tokens, &others).unwrap();
    assert_eq!(decls, vec![plain("bar", None)]);
}

#[test]
fn default_visibility_scoping() {
    // `default file pub; default dir pub(crate)`: file entries get `pub`,
    // directory entries get `pub(crate)`, a special binding still wins
    let tokens = vec![
        ident("default"),
        ident("file"),
        Token::Vis(Visibility::Public),
        Token::Semi,
        ident("default"),
        ident("dir"),
        Token::Vis(Visibility::Restricted("crate".to_string())),
        Token::Semi,
        Token::KwPriv,
        ident("c"),
    ];
    let entries = vec![
        entry("a", ModuleType::File),
        entry("b", ModuleType::Dir),
        entry("c", ModuleType::File),
    ];
    let decls = all(&tokens, &entries).unwrap();
    assert_eq!(
        decls,
        vec![
            plain("a", Some(Visibility::Public)),
            plain("b", Some(Visibility::Restricted("crate".to_string()))),
            plain("c", None),
        ]
    );
}

#[test]
fn first_default_statement_per_scope_wins() {
    // the second unscoped `default` statement is ignored
    let tokens = vec![
        ident("default"),
        Token::Vis(Visibility::Public),
        Token::Semi,
        ident("default"),
        Token::Vis(Visibility::Restricted("crate".to_string())),
    ];
    let entries = vec![entry("a", ModuleType::File), entry("b", ModuleType::Dir)];
    let decls = all(&tokens, &entries).unwrap();
    assert_eq!(
        decls,
        vec![
            plain("a", Some(Visibility::Public)),
            plain("b", Some(Visibility::Public)),
        ]
    );
}

#[test]
fn reexport_marker_moves_the_visibility_to_the_reexport() {
    let tokens = vec![ident("default"), Token::Vis(Visibility::Public), Token::KwUse];
    let entries = vec![entry("a", ModuleType::File)];
    let decls = all(&tokens, &entries).unwrap();
    assert_eq!(decls.len(), 1);
    assert_eq!(
        decls[0].style,
        DeclStyle::Reexport(Some(Visibility::Public))
    );
}

#[test]
fn resolving_twice_yields_identical_output() {
    let tokens = vec![
        ident("default"),
        Token::Vis(Visibility::Public),
        Token::Semi,
        Token::KwPriv,
        ident("b"),
        Token::Semi,
        ident("except"),
        ident("c"),
    ];
    let entries = vec![
        entry("a", ModuleType::File),
        entry("b", ModuleType::Dir),
        entry("c", ModuleType::File),
    ];
    let first = all(&tokens, &entries);
    let second = all(&tokens, &entries);
    assert_eq!(first, second);
    assert_eq!(first.unwrap().len(), 2);
}

#[test]
fn reexport_without_qualifier_keeps_the_reexport_plain() {
    // `default use`: inherited visibility plus the re-export marker
    let tokens = vec![ident("default"), Token::KwUse];
    let entries = vec![entry("a", ModuleType::File)];
    let decls = all(&tokens, &entries).unwrap();
    assert_eq!(decls[0].style, DeclStyle::Reexport(None));
}

#[test]
fn restricted_visibility_keeps_its_path() {
    let tokens = vec![
        ident("default"),
        Token::Vis(Visibility::Restricted("in some :: path".to_string())),
    ];
    let entries = vec![entry("a", ModuleType::File)];
    let decls = all(&tokens, &entries).unwrap();
    assert_eq!(
        decls[0].style,
        DeclStyle::Plain(Some(Visibility::Restricted("in some :: path".to_string())))
    );
}

#[test]
fn empty_configuration_declares_everything_privately() {
    let entries = vec![entry("a", ModuleType::File), entry("b", ModuleType::Dir)];
    let decls = all(&Vec::new(), &entries).unwrap();
    assert_eq!(decls, vec![plain("a", None), plain("b", None)]);
}

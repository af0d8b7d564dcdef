use dirmod::entries::{classify_siblings, Entry, ModuleType, RawSibling};
use dirmod::imp::all;
use dirmod::token::Token;

fn file(name: &str) -> RawSibling {
    RawSibling { name: name.to_string(), is_file: true, is_dir: false, has_module_root: false }
}

fn dir(name: &str, has_module_root: bool) -> RawSibling {
    RawSibling { name: name.to_string(), is_file: false, is_dir: true, has_module_root }
}

#[test]
fn classifier_keeps_declaration_files_and_module_directories() {
    let siblings = vec![
        file("lib.rs"),
        file("foo.rs"),
        dir("bar", true),
        dir("baz", false),
        file("notes.txt"),
        file(".rs"),
    ];
    let entries = classify_siblings(&siblings, "lib.rs");
    assert_eq!(
        entries,
        vec![
            Entry { name: "foo".to_string(), kind: ModuleType::File },
            Entry { name: "bar".to_string(), kind: ModuleType::Dir },
        ]
    );
}

#[test]
fn classifier_skips_the_invoking_file() {
    let siblings = vec![file("mod.rs"), file("a.rs")];
    let entries = classify_siblings(&siblings, "mod.rs");
    assert_eq!(entries, vec![Entry { name: "a".to_string(), kind: ModuleType::File }]);
}

#[test]
fn classifier_keeps_listing_order() {
    let siblings = vec![file("z.rs"), file("a.rs"), dir("m", true)];
    let entries = classify_siblings(&siblings, "lib.rs");
    let names: Vec<String> = entries.iter().map(|e| e.name.clone()).collect();
    assert_eq!(names, vec!["z".to_string(), "a".to_string(), "m".to_string()]);
}

#[test]
fn classifier_strips_only_the_final_extension() {
    let siblings = vec![file("a.b.rs")];
    let entries = classify_siblings(&siblings, "lib.rs");
    assert_eq!(entries[0].name, "a.b");
}

#[test]
fn classified_entries_flow_into_the_generator() {
    let siblings = vec![file("lib.rs"), file("foo.rs"), dir("qux", true)];
    let entries = classify_siblings(&siblings, "lib.rs");
    let tokens: Vec<Token> = Vec::new();
    let decls = all(&tokens, &entries).unwrap();
    assert_eq!(decls.len(), 2);
    assert_eq!(decls[0].name, "foo");
    assert_eq!(decls[1].name, "qux");
}

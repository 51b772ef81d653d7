use completion::completions;
use completion::config::CompletionConfig;
use completion::item::{CompletionItem, CompletionItemKind};
use completion::snapshot::{
    DerefEdge, FieldInfo, FilePosition, ImportableItem, MethodInfo, QualifiedItem, ScopeItem,
    Snapshot, TraitMemberStub, TypeBinding, TypeName, VariantInfo,
};

/// Splits a fixture at the `<|>` cursor marker: the text without the
/// marker, and the cursor offset.
fn position(fixture: &str) -> (Vec<u8>, usize) {
    let idx = fixture.find("<|>").expect("cursor marker");
    let mut text = Vec::new();
    text.extend_from_slice(&fixture.as_bytes()[..idx]);
    text.extend_from_slice(&fixture.as_bytes()[idx + 3..]);
    (text, idx)
}

/// A snapshot of one file and otherwise empty fact tables.
fn snap(text: Vec<u8>) -> Snapshot {
    Snapshot {
        files: vec![text],
        scope: Vec::new(),
        importable: Vec::new(),
        qualified: Vec::new(),
        methods: Vec::new(),
        fields: Vec::new(),
        variants: Vec::new(),
        expr_types: Vec::new(),
        type_names: Vec::new(),
        derefs: Vec::new(),
        wrapper_types: Vec::new(),
        missing_trait_members: Vec::new(),
        submodules: Vec::new(),
        param_suggestions: Vec::new(),
    }
}

fn run(db: &Snapshot, config: &CompletionConfig, offset: usize) -> Option<Vec<CompletionItem>> {
    completions(db, config, FilePosition { file_id: 0, offset }).map(|acc| acc.into_items())
}

fn s(bytes: &[u8]) -> String {
    String::from_utf8(bytes.to_vec()).unwrap()
}

struct DetailAndDocumentation<'a> {
    detail: &'a str,
    documentation: &'a str,
}

fn check_detail_and_documentation(db: &Snapshot, offset: usize, expected: DetailAndDocumentation) {
    let config = CompletionConfig::default();
    let items = run(db, &config, offset).unwrap();
    for item in items {
        if item.detail().as_ref().map(|d| s(d)) == Some(expected.detail.to_string()) {
            let doc = item.documentation().as_ref().map(|d| s(d));
            assert_eq!(doc, Some(expected.documentation.to_string()));
            return;
        }
    }
    panic!("completion detail not found: {}", expected.detail)
}

fn check_no_completion(db: &Snapshot, offset: usize) {
    let config = CompletionConfig::default();
    let items: Option<Vec<String>> = run(db, &config, offset)
        .and_then(|items| if items.is_empty() { None } else { Some(items) })
        .map(|items| items.into_iter().map(|item| s(&item.label)).collect());
    assert_eq!(items, None, "Completions were generated, but weren't expected");
}

/// A snapshot modeling the macro-expanded `struct Bar` with a documented
/// method `foo`, as the semantic model reports it after expansion.
fn macro_bar_snapshot(text: Vec<u8>, documentation: &str) -> Snapshot {
    let mut db = snap(text);
    db.expr_types = vec![TypeBinding { expr: b"bar".to_vec(), type_id: 0 }];
    db.methods = vec![MethodInfo {
        name: b"foo".to_vec(),
        receiver: 0,
        inherent: true,
        detail: Some(b"fn foo(&self)".to_vec()),
        documentation: Some(documentation.as_bytes().to_vec()),
    }];
    db
}

#[test]
fn test_completion_detail_from_macro_generated_struct_fn_doc_attr() {
    let (text, offset) = position(
        r#"
            //- /lib.rs
            macro_rules! bar {
                () => {
                    struct Bar;
                    impl Bar {
                        #[doc = "Do the foo"]
                        fn foo(&self) {}
                    }
                }
            }

            bar!();

            fn foo() {
                let bar = Bar;
                bar.fo<|>;
            }
            "#,
    );
    let db = macro_bar_snapshot(text, "Do the foo");
    check_detail_and_documentation(
        &db,
        offset,
        DetailAndDocumentation { detail: "fn foo(&self)", documentation: "Do the foo" },
    );
}

#[test]
fn test_completion_detail_from_macro_generated_struct_fn_doc_comment() {
    let (text, offset) = position(
        r#"
            //- /lib.rs
            macro_rules! bar {
                () => {
                    struct Bar;
                    impl Bar {
                        /// Do the foo
                        fn foo(&self) {}
                    }
                }
            }

            bar!();

            fn foo() {
                let bar = Bar;
                bar.fo<|>;
            }
            "#,
    );
    let db = macro_bar_snapshot(text, " Do the foo");
    check_detail_and_documentation(
        &db,
        offset,
        DetailAndDocumentation { detail: "fn foo(&self)", documentation: " Do the foo" },
    );
}

#[test]
fn test_no_completions_required() {
    // There must be no hint for 'in' keyword.
    let (text, offset) = position(
        r#"
            fn foo() {
                for i i<|>
            }
            "#,
    );
    check_no_completion(&snap(text), offset);
    // After 'in' keyword hints may be spawned.
    let (text, offset) = position(
        r#"
            /// Do the foo
            fn foo() -> &'static str { "foo" }

            fn bar() {
                for c in fo<|>
            }
            "#,
    );
    let mut db = snap(text);
    db.scope = vec![ScopeItem {
        name: b"foo".to_vec(),
        kind: CompletionItemKind::Function,
        detail: Some(b"fn foo() -> &'static str".to_vec()),
        documentation: Some(b"Do the foo".to_vec()),
    }];
    check_detail_and_documentation(
        &db,
        offset,
        DetailAndDocumentation { detail: "fn foo() -> &'static str", documentation: "Do the foo" },
    );
}

#[test]
fn no_completion_inside_string_or_comment() {
    let (text, offset) = position("fn main() { let s = \"ab<|>cd\"; }".into());
    check_no_completion(&snap(text), offset);
    let (text, offset) = position("fn main() {} // ab<|>".into());
    check_no_completion(&snap(text), offset);
}

#[test]
fn idempotent_on_unchanged_snapshot() {
    let (text, offset) = position("fn bar() { for c in fo<|> }");
    let mut db = snap(text);
    db.scope = vec![ScopeItem {
        name: b"foo".to_vec(),
        kind: CompletionItemKind::Function,
        detail: None,
        documentation: None,
    }];
    let config = CompletionConfig::default();
    let a = run(&db, &config, offset).unwrap();
    let b = run(&db, &config, offset).unwrap();
    assert_eq!(a.len(), b.len());
    for (x, y) in a.iter().zip(b.iter()) {
        assert_eq!(x.label, y.label);
        assert_eq!(x.insert_text, y.insert_text);
        assert_eq!(x.range_start, y.range_start);
        assert_eq!(x.range_end, y.range_end);
        assert_eq!(x.detail, y.detail);
        assert_eq!(x.documentation, y.documentation);
    }
}

#[test]
fn ranges_stay_within_reported_span() {
    let (text, offset) = position("fn main() { foo().i<|> }");
    let mut db = snap(text);
    db.scope = vec![ScopeItem {
        name: b"foo".to_vec(),
        kind: CompletionItemKind::Function,
        detail: None,
        documentation: None,
    }];
    let mut config = CompletionConfig::default();
    config.enable_postfix = true;
    let acc = completions(&db, &config, FilePosition { file_id: 0, offset }).unwrap();
    let span_start = acc.span_start;
    let span_end = acc.span_end;
    for item in acc.into_items() {
        assert!(span_start <= item.range_start);
        assert!(item.range_start <= item.range_end);
        assert!(item.range_end <= span_end);
    }
}

#[test]
fn postfix_rewrite_contains_expression() {
    let (text, offset) = position("fn main() { foo().i<|> }");
    let db = snap(text);
    let mut config = CompletionConfig::default();
    config.enable_postfix = true;
    let items = run(&db, &config, offset).unwrap();
    let mut seen_if = false;
    for item in &items {
        if item.label == b"if".to_vec() && item.insert_text.starts_with(b"if") {
            assert_eq!(s(&item.insert_text), "if foo() {$0}");
            seen_if = true;
        }
    }
    assert!(seen_if, "postfix if rewrite not found");
    // Every postfix rewrite keeps the receiver as a contiguous run.
    for item in &items {
        if item.range_start != item.range_end {
            let text = s(&item.insert_text);
            assert!(text.contains("foo()"), "receiver lost in {}", text);
        }
    }
}

#[test]
fn postfix_uses_let_form_for_wrapper_types() {
    let (text, offset) = position("fn main() { x.i<|> }");
    let mut db = snap(text);
    db.expr_types = vec![TypeBinding { expr: b"x".to_vec(), type_id: 7 }];
    db.wrapper_types = vec![7];
    let mut config = CompletionConfig::default();
    config.enable_postfix = true;
    let items = run(&db, &config, offset).unwrap();
    let rewrite = items
        .iter()
        .find(|item| item.label == b"if".to_vec() && item.insert_text.starts_with(b"if"))
        .map(|item| s(&item.insert_text))
        .unwrap();
    assert_eq!(rewrite, "if let $1 = x {$0}");
}

#[test]
fn postfix_disabled_by_default() {
    let (text, offset) = position("fn main() { foo().i<|> }");
    let db = snap(text);
    let config = CompletionConfig::default();
    let items = run(&db, &config, offset).unwrap();
    assert!(items.iter().all(|item| !item.insert_text.starts_with(b"if foo()")));
}

#[test]
fn dot_lists_only_compatible_methods() {
    let (text, offset) = position("fn main() { bar.fo<|> }");
    let mut db = snap(text);
    db.expr_types = vec![TypeBinding { expr: b"bar".to_vec(), type_id: 0 }];
    db.derefs = vec![DerefEdge { from: 0, to: 1 }];
    db.methods = vec![
        MethodInfo {
            name: b"on_bar".to_vec(),
            receiver: 0,
            inherent: true,
            detail: None,
            documentation: None,
        },
        MethodInfo {
            name: b"via_deref".to_vec(),
            receiver: 1,
            inherent: false,
            detail: None,
            documentation: None,
        },
        MethodInfo {
            name: b"unrelated".to_vec(),
            receiver: 9,
            inherent: true,
            detail: None,
            documentation: None,
        },
    ];
    let config = CompletionConfig::default();
    let items = run(&db, &config, offset).unwrap();
    let labels: Vec<String> = items.iter().map(|item| s(&item.label)).collect();
    assert!(labels.contains(&"on_bar".to_string()));
    assert!(labels.contains(&"via_deref".to_string()));
    assert!(!labels.contains(&"unrelated".to_string()));
    // Inherent methods stand before blanket-trait methods.
    let i_inh = labels.iter().position(|l| l == "on_bar").unwrap();
    let i_trait = labels.iter().position(|l| l == "via_deref").unwrap();
    assert!(i_inh < i_trait);
}

#[test]
fn dot_lists_fields_of_receiver_type() {
    let (text, offset) = position("fn main() { bar.<|> }");
    let mut db = snap(text);
    db.expr_types = vec![TypeBinding { expr: b"bar".to_vec(), type_id: 0 }];
    db.fields = vec![
        FieldInfo { owner: 0, name: b"width".to_vec(), detail: None, documentation: None },
        FieldInfo { owner: 3, name: b"other".to_vec(), detail: None, documentation: None },
    ];
    let config = CompletionConfig::default();
    let items = run(&db, &config, offset).unwrap();
    let labels: Vec<String> = items.iter().map(|item| s(&item.label)).collect();
    assert!(labels.contains(&"width".to_string()));
    assert!(!labels.contains(&"other".to_string()));
}

#[test]
fn record_literal_lists_missing_fields_only() {
    let (text, offset) = position("fn main() { let f = Foo { x: 1, y<|> } }");
    let mut db = snap(text);
    db.type_names = vec![TypeName { name: b"Foo".to_vec(), type_id: 3 }];
    db.fields = vec![
        FieldInfo { owner: 3, name: b"x".to_vec(), detail: None, documentation: None },
        FieldInfo { owner: 3, name: b"y".to_vec(), detail: None, documentation: None },
        FieldInfo { owner: 3, name: b"z".to_vec(), detail: None, documentation: None },
    ];
    let config = CompletionConfig::default();
    let items = run(&db, &config, offset).unwrap();
    let labels: Vec<String> = items.iter().map(|item| s(&item.label)).collect();
    assert!(!labels.contains(&"x".to_string()), "already-written field offered: {:?}", labels);
    assert!(labels.contains(&"y".to_string()));
    assert!(labels.contains(&"z".to_string()));
}

#[test]
fn attribute_position_offers_attribute_names() {
    let (text, offset) = position("#[de<|>]\nfn main() {}");
    let db = snap(text);
    let config = CompletionConfig::default();
    let items = run(&db, &config, offset).unwrap();
    let derive = items.iter().find(|item| item.label == b"derive".to_vec()).unwrap();
    assert!(matches!(derive.kind, CompletionItemKind::Attribute));
}

#[test]
fn use_tree_offers_path_keywords() {
    let (text, offset) = position("use cr<|>;");
    let db = snap(text);
    let config = CompletionConfig::default();
    let items = run(&db, &config, offset).unwrap();
    let labels: Vec<String> = items.iter().map(|item| s(&item.label)).collect();
    assert!(labels.contains(&"crate".to_string()));
    assert!(labels.contains(&"self".to_string()));
    assert!(labels.contains(&"super".to_string()));
}

#[test]
fn qualified_path_lists_members_of_qualifier() {
    let (text, offset) = position("fn main() { foo::b<|> }");
    let mut db = snap(text);
    db.qualified = vec![
        QualifiedItem {
            qualifier: b"foo".to_vec(),
            item: ScopeItem {
                name: b"bar".to_vec(),
                kind: CompletionItemKind::Function,
                detail: None,
                documentation: None,
            },
        },
        QualifiedItem {
            qualifier: b"other".to_vec(),
            item: ScopeItem {
                name: b"hidden".to_vec(),
                kind: CompletionItemKind::Function,
                detail: None,
                documentation: None,
            },
        },
    ];
    let config = CompletionConfig::default();
    let items = run(&db, &config, offset).unwrap();
    let labels: Vec<String> = items.iter().map(|item| s(&item.label)).collect();
    assert!(labels.contains(&"bar".to_string()));
    assert!(!labels.contains(&"hidden".to_string()));
}

#[test]
fn expr_keywords_with_braces_and_return_shape() {
    let (text, offset) = position("fn main() { i<|> }");
    let db = snap(text);
    let config = CompletionConfig::default();
    let items = run(&db, &config, offset).unwrap();
    let if_item = items.iter().find(|item| item.label == b"if".to_vec()).unwrap();
    assert_eq!(s(&if_item.insert_text), "if {$0}");
    let ret = items.iter().find(|item| item.label == b"return".to_vec()).unwrap();
    assert_eq!(s(&ret.insert_text), "return;");

    let (text, offset) = position("fn f() -> u32 { r<|> }");
    let db = snap(text);
    let items = run(&db, &config, offset).unwrap();
    let ret = items.iter().find(|item| item.label == b"return".to_vec()).unwrap();
    assert_eq!(s(&ret.insert_text), "return ");
}

#[test]
fn snippets_gated_by_flag() {
    let (text, offset) = position("fn main() { p<|> }");
    let db = snap(text);
    let config = CompletionConfig::default();
    let items = run(&db, &config, offset).unwrap();
    assert!(items.iter().all(|item| item.label != b"pd".to_vec()));
    let mut config = CompletionConfig::default();
    config.enable_snippets = true;
    let items = run(&db, &config, offset).unwrap();
    let pd = items.iter().find(|item| item.label == b"pd".to_vec()).unwrap();
    assert_eq!(s(&pd.insert_text), "eprintln!(\" = {:?}\", $0);");
}

#[test]
fn item_position_offers_macros_and_item_snippets() {
    let (text, offset) = position("fn main() {}\nt<|>");
    let mut db = snap(text);
    db.scope = vec![ScopeItem {
        name: b"bar".to_vec(),
        kind: CompletionItemKind::Macro,
        detail: None,
        documentation: None,
    }];
    let mut config = CompletionConfig::default();
    config.enable_snippets = true;
    let items = run(&db, &config, offset).unwrap();
    let labels: Vec<String> = items.iter().map(|item| s(&item.label)).collect();
    assert!(labels.contains(&"bar!".to_string()));
    assert!(labels.contains(&"tfn".to_string()));
    assert!(labels.contains(&"tmod".to_string()));
}

#[test]
fn trait_impl_offers_missing_members() {
    let (text, offset) = position("impl Foo for Bar { f<|> }");
    let mut db = snap(text);
    db.missing_trait_members = vec![TraitMemberStub {
        name: b"foo".to_vec(),
        detail: Some(b"fn foo(&self)".to_vec()),
        documentation: None,
        stub_text: b"fn foo(&self) { $0 }".to_vec(),
    }];
    let config = CompletionConfig::default();
    let items = run(&db, &config, offset).unwrap();
    let foo = items.iter().find(|item| item.label == b"foo".to_vec()).unwrap();
    assert_eq!(s(&foo.insert_text), "fn foo(&self) { $0 }");
    assert!(matches!(foo.kind, CompletionItemKind::TraitMember));
}

#[test]
fn mod_offers_file_backed_submodules() {
    let (text, offset) = position("mod f<|>");
    let mut db = snap(text);
    db.submodules = vec![b"foo_mod".to_vec()];
    let config = CompletionConfig::default();
    let items = run(&db, &config, offset).unwrap();
    let m = items.iter().find(|item| item.label == b"foo_mod".to_vec()).unwrap();
    assert_eq!(s(&m.insert_text), "foo_mod;");
}

#[test]
fn match_pattern_offers_variants_of_matched_type() {
    let (text, offset) = position("fn main() { match x { S<|> } }");
    let mut db = snap(text);
    db.expr_types = vec![TypeBinding { expr: b"x".to_vec(), type_id: 5 }];
    db.variants = vec![
        VariantInfo { owner: 5, name: b"Red".to_vec(), detail: None, documentation: None },
        VariantInfo { owner: 6, name: b"Blue".to_vec(), detail: None, documentation: None },
    ];
    let config = CompletionConfig::default();
    let items = run(&db, &config, offset).unwrap();
    let labels: Vec<String> = items.iter().map(|item| s(&item.label)).collect();
    assert!(labels.contains(&"Red".to_string()));
    assert!(!labels.contains(&"Blue".to_string()));
}

#[test]
fn fn_param_offers_sibling_suggestions() {
    let (text, offset) = position("fn f(x: u32) {}\nfn g(x<|>)");
    let mut db = snap(text);
    db.param_suggestions = vec![b"x: u32".to_vec()];
    let config = CompletionConfig::default();
    let items = run(&db, &config, offset).unwrap();
    let labels: Vec<String> = items.iter().map(|item| s(&item.label)).collect();
    assert!(labels.contains(&"x: u32".to_string()));
}

#[test]
fn autoimport_attaches_import_edit() {
    let (text, offset) = position("fn main() { Ha<|> }");
    let mut db = snap(text);
    db.importable = vec![ImportableItem {
        item: ScopeItem {
            name: b"HashMap".to_vec(),
            kind: CompletionItemKind::Struct,
            detail: None,
            documentation: None,
        },
        import_offset: 0,
        import_text: b"use std::collections::HashMap;\n".to_vec(),
    }];
    let config = CompletionConfig::default();
    let items = run(&db, &config, offset).unwrap();
    assert!(items.iter().all(|item| item.label != b"HashMap".to_vec()));
    let mut config = CompletionConfig::default();
    config.enable_experimental_autoimport = true;
    let items = run(&db, &config, offset).unwrap();
    let hm = items.iter().find(|item| item.label == b"HashMap".to_vec()).unwrap();
    let edit = hm.import_edit.as_ref().unwrap();
    assert_eq!(edit.offset, 0);
    assert_eq!(s(&edit.text), "use std::collections::HashMap;\n");
}

#[test]
fn unknown_file_or_out_of_range_offset_yields_nothing() {
    let db = snap(b"fn main() {}".to_vec());
    let config = CompletionConfig::default();
    assert!(completions(&db, &config, FilePosition { file_id: 5, offset: 0 }).is_none());
    assert!(completions(&db, &config, FilePosition { file_id: 0, offset: 1000 }).is_none());
}

use std::collections::HashMap;
use std::path::Path;

use cnbl::cmd::scan::{check_root, harvest_item, kind_label, lang_label, report, ScanError};
use cnbl::model::{HarvestItem, ItemKind, SourceLang};
use cnbl::scanner::parser::ParsedFile;

fn make_item(kind: ItemKind, lang: SourceLang, path: &str) -> HarvestItem {
    HarvestItem { rel_path: path.to_string(), lang, kind, size_bytes: 100, notes: None }
}

#[test]
fn report_counts_correct_kinds() {
    let items = vec![
        make_item(ItemKind::DomainLogic, SourceLang::Rust, "src/lib.rs"),
        make_item(ItemKind::DomainLogic, SourceLang::Python, "src/model.py"),
        make_item(ItemKind::Adapter, SourceLang::Rust, "src/adapter_db.rs"),
        make_item(ItemKind::Script, SourceLang::Shell, "build.sh"),
        make_item(ItemKind::Discard, SourceLang::Unknown, "binary.bin"),
    ];
    let mut counts: HashMap<&str, usize> = HashMap::new();
    for item in &items {
        *counts.entry(kind_label(&item.kind)).or_insert(0) += 1;
    }
    assert_eq!(counts["domain_logic"], 2);
    assert_eq!(counts["adapter"], 1);
    assert_eq!(counts["script"], 1);
    assert_eq!(counts["discard"], 1);
}

#[test]
fn scan_nonexistent_path_returns_err() {
    let root = Path::new("/nonexistent/cannibalizer/path");
    let result = check_root(root.exists(), root.is_dir());
    assert!(result.is_err());
    assert_eq!(result, Err(ScanError::NotFound));
}

#[test]
fn scan_file_path_returns_err() {
    let file = Path::new("/dev/null");
    assert!(file.exists());
    let result = check_root(file.exists(), file.is_dir());
    assert!(result.is_err());
    assert_eq!(result, Err(ScanError::NotADirectory));
}

#[test]
fn scan_root_must_be_a_directory() {
    assert_eq!(check_root(true, false), Err(ScanError::NotADirectory));
    assert_eq!(check_root(true, true), Ok(()));
}

#[test]
fn report_rows_follow_kind_order_with_sorted_languages() {
    let items = vec![
        make_item(ItemKind::DomainLogic, SourceLang::Rust, "src/lib.rs"),
        make_item(ItemKind::DomainLogic, SourceLang::Python, "src/model.py"),
        make_item(ItemKind::DomainLogic, SourceLang::Rust, "src/x.rs"),
        make_item(ItemKind::Entrypoint, SourceLang::Go, "cmd/main.go"),
        make_item(ItemKind::Discard, SourceLang::Unknown, "binary.bin"),
        make_item(ItemKind::Glue, SourceLang::Rust, "src/mod.rs"),
    ];
    let r = report(&items);
    let kinds: Vec<ItemKind> = r.rows.iter().map(|row| row.kind).collect();
    assert_eq!(kinds, vec![
        ItemKind::DomainLogic, ItemKind::Adapter, ItemKind::Script, ItemKind::Spec, ItemKind::Config,
        ItemKind::TestHarness, ItemKind::Entrypoint, ItemKind::Port, ItemKind::Glue, ItemKind::Discard,
    ]);
    assert_eq!(r.rows[0].count, 3);
    assert_eq!(r.rows[0].langs, vec![SourceLang::Python, SourceLang::Rust]);
    assert_eq!(r.rows[1].count, 0);
    assert!(r.rows[1].langs.is_empty());
    assert_eq!(r.rows[8].count, 1);
    assert_eq!(r.rows.iter().map(|row| row.count).sum::<usize>(), items.len());
    assert_eq!(r.discards, vec!["binary.bin".to_string()]);
    assert_eq!(r.entrypoints, vec!["cmd/main.go".to_string()]);
}

#[test]
fn labels() {
    assert_eq!(kind_label(&ItemKind::TestHarness), "test_harness");
    assert_eq!(kind_label(&ItemKind::Glue), "glue");
    assert_eq!(lang_label(&SourceLang::TypeScript), "typescript");
    assert_eq!(lang_label(&SourceLang::Unknown), "unknown");
}

#[test]
fn harvest_item_is_relative_and_classified() {
    let parsed = ParsedFile {
        path: "/repo/src/adapter_db.py".into(),
        lang: SourceLang::Python,
        top_level_kinds: vec!["class_definition".into()],
        raw_source: "class A: pass".into(),
    };
    let it = harvest_item("/repo", "/repo/src/adapter_db.py", &parsed, 13);
    assert_eq!(it.rel_path, "src/adapter_db.py");
    assert_eq!(it.kind, ItemKind::Adapter);
    assert_eq!(it.lang, SourceLang::Python);
    assert_eq!(it.size_bytes, 13);
    assert!(it.notes.is_none());
    let outside = harvest_item("/other", "/repo/src/model.py", &parsed, 1);
    assert_eq!(outside.rel_path, "/repo/src/model.py");
    assert_eq!(outside.kind, ItemKind::DomainLogic);
}

use cnbl::model::SourceLang;
use cnbl::scanner::parser::{parse_file, within_size_limit, MAX_FILE_BYTES};

#[test]
fn parse_python_extracts_top_level_kinds() {
    let src = "import os\n\nclass Store:\n    pass\n\ndef helper():\n    return 1\n";
    let result = parse_file("sample.py", SourceLang::Python, src.len() as u64, src.to_string()).unwrap();
    assert!(matches!(result.lang, SourceLang::Python));
    assert!(result.top_level_kinds.iter().any(|k| k == "import_statement"), "{:?}", result.top_level_kinds);
    assert!(result.top_level_kinds.iter().any(|k| k == "class_definition"), "{:?}", result.top_level_kinds);
    assert!(result.top_level_kinds.iter().any(|k| k == "function_definition"), "{:?}", result.top_level_kinds);
}

#[test]
fn parse_go_extracts_top_level_kinds() {
    let src = "package main\n\ntype Store interface {\n\tGet() int\n}\n\ntype S struct{}\n\nfunc (s S) Get() int { return 1 }\n\nfunc main() {}\n";
    let result = parse_file("sample.go", SourceLang::Go, src.len() as u64, src.to_string()).unwrap();
    assert!(matches!(result.lang, SourceLang::Go));
    assert!(
        result.top_level_kinds.iter().any(|k| k == "function_declaration" || k == "method_declaration"),
        "{:?}",
        result.top_level_kinds
    );
}

#[test]
fn parse_shell_extracts_top_level_kinds() {
    let src = "#!/bin/bash\n\ngreet() {\n  echo hi\n}\n\ngreet\n";
    let result = parse_file("sample.sh", SourceLang::Shell, src.len() as u64, src.to_string()).unwrap();
    assert!(matches!(result.lang, SourceLang::Shell));
    assert!(result.top_level_kinds.iter().any(|k| k == "function_definition"), "{:?}", result.top_level_kinds);
}

#[test]
fn parse_non_ts_lang_returns_empty_kinds() {
    let src = "[package]\nname = \"foo\"\n";
    let result = parse_file("Cargo.toml", SourceLang::Toml, src.len() as u64, src.to_string()).unwrap();
    assert!(matches!(result.lang, SourceLang::Toml));
    assert!(result.top_level_kinds.is_empty());
    assert_eq!(result.raw_source, src);
}

#[test]
fn parse_large_file_returns_unknown() {
    let chunk = "# padding\n".repeat(60_000);
    let result = parse_file("big.py", SourceLang::Python, chunk.len() as u64, chunk).unwrap();
    assert!(matches!(result.lang, SourceLang::Unknown));
    assert!(result.top_level_kinds.is_empty());
    assert!(result.raw_source.is_empty());
}

#[test]
fn parse_rust_struct_emits_struct_item() {
    let src = "pub struct Foo { pub x: u32 }\n";
    let result = parse_file("a.rs", SourceLang::Rust, src.len() as u64, src.to_string()).unwrap();
    assert!(result.top_level_kinds.iter().any(|k| k == "struct_item"), "{:?}", result.top_level_kinds);
}

#[test]
fn parse_rust_trait_emits_trait_item() {
    let src = "pub trait MyPort { fn do_it(&self); }\n";
    let result = parse_file("a.rs", SourceLang::Rust, src.len() as u64, src.to_string()).unwrap();
    assert!(result.top_level_kinds.iter().any(|k| k == "trait_item"), "{:?}", result.top_level_kinds);
}

#[test]
fn rust_kinds_come_in_source_order() {
    let src = "use std::fmt;\nmod inner;\nfn f() {}\n";
    let result = parse_file("src/lib.rs", SourceLang::Rust, src.len() as u64, src.to_string()).unwrap();
    assert_eq!(result.top_level_kinds, vec!["use_declaration", "mod_item", "function_item"]);
    assert_eq!(result.path, "src/lib.rs");
}

#[test]
fn size_limit_is_512_kib() {
    assert_eq!(MAX_FILE_BYTES, 512 * 1024);
    assert!(within_size_limit(512 * 1024));
    assert!(!within_size_limit(512 * 1024 + 1));
}

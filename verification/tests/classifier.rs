use cnbl::classifier::classify;
use cnbl::model::{ItemKind, SourceLang};
use cnbl::scanner::parser::ParsedFile;

fn make_parsed(path: &str, lang: SourceLang, top_level_kinds: Vec<&str>, raw_source: &str) -> (ParsedFile, String) {
    let parsed = ParsedFile {
        path: path.to_string(),
        lang,
        top_level_kinds: top_level_kinds.into_iter().map(String::from).collect(),
        raw_source: raw_source.to_string(),
    };
    (parsed, path.to_string())
}

#[test]
fn test_path_test_gives_test_harness() {
    let (p, path) = make_parsed("src/test_utils.py", SourceLang::Python, vec![], "");
    assert!(matches!(classify(&p, &path), ItemKind::TestHarness));
}

#[test]
fn test_path_spec_gives_test_harness() {
    let (p, path) = make_parsed("src/spec_helpers.py", SourceLang::Python, vec![], "");
    assert!(matches!(classify(&p, &path), ItemKind::TestHarness));
}

#[test]
fn fixture_path_gives_discard() {
    let (p, path) = make_parsed("data/fixture_sample.py", SourceLang::Python, vec![], "");
    assert!(matches!(classify(&p, &path), ItemKind::Discard));
}

#[test]
fn shell_gives_script() {
    let (p, path) = make_parsed("scripts/build.sh", SourceLang::Shell, vec![], "");
    assert!(matches!(classify(&p, &path), ItemKind::Script));
}

#[test]
fn nushell_gives_script() {
    let (p, path) = make_parsed("scripts/deploy.nu", SourceLang::Nushell, vec![], "");
    assert!(matches!(classify(&p, &path), ItemKind::Script));
}

#[test]
fn markdown_gives_spec() {
    let (p, path) = make_parsed("docs/design.md", SourceLang::Markdown, vec![], "");
    assert!(matches!(classify(&p, &path), ItemKind::Spec));
}

#[test]
fn toml_gives_config() {
    let (p, path) = make_parsed("Cargo.toml", SourceLang::Toml, vec![], "");
    assert!(matches!(classify(&p, &path), ItemKind::Config));
}

#[test]
fn yaml_gives_config() {
    let (p, path) = make_parsed(".github/ci.yml", SourceLang::Yaml, vec![], "");
    assert!(matches!(classify(&p, &path), ItemKind::Config));
}

#[test]
fn json_gives_config() {
    let (p, path) = make_parsed("config.json", SourceLang::Json, vec![], "");
    assert!(matches!(classify(&p, &path), ItemKind::Config));
}

#[test]
fn interface_type_gives_port() {
    let (p, path) = make_parsed("src/ports/storage.go", SourceLang::Go, vec!["interface_type"], "");
    assert!(matches!(classify(&p, &path), ItemKind::Port));
}

#[test]
fn protocol_stmt_gives_port() {
    let (p, path) = make_parsed("src/ports/cache.py", SourceLang::Python, vec!["protocol_stmt"], "");
    assert!(matches!(classify(&p, &path), ItemKind::Port));
}

#[test]
fn adapter_path_gives_adapter() {
    let (p, path) = make_parsed("src/adapter_db.py", SourceLang::Python, vec![], "");
    assert!(matches!(classify(&p, &path), ItemKind::Adapter));
}

#[test]
fn backend_path_gives_adapter() {
    let (p, path) = make_parsed("src/backend/server.py", SourceLang::Python, vec![], "");
    assert!(matches!(classify(&p, &path), ItemKind::Adapter));
}

#[test]
fn main_path_gives_entrypoint() {
    let (p, path) = make_parsed("src/main.py", SourceLang::Python, vec![], "");
    assert!(matches!(classify(&p, &path), ItemKind::Entrypoint));
}

#[test]
fn class_definition_gives_domain_logic() {
    let (p, path) = make_parsed("src/service.py", SourceLang::Python, vec!["class_definition"], "");
    assert!(matches!(classify(&p, &path), ItemKind::DomainLogic));
}

#[test]
fn struct_item_gives_domain_logic() {
    let (p, path) = make_parsed("src/model.rs", SourceLang::Rust, vec!["struct_item"], "");
    assert!(matches!(classify(&p, &path), ItemKind::DomainLogic));
}

#[test]
fn decorated_definition_gives_domain_logic() {
    let (p, path) = make_parsed("lib/models/trace.py", SourceLang::Python, vec!["import_statement", "decorated_definition"], "");
    assert!(matches!(classify(&p, &path), ItemKind::DomainLogic));
}

#[test]
fn init_py_with_only_imports_gives_glue() {
    let (p, path) = make_parsed("lib/__init__.py", SourceLang::Python, vec!["import_statement", "import_from_statement"], "");
    assert!(matches!(classify(&p, &path), ItemKind::Glue));
}

#[test]
fn empty_init_py_gives_glue() {
    let (p, path) = make_parsed("lib/models/__init__.py", SourceLang::Python, vec![], "");
    assert!(matches!(classify(&p, &path), ItemKind::Glue));
}

#[test]
fn typescript_gives_domain_logic() {
    let (p, path) = make_parsed("src/agent.ts", SourceLang::TypeScript, vec![], "");
    assert!(matches!(classify(&p, &path), ItemKind::DomainLogic));
}

#[test]
fn baml_gives_config() {
    let (p, path) = make_parsed("baml_src/agent.baml", SourceLang::Baml, vec![], "");
    assert!(matches!(classify(&p, &path), ItemKind::Config));
}

#[test]
fn only_use_mod_kinds_gives_glue() {
    let (p, path) = make_parsed("src/lib.rs", SourceLang::Rust, vec!["use_declaration", "mod_item"], "use std::fmt;\nmod inner;");
    assert!(matches!(classify(&p, &path), ItemKind::Glue));
}

#[test]
fn lib_rs_with_empty_kinds_gives_glue() {
    let (p, path) = make_parsed("src/lib.rs", SourceLang::Rust, vec![], "");
    assert!(matches!(classify(&p, &path), ItemKind::Glue));
}

#[test]
fn mod_rs_with_empty_kinds_gives_glue() {
    let (p, path) = make_parsed("src/core/mod.rs", SourceLang::Rust, vec![], "");
    assert!(matches!(classify(&p, &path), ItemKind::Glue));
}

#[test]
fn inbox_mod_rs_gives_adapter_not_glue() {
    let (p, path) = make_parsed("src/inbox/mod.rs", SourceLang::Rust, vec![], "");
    assert!(matches!(classify(&p, &path), ItemKind::Adapter));
}

#[test]
fn app_rs_with_empty_kinds_gives_glue() {
    let (p, path) = make_parsed("src/app.rs", SourceLang::Rust, vec![], "");
    assert!(matches!(classify(&p, &path), ItemKind::Glue));
}

#[test]
fn mixed_kinds_does_not_give_glue() {
    let (p, path) = make_parsed("src/service.rs", SourceLang::Rust, vec!["use_declaration", "struct_item"], "");
    assert!(matches!(classify(&p, &path), ItemKind::DomainLogic));
}

#[test]
fn unknown_file_gives_discard() {
    let (p, path) = make_parsed("src/thing.xyz", SourceLang::Unknown, vec![], "");
    assert!(matches!(classify(&p, &path), ItemKind::Discard));
}

#[test]
fn test_path_beats_fixture_path() {
    let (p, path) = make_parsed("tests/fixtures/test_sample.py", SourceLang::Python, vec![], "");
    assert!(matches!(classify(&p, &path), ItemKind::TestHarness));
}

#[test]
fn adapter_beats_domain_logic() {
    let (p, path) = make_parsed("src/adapter_repo.py", SourceLang::Python, vec!["class_definition"], "");
    assert!(matches!(classify(&p, &path), ItemKind::Adapter));
}

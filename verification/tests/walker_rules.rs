use cnbl::model::SourceLang;
use cnbl::scanner::walker::{is_ignored_dir, is_ignored_file, lang_from_ext, lang_of_path, visit_file};

#[test]
fn detects_languages_from_extension() {
    assert!(matches!(lang_from_ext("py"), SourceLang::Python));
    assert!(matches!(lang_from_ext("go"), SourceLang::Go));
    assert!(matches!(lang_from_ext("sh"), SourceLang::Shell));
    assert!(matches!(lang_from_ext("bash"), SourceLang::Shell));
    assert!(matches!(lang_from_ext("nu"), SourceLang::Nushell));
    assert!(matches!(lang_from_ext("rs"), SourceLang::Rust));
    assert!(matches!(lang_from_ext("md"), SourceLang::Markdown));
    assert!(matches!(lang_from_ext("toml"), SourceLang::Toml));
    assert!(matches!(lang_from_ext("yaml"), SourceLang::Yaml));
    assert!(matches!(lang_from_ext("yml"), SourceLang::Yaml));
    assert!(matches!(lang_from_ext("json"), SourceLang::Json));
    assert!(matches!(lang_from_ext("xyz"), SourceLang::Unknown));
}

#[test]
fn typescript_and_baml_extensions() {
    assert_eq!(lang_from_ext("ts"), SourceLang::TypeScript);
    assert_eq!(lang_from_ext("tsx"), SourceLang::TypeScript);
    assert_eq!(lang_from_ext("baml"), SourceLang::Baml);
    assert_eq!(lang_from_ext(""), SourceLang::Unknown);
}

#[test]
fn ignored_names() {
    for d in [".git", "node_modules", "target", "__pycache__", ".venv", "dist"] {
        assert!(is_ignored_dir(d), "{d}");
    }
    assert!(!is_ignored_dir("src"));
    for f in [".DS_Store", "Cargo.lock", "uv.lock", "package-lock.json", "go.sum"] {
        assert!(is_ignored_file(f), "{f}");
    }
    assert!(!is_ignored_file("main.rs"));
}

#[test]
fn language_of_a_path_uses_its_lowercased_extension() {
    assert_eq!(lang_of_path("src/Main.RS"), SourceLang::Rust);
    assert_eq!(lang_of_path("Makefile"), SourceLang::Unknown);
    assert_eq!(lang_of_path("a/b.tar.json"), SourceLang::Json);
    assert_eq!(visit_file("Cargo.lock", "x/Cargo.lock"), None);
    assert_eq!(visit_file("main.rs", "x/main.rs"), Some(SourceLang::Rust));
}

use cnbl::classifier::{
    classify, classify_lowered, is_adapter, is_config, is_domain_logic, is_entrypoint, is_fixture,
    is_glue, is_port, is_script, is_spec, is_test_harness, is_typescript,
};
use cnbl::model::{ItemKind, SourceLang};
use cnbl::scanner::parser::ParsedFile;

fn make(path: &str, lang: SourceLang, kinds: Vec<&str>, raw: &str) -> ParsedFile {
    ParsedFile {
        path: path.to_string(),
        lang,
        top_level_kinds: kinds.into_iter().map(String::from).collect(),
        raw_source: raw.to_string(),
    }
}

#[test]
fn nonempty_rust_zero_kinds_gives_discard() {
    let p = make("src/weird.rs", SourceLang::Rust, vec![], "some content the parser didn't understand");
    assert!(matches!(classify(&p, "src/weird.rs"), ItemKind::Discard));
}

#[test]
fn whitespace_only_rust_gives_glue() {
    let p = make("src/placeholder.rs", SourceLang::Rust, vec![], "   \n\n  \t  ");
    assert!(matches!(classify(&p, "src/placeholder.rs"), ItemKind::Glue));
}

#[test]
fn nonempty_rust_lib_rs_zero_kinds_is_not_glue() {
    let p = make("src/lib.rs", SourceLang::Rust, vec![], "mod x;");
    assert!(matches!(classify(&p, "src/lib.rs"), ItemKind::Discard));
}

#[test]
fn store_path_gives_adapter() {
    let p = make("src/store/cache.py", SourceLang::Python, vec![], "");
    assert!(matches!(classify(&p, "src/store/cache.py"), ItemKind::Adapter));
}

#[test]
fn cmd_segment_gives_entrypoint() {
    let p = make("cmd/server/app.go", SourceLang::Go, vec![], "");
    assert!(matches!(classify(&p, "cmd/server/app.go"), ItemKind::Entrypoint));
}

#[test]
fn main_source_without_function_node_is_not_entrypoint() {
    let p = make("src/run.go", SourceLang::Go, vec![], "func main(");
    assert!(matches!(classify(&p, "src/run.go"), ItemKind::Discard));
}

#[test]
fn typescript_in_adapter_path_gives_adapter() {
    let p = make("src/adapters/api_client.ts", SourceLang::TypeScript, vec![], "");
    assert!(matches!(classify(&p, "src/adapters/api_client.ts"), ItemKind::Adapter));
}

#[test]
fn typescript_with_port_content_gives_port() {
    let p = make("src/ports/storage.ts", SourceLang::TypeScript, vec!["interface_type"], "");
    assert!(matches!(classify(&p, "src/ports/storage.ts"), ItemKind::Port));
}

#[test]
fn typescript_generic_path_gives_domain_logic() {
    let p = make("src/service.ts", SourceLang::TypeScript, vec![], "");
    assert!(matches!(classify(&p, "src/service.ts"), ItemKind::DomainLogic));
}

#[test]
fn typescript_main_beats_entrypoint() {
    let p = make("src/main.ts", SourceLang::TypeScript, vec![], "");
    assert!(matches!(classify(&p, "src/main.ts"), ItemKind::DomainLogic));
}

#[test]
fn c1_deterministic() {
    let cases = [
        make("src/lib.rs", SourceLang::Rust, vec!["mod_item"], "mod x;"),
        make("src/main.py", SourceLang::Python, vec![], ""),
        make("src/agent.ts", SourceLang::TypeScript, vec![], ""),
        make("src/weird.rs", SourceLang::Rust, vec![], "unparseable"),
        make("docs/api.md", SourceLang::Markdown, vec![], "# API"),
    ];
    for p in &cases {
        let a = classify(p, &p.path);
        let b = classify(p, &p.path);
        assert_eq!(a, b, "classify must be deterministic for {:?}", p.path);
    }
}

#[test]
fn c2_all_item_kinds_reachable() {
    let cases: Vec<(ParsedFile, ItemKind)> = vec![
        (make("tests/foo.rs", SourceLang::Rust, vec![], ""), ItemKind::TestHarness),
        (make("data/fixture.py", SourceLang::Python, vec![], ""), ItemKind::Discard),
        (make("run.sh", SourceLang::Shell, vec![], ""), ItemKind::Script),
        (make("README.md", SourceLang::Markdown, vec![], ""), ItemKind::Spec),
        (make("Cargo.toml", SourceLang::Toml, vec![], ""), ItemKind::Config),
        (make("src/port.go", SourceLang::Go, vec!["interface_type"], ""), ItemKind::Port),
        (make("src/adapter_db.py", SourceLang::Python, vec![], ""), ItemKind::Adapter),
        (make("src/main.rs", SourceLang::Rust, vec![], ""), ItemKind::Entrypoint),
        (make("src/model.rs", SourceLang::Rust, vec!["struct_item"], ""), ItemKind::DomainLogic),
        (make("src/lib.rs", SourceLang::Rust, vec!["use_declaration"], "use x;"), ItemKind::Glue),
        (make("src/x.xyz", SourceLang::Unknown, vec![], ""), ItemKind::Discard),
    ];
    let mut seen: Vec<ItemKind> = Vec::new();
    for (p, expected) in &cases {
        let got = classify(p, &p.path);
        assert_eq!(got, *expected, "{:?}", p.path);
        if !seen.contains(&got) {
            seen.push(got);
        }
    }
    assert!(seen.len() >= 9);
}

#[test]
fn c3_path_rules_case_insensitive() {
    let pairs = [
        ("src/Test_utils.py", "src/test_utils.py"),
        ("data/FIXTURE_data.py", "data/fixture_data.py"),
        ("src/Adapter_repo.go", "src/adapter_repo.go"),
        ("src/Backend/server.py", "src/backend/server.py"),
        ("src/Main.py", "src/main.py"),
    ];
    for (upper, lower) in &pairs {
        let pu = make(upper, SourceLang::Python, vec![], "");
        let pl = make(lower, SourceLang::Python, vec![], "");
        assert_eq!(classify(&pu, upper), classify(&pl, lower), "{upper} vs {lower}");
    }
}

#[test]
fn c4_lang_rules_path_independent() {
    for path in ["src/foo.sh", "lib/bar.sh", "deep/nested/baz.sh"] {
        let p = make(path, SourceLang::Shell, vec![], "");
        assert!(matches!(classify(&p, path), ItemKind::Script), "{path}");
    }
    for path in ["docs/a.md", "lib/b.md", "x.md"] {
        let p = make(path, SourceLang::Markdown, vec![], "");
        assert!(matches!(classify(&p, path), ItemKind::Spec), "{path}");
    }
}

#[test]
fn c5_precedence_pairs() {
    let cases: Vec<(&str, SourceLang, Vec<&str>, &str, ItemKind)> = vec![
        ("tests/fixtures/helper.py", SourceLang::Python, vec![], "", ItemKind::TestHarness),
        ("tests/run.sh", SourceLang::Shell, vec![], "", ItemKind::TestHarness),
        ("data/fixture_run.sh", SourceLang::Shell, vec![], "", ItemKind::Discard),
        ("src/adapter_port.go", SourceLang::Go, vec!["interface_type"], "", ItemKind::Port),
        ("src/adapters/client.ts", SourceLang::TypeScript, vec![], "", ItemKind::Adapter),
        ("src/main.ts", SourceLang::TypeScript, vec![], "", ItemKind::DomainLogic),
        ("src/adapter_repo.py", SourceLang::Python, vec!["class_definition"], "", ItemKind::Adapter),
        ("src/lib.rs", SourceLang::Rust, vec!["struct_item", "use_declaration"], "use x;\nstruct Foo;", ItemKind::DomainLogic),
    ];
    for (path, lang, kinds, raw, expected) in cases {
        let p = make(path, lang, kinds, raw);
        assert_eq!(classify(&p, path), expected, "{path}");
    }
}

#[test]
fn c6_empty_inputs_no_panic() {
    for lang in [SourceLang::Rust, SourceLang::Python, SourceLang::Go, SourceLang::TypeScript, SourceLang::Shell, SourceLang::Nushell, SourceLang::Markdown, SourceLang::Toml, SourceLang::Yaml, SourceLang::Json, SourceLang::Baml, SourceLang::Unknown] {
        let p = make("", lang, vec![], "");
        let _ = classify(&p, "");
        let p = make("", lang, vec!["struct_item"], "struct Foo;");
        let _ = classify(&p, "");
        let p = make("src/foo.rs", lang, vec![], "");
        let _ = classify(&p, "src/foo.rs");
    }
}

#[test]
fn c7_unknown_kinds_give_discard() {
    let p = make("src/foo.rs", SourceLang::Rust, vec!["completely_made_up_kind", "another_fake_kind"], "some content");
    assert!(matches!(classify(&p, "src/foo.rs"), ItemKind::Discard));
}

#[test]
fn c8_nonempty_rust_zero_kinds_not_glue() {
    for raw in ["fn main() {}", "some content the parser missed", "   \n\n  \t  "] {
        let p = make("src/mystery.rs", SourceLang::Rust, vec![], raw);
        let result = classify(&p, "src/mystery.rs");
        if raw.trim().is_empty() {
            assert!(matches!(result, ItemKind::Glue), "{raw:?}");
        } else {
            assert!(!matches!(result, ItemKind::Glue), "{raw:?}");
        }
    }
}

#[test]
fn c9_typescript_path_precedence() {
    for path in ["src/adapters/client.ts", "src/backend/api.ts", "src/integration/hook.ts", "src/provider/auth.ts"] {
        let p = make(path, SourceLang::TypeScript, vec![], "");
        assert!(matches!(classify(&p, path), ItemKind::Adapter), "{path}");
    }
    let p = make("src/ports/repo.ts", SourceLang::TypeScript, vec!["interface_type"], "");
    assert!(matches!(classify(&p, "src/ports/repo.ts"), ItemKind::Port));
    let p = make("src/service.ts", SourceLang::TypeScript, vec![], "");
    assert!(matches!(classify(&p, "src/service.ts"), ItemKind::DomainLogic));
}

#[test]
fn single_rules_answer_alone() {
    assert!(is_test_harness("A/TEST/b.py"));
    assert!(!is_test_harness("src/lib.rs"));
    assert!(is_fixture("data/Fixtures/x"));
    assert!(!is_fixture("data/x"));
    assert!(is_adapter("src/STORE_redis.py"));
    assert!(is_adapter("a/inbox/b.rs"));
    assert!(is_adapter("a/inboxes.rs"));
    assert!(is_adapter("src/store/cache.py"));
    assert!(!is_adapter("src/stor/cache.py"));
    let sh = make("x.sh", SourceLang::Shell, vec![], "");
    assert!(is_script(&sh) && !is_spec(&sh) && !is_config(&sh) && !is_typescript(&sh));
    let port = make("x.rs", SourceLang::Rust, vec!["trait_item"], "");
    assert!(is_port(&port) && !is_domain_logic(&port));
    let dl = make("x.go", SourceLang::Go, vec!["type_declaration"], "");
    assert!(is_domain_logic(&dl) && !is_port(&dl));
}

#[test]
fn entrypoint_signals() {
    let py = make("app/run.py", SourceLang::Python, vec!["function_definition"], "def main():\n    pass");
    assert!(is_entrypoint(&py, "app/run.py"));
    let py_no_fn = make("app/run.py", SourceLang::Python, vec![], "def main():\n    pass");
    assert!(!is_entrypoint(&py_no_fn, "app/run.py"));
    let go = make("app/run.go", SourceLang::Go, vec!["function_declaration"], "func main() {}");
    assert!(is_entrypoint(&go, "app/run.go"));
    let go_no_fn = make("app/run.go", SourceLang::Go, vec![], "func main(");
    assert!(!is_entrypoint(&go_no_fn, "app/run.go"));
    let cmd = make("app/cmd/tool.go", SourceLang::Go, vec![], "");
    assert!(is_entrypoint(&cmd, "app/cmd/tool.go"));
    let leading_cmd = make("cmd/server/app.go", SourceLang::Go, vec![], "");
    assert!(is_entrypoint(&leading_cmd, "cmd/server/app.go"));
    assert!(is_entrypoint(&leading_cmd, "CMD/server/app.go"));
    let cmd_file = make("src/cmd.rs", SourceLang::Rust, vec![], "");
    assert!(is_entrypoint(&cmd_file, "src/cmd.rs"));
    let cmds = make("src/cmds/x.go", SourceLang::Go, vec![], "");
    assert!(!is_entrypoint(&cmds, "src/cmds/x.go"));
    let domain = make("src/domain.rs", SourceLang::Rust, vec![], "");
    assert!(!is_entrypoint(&domain, "src/domain.rs"));
    assert!(is_entrypoint(&domain, "src/MAIN.rs"));
}

#[test]
fn glue_rule_by_name_and_kinds() {
    let py = make("pkg/__init__.py", SourceLang::Python, vec![], "import x");
    assert!(is_glue(&py, "pkg/__init__.py"));
    let py_other = make("pkg/other.py", SourceLang::Python, vec![], "");
    assert!(!is_glue(&py_other, "pkg/other.py"));
    let rs = make("src/a.rs", SourceLang::Rust, vec!["use_declaration", "extern_crate_declaration"], "");
    assert!(is_glue(&rs, "src/a.rs"));
    let mixed = make("src/a.rs", SourceLang::Rust, vec!["use_declaration", "function_item"], "");
    assert!(!is_glue(&mixed, "src/a.rs"));
}

#[test]
fn classify_lowered_uses_the_given_parts() {
    let p = make("x", SourceLang::Python, vec![], "");
    let segs: Vec<String> = vec!["src".into(), "x.py".into()];
    assert_eq!(classify_lowered(&p, "src/x.py", "main", "x.py", &segs), ItemKind::Entrypoint);
    assert_eq!(classify_lowered(&p, "src/x.py", "x", "__init__.py", &segs), ItemKind::Glue);
    assert_eq!(classify_lowered(&p, "src/x.py", "x", "x.py", &segs), ItemKind::Discard);
    assert_eq!(classify_lowered(&p, "src/Test.py", "x", "x.py", &segs), ItemKind::Discard);
    let cmd_segs: Vec<String> = vec!["cmd".into(), "x.py".into()];
    assert_eq!(classify_lowered(&p, "cmd/x.py", "x", "x.py", &cmd_segs), ItemKind::Entrypoint);
}

use cnbl::cmd::eat::{action_for, default_vault_dir, eat_outcome, eat_step, EatAction, EatConfig, EatStep};
use cnbl::ecosystem::{Destination, RouteDecision};
use cnbl::model::{HarvestItem, ItemKind, SourceLang};

fn cfg() -> EatConfig {
    cfg_run(true)
}

fn cfg_run(dry_run: bool) -> EatConfig {
    EatConfig {
        input: None,
        scaffold_dir: "/tmp/scaffold".into(),
        repo_root: "/tmp/repos".into(),
        vault_dir: "/tmp/vault".into(),
        source_repo_name: "my-repo".into(),
        dry_run,
    }
}

fn decision(path: &str, dest: Destination) -> RouteDecision {
    RouteDecision {
        item: HarvestItem { rel_path: path.into(), lang: SourceLang::Rust, kind: ItemKind::Config, size_bytes: 10, notes: None },
        destination: dest,
        rationale: "test".into(),
    }
}

#[test]
fn archive_goes_under_vault_and_source_repo() {
    match action_for(&cfg(), &decision("/tmp/source/config.toml", Destination::Archive)) {
        EatAction::Archive { src, dest } => {
            assert_eq!(src, "/tmp/source/config.toml");
            assert_eq!(dest, "/tmp/vault/my-repo/tmp/source/config.toml");
        }
        other => panic!("unexpected {other:?}"),
    }
    match action_for(&cfg(), &decision("src/a.toml", Destination::Archive)) {
        EatAction::Archive { dest, .. } => assert_eq!(dest, "/tmp/vault/my-repo/src/a.toml"),
        other => panic!("unexpected {other:?}"),
    }
}

#[test]
fn repos_and_new_crates_get_the_scaffold() {
    let d = decision("src/lib.rs", Destination::ExistingRepo { name: "doob".into(), url: "u".into() });
    match action_for(&cfg(), &d) {
        EatAction::CopyScaffold { name, scaffold_src, repo_dest } => {
            assert_eq!(name, "doob");
            assert_eq!(scaffold_src, "/tmp/scaffold/doob");
            assert_eq!(repo_dest, "/tmp/repos/doob");
        }
        other => panic!("unexpected {other:?}"),
    }
    let d = decision("src/x.rs", Destination::NewCrate { suggested_name: "x".into() });
    assert!(matches!(action_for(&cfg(), &d), EatAction::CopyScaffold { ref repo_dest, .. } if repo_dest == "/tmp/repos/x"));
    let d = decision("junk", Destination::Discard);
    assert!(matches!(action_for(&cfg(), &d), EatAction::Discard { ref path } if path == "junk"));
}

#[test]
fn default_vault() {
    assert_eq!(default_vault_dir(), "/Volumes/Extreme SSD/vault/cnbl-artifacts");
}

#[test]
fn missing_repo_is_skipped_even_in_a_dry_run() {
    let d = decision("src/lib.rs", Destination::ExistingRepo { name: "doob".into(), url: "u".into() });
    assert!(matches!(eat_step(&cfg_run(true), &d, false), EatStep::Skip));
    assert!(matches!(eat_step(&cfg_run(false), &d, false), EatStep::Skip));
    let d = decision("src/x.rs", Destination::NewCrate { suggested_name: "x".into() });
    assert!(matches!(eat_step(&cfg_run(false), &d, false), EatStep::Skip));
}

#[test]
fn dry_run_only_reports() {
    let d = decision("src/lib.rs", Destination::ExistingRepo { name: "doob".into(), url: "u".into() });
    assert!(matches!(eat_step(&cfg_run(true), &d, true), EatStep::Report(EatAction::CopyScaffold { .. })));
    let a = decision("/tmp/source/config.toml", Destination::Archive);
    assert!(matches!(eat_step(&cfg_run(true), &a, false), EatStep::Report(EatAction::Archive { .. })));
    let x = decision("junk", Destination::Discard);
    assert!(matches!(eat_step(&cfg_run(true), &x, true), EatStep::Report(EatAction::Discard { .. })));
}

#[test]
fn real_run_performs_copies() {
    let d = decision("src/lib.rs", Destination::ExistingRepo { name: "doob".into(), url: "u".into() });
    match eat_step(&cfg_run(false), &d, true) {
        EatStep::Perform(EatAction::CopyScaffold { repo_dest, .. }) => assert_eq!(repo_dest, "/tmp/repos/doob"),
        other => panic!("unexpected {other:?}"),
    }
    let a = decision("/tmp/source/config.toml", Destination::Archive);
    assert!(matches!(eat_step(&cfg_run(false), &a, true), EatStep::Perform(EatAction::Archive { .. })));
    let x = decision("junk", Destination::Discard);
    assert!(matches!(eat_step(&cfg_run(false), &x, true), EatStep::Nothing));
}

#[test]
fn outcome_fails_exactly_when_a_copy_failed() {
    assert_eq!(eat_outcome(true, 3), Ok(()));
    assert_eq!(eat_outcome(false, 0), Ok(()));
    assert_eq!(eat_outcome(false, 2), Err(2));
}

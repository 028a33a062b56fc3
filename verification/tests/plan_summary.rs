use cnbl::cmd::plan::{build_summary, destination_label, new_crate_names, repo_counts, run};
use cnbl::ecosystem::{route, Destination, EcosystemRepo, RouteDecision};
use cnbl::model::{HarvestItem, ItemKind, SourceLang};

fn make_repos() -> Vec<EcosystemRepo> {
    vec![
        EcosystemRepo { name: "harvestrs".into(), description: Some("Multi-source data sync to JSONL".into()), url: "https://github.com/89jobrien/harvestrs".into() },
        EcosystemRepo { name: "doob".into(), description: Some("todo CLI".into()), url: "https://github.com/89jobrien/doob".into() },
    ]
}

fn item(kind: ItemKind, path: &str) -> HarvestItem {
    HarvestItem { rel_path: path.to_string(), lang: SourceLang::Shell, kind, size_bytes: 10, notes: None }
}

#[test]
fn summary_counts_correct() {
    let repos = make_repos();
    let items = vec![
        item(ItemKind::Discard, "junk.bin"),
        item(ItemKind::Config, "Cargo.toml"),
        item(ItemKind::Script, "scripts/harvest.sh"),
    ];
    let decisions: Vec<RouteDecision> = items.into_iter().map(|i| route(i, &repos)).collect();
    let s = build_summary(&decisions);
    assert_eq!(s.total, 3);
    assert_eq!(s.discard, 1);
    assert_eq!(s.archive, 1);
    assert_eq!(s.existing_repo, 1);
}

#[test]
fn run_routes_every_item_in_order() {
    let repos = make_repos();
    let items = vec![
        item(ItemKind::Script, "scripts/harvest.sh"),
        item(ItemKind::DomainLogic, "src/a-b.py"),
        item(ItemKind::DomainLogic, "lib/a-b.rs"),
        item(ItemKind::Spec, "docs/tasks.md"),
    ];
    let plan = run(&items, &repos);
    assert_eq!(plan.items.len(), 4);
    assert_eq!(plan.items[1].item.rel_path, "src/a-b.py");
    assert_eq!(plan.summary.total, 4);
    assert_eq!(plan.summary.existing_repo, 2);
    assert_eq!(plan.summary.new_crate, 2);
    assert_eq!(new_crate_names(&plan.items), vec!["a_b".to_string()]);
    let counts = repo_counts(&plan.items);
    assert_eq!(counts, vec![("doob".to_string(), 1), ("harvestrs".to_string(), 1)]);
}

#[test]
fn repo_counts_groups_names() {
    let d = |name: &str| RouteDecision {
        item: item(ItemKind::DomainLogic, "x"),
        destination: Destination::ExistingRepo { name: name.into(), url: String::new() },
        rationale: String::new(),
    };
    let ds = vec![d("b"), d("a"), d("b"), RouteDecision { item: item(ItemKind::Discard, "y"), destination: Destination::Discard, rationale: String::new() }, d("b"), d("ab"), d("B"), d("")];
    assert_eq!(
        repo_counts(&ds),
        vec![
            ("".to_string(), 1),
            ("B".to_string(), 1),
            ("a".to_string(), 1),
            ("ab".to_string(), 1),
            ("b".to_string(), 3),
        ]
    );
    assert!(new_crate_names(&ds).is_empty());
}

#[test]
fn destination_labels() {
    assert_eq!(destination_label(&Destination::ExistingRepo { name: "doob".into(), url: "u".into() }), "→ doob");
    assert_eq!(destination_label(&Destination::NewCrate { suggested_name: "auth".into() }), "→ new:auth");
    assert_eq!(destination_label(&Destination::Archive), "→ archive");
    assert_eq!(destination_label(&Destination::Discard), "→ discard");
}

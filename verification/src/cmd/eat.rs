//! `cnbl eat` — what to copy into the repos and what to archive.

use vstd::prelude::*;

use crate::ecosystem::{Destination, DestinationView, RouteDecision};
use crate::paths::{joined, path_join, path_strip_prefix, stripped};
use crate::text::owned;

verus! {

/// The settings of an `eat` run.
#[derive(Debug)]
pub struct EatConfig {
    /// The plan file, or `None` for standard input.
    pub input: Option<String>,
    /// Where the generated stubs live.
    pub scaffold_dir: String,
    /// The directory that holds the local repos.
    pub repo_root: String,
    /// Where archived files are copied to.
    pub vault_dir: String,
    /// The name of the repository being absorbed.
    pub source_repo_name: String,
    /// Report what would happen without touching anything.
    pub dry_run: bool,
}

/// What `eat` does for one decision.
#[derive(Debug)]
pub enum EatAction {
    /// Copy the source file `src` to `dest` in the vault.
    Archive { src: String, dest: String },
    /// Copy the scaffold directory `scaffold_src` into the repo at
    /// `repo_dest` (when that repo exists).
    CopyScaffold { name: String, scaffold_src: String, repo_dest: String },
    /// Nothing to do for the discarded file `path`.
    Discard { path: String },
}

/// A path made relative: with a leading root removed, unchanged otherwise.
pub open spec fn without_root(p: Seq<char>) -> Seq<char> {
    match stripped(p, "/"@) {
        Some(r) => r,
        None => p,
    }
}

/// `action` is what `eat` does for `decision` under `cfg`.
pub open spec fn action_is(action: EatAction, cfg: EatConfig, decision: RouteDecision) -> bool {
    match decision.destination@ {
        DestinationView::Archive => action matches EatAction::Archive { src, dest } && src@
            == decision.item.rel_path@ && dest@ == joined(
            joined(cfg.vault_dir@, cfg.source_repo_name@),
            without_root(decision.item.rel_path@),
        ),
        DestinationView::ExistingRepo { name, .. } => action matches EatAction::CopyScaffold {
            name: n,
            scaffold_src,
            repo_dest,
        } && n@ == name && scaffold_src@ == joined(cfg.scaffold_dir@, name) && repo_dest@
            == joined(cfg.repo_root@, name),
        DestinationView::NewCrate { suggested_name } => action matches EatAction::CopyScaffold {
            name: n,
            scaffold_src,
            repo_dest,
        } && n@ == suggested_name && scaffold_src@ == joined(cfg.scaffold_dir@, suggested_name)
            && repo_dest@ == joined(cfg.repo_root@, suggested_name),
        DestinationView::Discard => action matches EatAction::Discard { path } && path@
            == decision.item.rel_path@,
    }
}

/// The vault used when none is given.
pub fn default_vault_dir() -> (s: String)
    ensures
        s@ == "/Volumes/Extreme SSD/vault/cnbl-artifacts"@,
{
    owned("/Volumes/Extreme SSD/vault/cnbl-artifacts")
}

/// The copies for one decision. An archived file goes to
/// `<vault>/<source repo>/<path>` (a leading `/` of the path dropped, so that
/// absolute paths nest under the vault); a repo or new crate gets the scaffold
/// `<scaffold dir>/<name>` copied into `<repo root>/<name>`.
pub fn action_for(cfg: &EatConfig, decision: &RouteDecision) -> (a: EatAction)
    ensures
        action_is(a, *cfg, *decision),
        a matches EatAction::CopyScaffold { name, scaffold_src, repo_dest } ==> scaffold_src@
            == joined(cfg.scaffold_dir@, name@) && repo_dest@ == joined(cfg.repo_root@, name@),
        a matches EatAction::CopyScaffold { name, .. } ==> match decision.destination@ {
            DestinationView::ExistingRepo { name: n, .. } => name@ == n,
            DestinationView::NewCrate { suggested_name } => name@ == suggested_name,
            _ => false,
        },
        a matches EatAction::Archive { src, dest } ==> decision.destination@ is Archive && src@
            == decision.item.rel_path@ && dest@ == joined(
            joined(cfg.vault_dir@, cfg.source_repo_name@),
            match stripped(decision.item.rel_path@, "/"@) {
                Some(r) => r,
                None => decision.item.rel_path@,
            },
        ),
        a matches EatAction::Discard { path } ==> decision.destination@ is Discard && path@
            == decision.item.rel_path@,
{
    match &decision.destination {
        Destination::Archive => {
            let src = decision.item.rel_path.clone();
            let rel = match path_strip_prefix(src.as_str(), "/") {
                Some(r) => r,
                None => src.clone(),
            };
            let vault = path_join(cfg.vault_dir.as_str(), cfg.source_repo_name.as_str());
            let dest = path_join(vault.as_str(), rel.as_str());
            EatAction::Archive { src, dest }
        },
        Destination::ExistingRepo { name, .. } => EatAction::CopyScaffold {
            name: name.clone(),
            scaffold_src: path_join(cfg.scaffold_dir.as_str(), name.as_str()),
            repo_dest: path_join(cfg.repo_root.as_str(), name.as_str()),
        },
        Destination::NewCrate { suggested_name } => EatAction::CopyScaffold {
            name: suggested_name.clone(),
            scaffold_src: path_join(cfg.scaffold_dir.as_str(), suggested_name.as_str()),
            repo_dest: path_join(cfg.repo_root.as_str(), suggested_name.as_str()),
        },
        Destination::Discard => EatAction::Discard { path: decision.item.rel_path.clone() },
    }
}

/// What `eat` does with one decision, once it knows whether the target repo
/// exists.
#[derive(Debug)]
pub enum EatStep {
    /// The target repo is missing: skip the decision with a warning.
    Skip,
    /// Dry run: report the action without touching anything.
    Report(EatAction),
    /// Carry the action out.
    Perform(EatAction),
    /// Nothing to do and nothing to report.
    Nothing,
}

/// `step` is what `eat` does with `decision` under `cfg` when the target
/// repo exists or not (`repo_exists` matters for repos and new crates only).
pub open spec fn step_is(step: EatStep, cfg: EatConfig, decision: RouteDecision, repo_exists: bool) -> bool {
    match decision.destination@ {
        DestinationView::Discard => if cfg.dry_run {
            step matches EatStep::Report(a) && action_is(a, cfg, decision)
        } else {
            step is Nothing
        },
        DestinationView::Archive => if cfg.dry_run {
            step matches EatStep::Report(a) && action_is(a, cfg, decision)
        } else {
            step matches EatStep::Perform(a) && action_is(a, cfg, decision)
        },
        _ => if !repo_exists {
            step is Skip
        } else if cfg.dry_run {
            step matches EatStep::Report(a) && action_is(a, cfg, decision)
        } else {
            step matches EatStep::Perform(a) && action_is(a, cfg, decision)
        },
    }
}

/// The step for one decision: a missing target repo is skipped (also in a
/// dry run), a dry run only reports, and otherwise archives and scaffold
/// copies are performed; discarded files need nothing.
pub fn eat_step(cfg: &EatConfig, decision: &RouteDecision, repo_exists: bool) -> (s: EatStep)
    ensures
        step_is(s, *cfg, *decision, repo_exists),
        cfg.dry_run ==> !(s is Perform),
{
    let action = action_for(cfg, decision);
    match action {
        EatAction::CopyScaffold { .. } if !repo_exists => EatStep::Skip,
        EatAction::Discard { .. } if !cfg.dry_run => EatStep::Nothing,
        _ => if cfg.dry_run {
            EatStep::Report(action)
        } else {
            EatStep::Perform(action)
        },
    }
}

/// The result of a run in which `failed` actions failed: a dry run always
/// succeeds; otherwise the run fails, with that count, exactly when some
/// action failed.
pub fn eat_outcome(dry_run: bool, failed: usize) -> (r: Result<(), usize>)
    ensures
        dry_run ==> r is Ok,
        !dry_run ==> (r is Err <==> failed > 0),
        r matches Err(n) ==> n == failed,
{
    if !dry_run && failed > 0 {
        Err(failed)
    } else {
        Ok(())
    }
}

/// Every scaffold copy, for an existing repo or a new crate alike, takes the
/// generated scaffold `<scaffold dir>/<name>` into `<repo root>/<name>`;
/// every archive copy takes the item's own file to `<vault>/<source repo>/`
/// followed by its path with a leading root removed; a discard names the
/// item's path.
pub proof fn law_copies_take_scaffold_into_repo(a: EatAction, cfg: EatConfig, d: RouteDecision)
    requires
        action_is(a, cfg, d),
    ensures
        a matches EatAction::CopyScaffold { name, scaffold_src, repo_dest } ==> scaffold_src@
            == joined(cfg.scaffold_dir@, name@) && repo_dest@ == joined(cfg.repo_root@, name@),
        a matches EatAction::CopyScaffold { name, .. } ==> (d.destination@ is ExistingRepo
            || d.destination@ is NewCrate),
        a matches EatAction::Archive { src, dest } ==> src@ == d.item.rel_path@ && d.destination@ is Archive
            && dest@ == joined(
            joined(cfg.vault_dir@, cfg.source_repo_name@),
            match stripped(d.item.rel_path@, "/"@) {
                Some(r) => r,
                None => d.item.rel_path@,
            },
        ),
        a matches EatAction::Discard { path } ==> path@ == d.item.rel_path@ && d.destination@ is Discard,
{
}

/// A repo and a new crate of the same name get the same scaffold copy.
pub proof fn law_repo_and_new_crate_copy_alike(
    a1: EatAction,
    a2: EatAction,
    cfg: EatConfig,
    d1: RouteDecision,
    d2: RouteDecision,
    name: Seq<char>,
)
    requires
        d1.destination@ matches DestinationView::ExistingRepo { name: n1, .. } && n1 == name,
        d2.destination@ matches DestinationView::NewCrate { suggested_name: n2 } && n2 == name,
        action_is(a1, cfg, d1),
        action_is(a2, cfg, d2),
    ensures
        a1 is CopyScaffold,
        a2 is CopyScaffold,
        a1->name@ == name && a2->name@ == name,
        a1->scaffold_src@ == joined(cfg.scaffold_dir@, name) && a2->scaffold_src@ == joined(
            cfg.scaffold_dir@,
            name,
        ),
        a1->repo_dest@ == joined(cfg.repo_root@, name) && a2->repo_dest@ == joined(
            cfg.repo_root@,
            name,
        ),
{
}

} // verus!

//! Ecosystem routing — maps `HarvestItem`s to destination repos or new crates.

use vstd::prelude::*;

use crate::model::{HarvestItem, ItemKind};
use crate::paths::{components_of, file_stem_of, path_components, path_file_stem};
use crate::text::{
    chars_of, contains_str, dashes_to_underscores, has_sub, lowercase, owned, push_char,
    replace_dashes, str_eq, to_lowercase,
};

verus! {

// ============================================================================
// DOMAIN TYPES
// ============================================================================

/// A repository of the ecosystem that items can be routed to.
#[derive(Debug, Clone)]
pub struct EcosystemRepo {
    pub name: String,
    pub description: Option<String>,
    pub url: String,
}

/// Where a harvested item goes.
#[derive(Debug, Clone)]
pub enum Destination {
    ExistingRepo { name: String, url: String },
    NewCrate { suggested_name: String },
    Archive,
    Discard,
}

/// A destination with its texts as character sequences.
pub enum DestinationView {
    ExistingRepo { name: Seq<char>, url: Seq<char> },
    NewCrate { suggested_name: Seq<char> },
    Archive,
    Discard,
}

impl View for Destination {
    type V = DestinationView;

    open spec fn view(&self) -> DestinationView {
        match self {
            Destination::ExistingRepo { name, url } => DestinationView::ExistingRepo {
                name: name@,
                url: url@,
            },
            Destination::NewCrate { suggested_name } => DestinationView::NewCrate {
                suggested_name: suggested_name@,
            },
            Destination::Archive => DestinationView::Archive,
            Destination::Discard => DestinationView::Discard,
        }
    }
}

/// The routing of one item, with the reason for it.
#[derive(Debug, Clone)]
pub struct RouteDecision {
    pub item: HarvestItem,
    pub destination: Destination,
    pub rationale: String,
}

// ============================================================================
// SPECIFICATION
// ============================================================================

/// The text that keywords are searched in: the repo's name, a space, and its
/// description (empty when it has none).
pub open spec fn keyword_haystack(repo: EcosystemRepo) -> Seq<char> {
    repo.name@.push(' ') + match repo.description {
        Some(d) => d@,
        None => Seq::empty(),
    }
}

/// How many of `keywords` occur in `hay` (each keyword counted once per
/// position in the list).
pub open spec fn keyword_count(hay: Seq<char>, keywords: Seq<Seq<char>>) -> nat
    decreases keywords.len(),
{
    if keywords.len() == 0 {
        0
    } else {
        keyword_count(hay, keywords.drop_last()) + if has_sub(hay, keywords.last()) {
            1nat
        } else {
            0nat
        }
    }
}

/// The score of a repo for a list of keywords: how many occur in its
/// lower-cased name and description.
pub open spec fn repo_score(repo: EcosystemRepo, keywords: Seq<Seq<char>>) -> nat {
    keyword_count(lowercase(keyword_haystack(repo)), keywords)
}

/// The scores of all repos, in order.
pub open spec fn repo_scores_spec(repos: Seq<EcosystemRepo>, keywords: Seq<Seq<char>>) -> Seq<nat> {
    Seq::new(repos.len(), |i: int| repo_score(repos[i], keywords))
}

/// Index `i` holds the best positive score: no score is higher, and every
/// later score is lower (ties go to the last repo).
pub open spec fn is_best(scores: Seq<nat>, i: int) -> bool {
    &&& 0 <= i < scores.len()
    &&& scores[i] > 0
    &&& forall|j: int| 0 <= j < scores.len() ==> #[trigger] scores[j] <= scores[i]
    &&& forall|j: int| i < j < scores.len() ==> #[trigger] scores[j] < scores[i]
}

/// No repo scores above zero.
pub open spec fn no_positive_score(scores: Seq<nat>) -> bool {
    forall|j: int| 0 <= j < scores.len() ==> #[trigger] scores[j] == 0
}

/// Index `i` is the first repo named `name`.
pub open spec fn is_first_named(repos: Seq<EcosystemRepo>, name: Seq<char>, i: int) -> bool {
    &&& 0 <= i < repos.len()
    &&& repos[i].name@ == name
    &&& forall|j: int| 0 <= j < i ==> #[trigger] repos[j].name@ != name
}

/// The decision for a fixed target repo: that repo when the list has it,
/// otherwise a new crate of that name.
pub open spec fn named_outcome(
    repos: Seq<EcosystemRepo>,
    name: Seq<char>,
    rationale: Seq<char>,
) -> (DestinationView, Seq<char>) {
    if exists|i: int| is_first_named(repos, name, i) {
        let i = choose|i: int| is_first_named(repos, name, i);
        (DestinationView::ExistingRepo { name: repos[i].name@, url: repos[i].url@ }, rationale)
    } else {
        (DestinationView::NewCrate { suggested_name: name }, rationale + " (repo not in map)"@)
    }
}

/// The decision of the keyword rule: the best-scoring repo, otherwise a new
/// crate named after the file stem.
pub open spec fn keyword_outcome(
    repos: Seq<EcosystemRepo>,
    lowered_stem: Seq<char>,
    scores: Seq<nat>,
) -> (DestinationView, Seq<char>) {
    if exists|i: int| is_best(scores, i) {
        let i = choose|i: int| is_best(scores, i);
        (
            DestinationView::ExistingRepo { name: repos[i].name@, url: repos[i].url@ },
            "keyword match on repo '"@ + repos[i].name@ + "'"@,
        )
    } else {
        let s = dashes_to_underscores(lowered_stem);
        (
            DestinationView::NewCrate { suggested_name: s },
            "no ecosystem match; suggested new crate '"@ + s + "'"@,
        )
    }
}

/// The routing rules, on the lower-cased path, the lower-cased file stem and
/// the repo scores: destination and rationale.
pub open spec fn route_outcome(
    kind: ItemKind,
    repos: Seq<EcosystemRepo>,
    lp: Seq<char>,
    lowered_stem: Seq<char>,
    scores: Seq<nat>,
) -> (DestinationView, Seq<char>) {
    match kind {
        ItemKind::Discard => (DestinationView::Discard, "item kind is Discard"@),
        ItemKind::TestHarness => (DestinationView::Discard, "tests stay with their source repo"@),
        ItemKind::Config => (DestinationView::Archive, "config files are archived"@),
        ItemKind::Script => if has_sub(lp, "harvest"@) || has_sub(lp, "sync"@) || has_sub(
            lp,
            "ingest"@,
        ) {
            named_outcome(repos, "harvestrs"@, "script path matches harvest/sync/ingest"@)
        } else if has_sub(lp, "hook"@) || has_sub(lp, "course"@) || has_sub(lp, "block"@) {
            named_outcome(repos, "coursers"@, "script path matches hook/course/block"@)
        } else if has_sub(lp, "fmt"@) || has_sub(lp, "format"@) || has_sub(lp, "lint"@) {
            named_outcome(repos, "fmtx"@, "script path matches fmt/format/lint"@)
        } else {
            (DestinationView::Archive, "script with no matching ecosystem target"@)
        },
        ItemKind::Spec if has_sub(lp, "todo"@) || has_sub(lp, "task"@) => named_outcome(
            repos,
            "doob"@,
            "spec path matches todo/task"@,
        ),
        _ => keyword_outcome(repos, lowered_stem, scores),
    }
}

/// The lower-cased file stem of a path, "unknown" lower-cased when it has none.
pub open spec fn lowered_stem_or_unknown(path: Seq<char>) -> Seq<char> {
    match file_stem_of(path) {
        Some(s) => lowercase(s),
        None => lowercase("unknown"@),
    }
}

/// Destination and rationale that `route` gives `item` against `repos`.
pub open spec fn route_spec(item: HarvestItem, repos: Seq<EcosystemRepo>) -> (
    DestinationView,
    Seq<char>,
) {
    route_outcome(
        item.kind,
        repos,
        lowercase(item.rel_path@),
        lowered_stem_or_unknown(item.rel_path@),
        repo_scores_spec(repos, components_of(item.rel_path@)),
    )
}

/// The view of a list of strings.
pub open spec fn strings_view(v: Seq<String>) -> Seq<Seq<char>> {
    v.map_values(|s: String| s@)
}

/// The scores as natural numbers.
pub open spec fn scores_view(v: Seq<usize>) -> Seq<nat> {
    v.map_values(|x: usize| x as nat)
}

// ============================================================================
// ROUTING
// ============================================================================

/// Number of `keywords` that occur in the (already lower-cased) text `hay`.
pub fn count_keywords(hay: &str, keywords: &[String]) -> (n: usize)
    ensures
        n == keyword_count(hay@, strings_view(keywords@)),
{
    let chars = chars_of(hay);
    let hay = chars.as_slice();
    let mut n: usize = 0;
    let len = keywords.len();
    for i in 0..len
        invariant
            len == keywords@.len(),
            n <= i,
            n == keyword_count(hay@, strings_view(keywords@).take(i as int)),
    {
        assert(strings_view(keywords@).take(i + 1).drop_last() =~= strings_view(keywords@).take(
            i as int,
        ));
        if contains_str(hay, keywords[i].as_str()) {
            n = n + 1;
        }
    }
    assert(strings_view(keywords@).take(len as int) =~= strings_view(keywords@));
    n
}

/// Score a repo against a set of keywords from the item path: how many occur
/// in its lower-cased "name description".
pub fn score_repo(repo: &EcosystemRepo, keywords: &[String]) -> (n: usize)
    ensures
        n == repo_score(*repo, strings_view(keywords@)),
{
    let mut hay = repo.name.clone();
    push_char(&mut hay, ' ');
    match &repo.description {
        Some(d) => hay.append(d.as_str()),
        None => {
            assert(hay@ + Seq::<char>::empty() =~= hay@);
        },
    }
    let lowered = to_lowercase(hay.as_str());
    count_keywords(lowered.as_str(), keywords)
}

/// The score of every repo, in order.
pub fn repo_scores(keywords: &[String], repos: &[EcosystemRepo]) -> (v: Vec<usize>)
    ensures
        scores_view(v@) == repo_scores_spec(repos@, strings_view(keywords@)),
{
    let mut v: Vec<usize> = Vec::new();
    let n = repos.len();
    for i in 0..n
        invariant
            n == repos@.len(),
            v@.len() == i,
            forall|j: int|
                0 <= j < i ==> #[trigger] v@[j] as nat == repo_score(
                    repos@[j],
                    strings_view(keywords@),
                ),
    {
        v.push(score_repo(&repos[i], keywords));
    }
    assert(scores_view(v@) =~= repo_scores_spec(repos@, strings_view(keywords@)));
    v
}

/// The index of the best positive score: the highest, the last of equals.
/// `None` when no score is positive.
pub fn best_match(scores: &[usize]) -> (r: Option<usize>)
    ensures
        r is None <==> no_positive_score(scores_view(scores@)),
        r matches Some(i) ==> is_best(scores_view(scores@), i as int),
{
    let ghost sv = scores_view(scores@);
    let mut best: Option<usize> = None;
    let n = scores.len();
    for i in 0..n
        invariant
            n == scores@.len(),
            sv == scores_view(scores@),
            sv.len() == n,
            best is None ==> forall|j: int| 0 <= j < i ==> #[trigger] sv[j] == 0,
            best matches Some(b) ==> {
                &&& b < i
                &&& sv[b as int] > 0
                &&& forall|j: int| 0 <= j < i ==> #[trigger] sv[j] <= sv[b as int]
                &&& forall|j: int| b < j < i ==> #[trigger] sv[j] < sv[b as int]
            },
    {
        let s = scores[i];
        let take = match best {
            None => s > 0,
            Some(b) => s > 0 && s >= scores[b],
        };
        if take {
            best = Some(i);
        }
    }
    best
}

/// Find the best-matching repo for a set of keywords. Returns `None` if no
/// repo scores above zero; among equal best scores the last repo wins.
pub fn domain_match<'a>(keywords: &[String], repos: &'a [EcosystemRepo]) -> (r: Option<
    &'a EcosystemRepo,
>)
    ensures
        r is None <==> no_positive_score(repo_scores_spec(repos@, strings_view(keywords@))),
        r matches Some(repo) ==> exists|i: int|
            is_best(repo_scores_spec(repos@, strings_view(keywords@)), i) && *repo == repos@[i],
{
    let scores = repo_scores(keywords, repos);
    match best_match(scores.as_slice()) {
        Some(i) => Some(&repos[i]),
        None => None,
    }
}

/// Look up a named repo and build an ExistingRepo destination, or fall back
/// to NewCrate if the repo isn't in the list.
fn repo_decision(item: HarvestItem, repo_name: &str, repos: &[EcosystemRepo], rationale: &str) -> (d:
    RouteDecision)
    ensures
        d.item == item,
        (d.destination@, d.rationale@) == named_outcome(repos@, repo_name@, rationale@),
{
    let n = repos.len();
    for i in 0..n
        invariant
            n == repos@.len(),
            forall|j: int| 0 <= j < i ==> #[trigger] repos@[j].name@ != repo_name@,
    {
        if str_eq(repos[i].name.as_str(), repo_name) {
            assert(is_first_named(repos@, repo_name@, i as int));
            let ghost k = choose|k: int| is_first_named(repos@, repo_name@, k);
            assert(k == i) by {
                if k < i {
                    assert(repos@[k].name@ != repo_name@);
                }
                if k > i {
                    assert(repos@[i as int].name@ != repo_name@);
                }
            }
            return RouteDecision {
                item,
                destination: Destination::ExistingRepo {
                    name: repos[i].name.clone(),
                    url: repos[i].url.clone(),
                },
                rationale: owned(rationale),
            };
        }
    }
    let mut why = owned(rationale);
    why.append(" (repo not in map)");
    RouteDecision {
        item,
        destination: Destination::NewCrate { suggested_name: owned(repo_name) },
        rationale: why,
    }
}

/// The routing rules, given the item's lower-cased path, its lower-cased
/// file stem ("unknown" where it has none) and the score of every repo.
pub fn decide_route(
    item: HarvestItem,
    repos: &[EcosystemRepo],
    lowered_path: &str,
    lowered_stem: &str,
    scores: &[usize],
) -> (d: RouteDecision)
    requires
        scores@.len() == repos@.len(),
    ensures
        d.item == item,
        (d.destination@, d.rationale@) == route_outcome(
            item.kind,
            repos@,
            lowered_path@,
            lowered_stem@,
            scores_view(scores@),
        ),
{
    let lp = chars_of(lowered_path);
    let lp = lp.as_slice();
    match item.kind {
        ItemKind::Discard => {
            return RouteDecision {
                item,
                destination: Destination::Discard,
                rationale: owned("item kind is Discard"),
            };
        },
        ItemKind::TestHarness => {
            return RouteDecision {
                item,
                destination: Destination::Discard,
                rationale: owned("tests stay with their source repo"),
            };
        },
        ItemKind::Config => {
            return RouteDecision {
                item,
                destination: Destination::Archive,
                rationale: owned("config files are archived"),
            };
        },
        ItemKind::Script => {
            if contains_str(lp, "harvest") || contains_str(lp, "sync") || contains_str(
                lp,
                "ingest",
            ) {
                return repo_decision(
                    item,
                    "harvestrs",
                    repos,
                    "script path matches harvest/sync/ingest",
                );
            }
            if contains_str(lp, "hook") || contains_str(lp, "course") || contains_str(lp, "block") {
                return repo_decision(item, "coursers", repos, "script path matches hook/course/block");
            }
            if contains_str(lp, "fmt") || contains_str(lp, "format") || contains_str(lp, "lint") {
                return repo_decision(item, "fmtx", repos, "script path matches fmt/format/lint");
            }
            return RouteDecision {
                item,
                destination: Destination::Archive,
                rationale: owned("script with no matching ecosystem target"),
            };
        },
        ItemKind::Spec => {
            if contains_str(lp, "todo") || contains_str(lp, "task") {
                return repo_decision(item, "doob", repos, "spec path matches todo/task");
            }
        },
        _ => {},
    }
    let ghost sv = scores_view(scores@);
    match best_match(scores) {
        Some(i) => {
            let ghost k = choose|k: int| is_best(sv, k);
            assert(k == i) by {
                assert(is_best(sv, i as int));
                if k < i {
                    assert(sv[i as int] < sv[k]);
                    assert(sv[i as int] <= sv[k]);
                }
                if k > i {
                    assert(sv[k] < sv[i as int]);
                }
            }
            let repo = &repos[i];
            let mut why = owned("keyword match on repo '");
            why.append(repo.name.as_str());
            why.append("'");
            RouteDecision {
                item,
                destination: Destination::ExistingRepo {
                    name: repo.name.clone(),
                    url: repo.url.clone(),
                },
                rationale: why,
            }
        },
        None => {
            assert(!exists|k: int| is_best(sv, k)) by {
                if exists|k: int| is_best(sv, k) {
                    let k = choose|k: int| is_best(sv, k);
                    assert(sv[k] == 0);
                }
            }
            let suggested = replace_dashes(lowered_stem);
            let mut why = owned("no ecosystem match; suggested new crate '");
            why.append(suggested.as_str());
            why.append("'");
            RouteDecision {
                item,
                destination: Destination::NewCrate { suggested_name: suggested },
                rationale: why,
            }
        },
    }
}

/// Apply the routing rules and return a `RouteDecision`.
///
/// Discard and TestHarness items are discarded, Config items archived;
/// scripts go to harvestrs / coursers / fmtx by path keywords or are
/// archived; todo/task specs go to doob. Every other item goes to the repo
/// whose name and description share the most path components with it, or
/// else to a new crate named after its file stem.
pub fn route(item: HarvestItem, repos: &[EcosystemRepo]) -> (d: RouteDecision)
    ensures
        d.item == item,
        (d.destination@, d.rationale@) == route_spec(item, repos@),
{
    let lowered = to_lowercase(item.rel_path.as_str());
    let keywords = path_components(item.rel_path.as_str());
    let scores = repo_scores(keywords.as_slice(), repos);
    let stem = match path_file_stem(item.rel_path.as_str()) {
        Some(s) => s,
        None => owned("unknown"),
    };
    let lowered_stem = to_lowercase(stem.as_str());
    assert(scores_view(scores@).len() == scores@.len());
    decide_route(item, repos, lowered.as_str(), lowered_stem.as_str(), scores.as_slice())
}

// ============================================================================
// LAWS
// ============================================================================

/// Fixed destinations: Discard and TestHarness items are discarded and Config
/// items archived, whatever their path and the repo list, each with its fixed
/// rationale.
pub proof fn law_fixed_destinations(item: HarvestItem, repos: Seq<EcosystemRepo>)
    ensures
        item.kind == ItemKind::Discard ==> route_spec(item, repos) == (
            DestinationView::Discard,
            "item kind is Discard"@,
        ),
        item.kind == ItemKind::TestHarness ==> route_spec(item, repos) == (
            DestinationView::Discard,
            "tests stay with their source repo"@,
        ),
        item.kind == ItemKind::Config ==> route_spec(item, repos) == (
            DestinationView::Archive,
            "config files are archived"@,
        ),
{
}

/// The repo list holds a repo with this name and URL.
pub open spec fn listed(repos: Seq<EcosystemRepo>, name: Seq<char>, url: Seq<char>) -> bool {
    exists|i: int| 0 <= i < repos.len() && #[trigger] repos[i].name@ == name && repos[i].url@ == url
}

proof fn lemma_named_outcome_is_listed(repos: Seq<EcosystemRepo>, name: Seq<char>, why: Seq<char>)
    ensures
        named_outcome(repos, name, why).0 matches DestinationView::ExistingRepo { name: n, url } ==> listed(
            repos,
            n,
            url,
        ),
{
    if exists|i: int| is_first_named(repos, name, i) {
        let i = choose|i: int| is_first_named(repos, name, i);
        assert(listed(repos, repos[i].name@, repos[i].url@));
    }
}

/// An item is routed to an existing repo only if the repo list holds a repo
/// with that name and URL.
pub proof fn law_existing_repo_is_listed(item: HarvestItem, repos: Seq<EcosystemRepo>)
    ensures
        route_spec(item, repos).0 matches DestinationView::ExistingRepo { name, url } ==> listed(
            repos,
            name,
            url,
        ),
{
    let scores = repo_scores_spec(repos, components_of(item.rel_path@));
    if exists|i: int| is_best(scores, i) {
        let i = choose|i: int| is_best(scores, i);
        assert(listed(repos, repos[i].name@, repos[i].url@));
    }
    lemma_named_outcome_is_listed(repos, "harvestrs"@, "script path matches harvest/sync/ingest"@);
    lemma_named_outcome_is_listed(repos, "coursers"@, "script path matches hook/course/block"@);
    lemma_named_outcome_is_listed(repos, "fmtx"@, "script path matches fmt/format/lint"@);
    lemma_named_outcome_is_listed(repos, "doob"@, "spec path matches todo/task"@);
}

/// A suggested new crate name never holds a `-`.
pub proof fn law_new_crate_names_have_no_dash(item: HarvestItem, repos: Seq<EcosystemRepo>)
    ensures
        route_spec(item, repos).0 matches DestinationView::NewCrate { suggested_name } ==> !suggested_name.contains('-'),
{
    reveal_strlit("harvestrs");
    reveal_strlit("coursers");
    reveal_strlit("fmtx");
    reveal_strlit("doob");
    let s = dashes_to_underscores(lowered_stem_or_unknown(item.rel_path@));
    assert forall|k: int| 0 <= k < s.len() implies s[k] != '-' by {}
}

/// Routed to the first repo named `name` when the list has one, with
/// `rationale`; otherwise to a new crate of that name, the rationale noting
/// that the repo is not in the map.
pub open spec fn goes_to_named(
    outcome: (DestinationView, Seq<char>),
    repos: Seq<EcosystemRepo>,
    name: Seq<char>,
    rationale: Seq<char>,
) -> bool {
    if exists|i: int| 0 <= i < repos.len() && #[trigger] repos[i].name@ == name {
        exists|i: int|
            0 <= i < repos.len() && #[trigger] repos[i].name@ == name && (forall|j: int|
                0 <= j < i ==> repos[j].name@ != name) && outcome == (
                DestinationView::ExistingRepo { name, url: repos[i].url@ },
                rationale,
            )
    } else {
        outcome == (DestinationView::NewCrate { suggested_name: name }, rationale
            + " (repo not in map)"@)
    }
}

proof fn lemma_first_named_exists(repos: Seq<EcosystemRepo>, name: Seq<char>, k: int)
    requires
        0 <= k < repos.len(),
        repos[k].name@ == name,
    ensures
        exists|i: int| is_first_named(repos, name, i),
    decreases k,
{
    if exists|j: int| 0 <= j < k && #[trigger] repos[j].name@ == name {
        let j = choose|j: int| 0 <= j < k && #[trigger] repos[j].name@ == name;
        lemma_first_named_exists(repos, name, j);
    } else {
        assert(is_first_named(repos, name, k));
    }
}

proof fn lemma_named_outcome_goes_to_named(
    repos: Seq<EcosystemRepo>,
    name: Seq<char>,
    rationale: Seq<char>,
)
    ensures
        goes_to_named(named_outcome(repos, name, rationale), repos, name, rationale),
{
    if exists|i: int| 0 <= i < repos.len() && #[trigger] repos[i].name@ == name {
        let k = choose|i: int| 0 <= i < repos.len() && #[trigger] repos[i].name@ == name;
        lemma_first_named_exists(repos, name, k);
        let i = choose|i: int| is_first_named(repos, name, i);
        assert(repos[i].name@ == name);
    } else {
        assert(!exists|i: int| is_first_named(repos, name, i)) by {
            if exists|i: int| is_first_named(repos, name, i) {
                let i = choose|i: int| is_first_named(repos, name, i);
                assert(repos[i].name@ == name);
            }
        }
    }
}

/// Scripts go by the keywords of their lower-cased path: harvest / sync /
/// ingest to harvestrs, else hook / course / block to coursers, else fmt /
/// format / lint to fmtx, each the first repo of that name in the list (a new
/// crate of that name when the list has none); a script with none of these
/// words is archived. Specs whose path mentions todo or task go to doob.
pub proof fn law_keyword_targets(item: HarvestItem, repos: Seq<EcosystemRepo>)
    ensures
        ({
            let lp = lowercase(item.rel_path@);
            let harvest = has_sub(lp, "harvest"@) || has_sub(lp, "sync"@) || has_sub(lp, "ingest"@);
            let hook = has_sub(lp, "hook"@) || has_sub(lp, "course"@) || has_sub(lp, "block"@);
            let fmt = has_sub(lp, "fmt"@) || has_sub(lp, "format"@) || has_sub(lp, "lint"@);
            &&& item.kind == ItemKind::Script && harvest ==> goes_to_named(
                route_spec(item, repos),
                repos,
                "harvestrs"@,
                "script path matches harvest/sync/ingest"@,
            )
            &&& item.kind == ItemKind::Script && !harvest && hook ==> goes_to_named(
                route_spec(item, repos),
                repos,
                "coursers"@,
                "script path matches hook/course/block"@,
            )
            &&& item.kind == ItemKind::Script && !harvest && !hook && fmt ==> goes_to_named(
                route_spec(item, repos),
                repos,
                "fmtx"@,
                "script path matches fmt/format/lint"@,
            )
            &&& item.kind == ItemKind::Script && !harvest && !hook && !fmt ==> route_spec(
                item,
                repos,
            ) == (DestinationView::Archive, "script with no matching ecosystem target"@)
            &&& item.kind == ItemKind::Spec && (has_sub(lp, "todo"@) || has_sub(lp, "task"@))
                ==> goes_to_named(route_spec(item, repos), repos, "doob"@, "spec path matches todo/task"@)
        }),
{
    lemma_named_outcome_goes_to_named(repos, "harvestrs"@, "script path matches harvest/sync/ingest"@);
    lemma_named_outcome_goes_to_named(repos, "coursers"@, "script path matches hook/course/block"@);
    lemma_named_outcome_goes_to_named(repos, "fmtx"@, "script path matches fmt/format/lint"@);
    lemma_named_outcome_goes_to_named(repos, "doob"@, "spec path matches todo/task"@);
}

proof fn lemma_best_exists(scores: Seq<nat>)
    requires
        !no_positive_score(scores),
    ensures
        exists|i: int| is_best(scores, i),
    decreases scores.len(),
{
    let n = scores.len() as int;
    let pre = scores.drop_last();
    if !no_positive_score(pre) {
        lemma_best_exists(pre);
        let b = choose|i: int| is_best(pre, i);
        if scores[n - 1] >= pre[b] {
            assert(forall|j: int| 0 <= j < n - 1 ==> pre[j] == scores[j]);
            assert(is_best(scores, n - 1));
        } else {
            assert(forall|j: int| 0 <= j < n - 1 ==> pre[j] == scores[j]);
            assert(is_best(scores, b));
        }
    } else {
        assert(forall|j: int| 0 <= j < n - 1 ==> pre[j] == scores[j]);
        assert(scores[n - 1] > 0);
        assert(is_best(scores, n - 1));
    }
}

proof fn lemma_keyword_count_counts_hits(
    hay: Seq<char>,
    keywords: Seq<Seq<char>>,
    found: spec_fn(Seq<char>) -> bool,
)
    requires
        forall|c: Seq<char>| #[trigger] found(c) == has_sub(hay, c),
    ensures
        keyword_count(hay, keywords) == keywords.filter(found).len(),
    decreases keywords.len(),
{
    reveal(Seq::filter);
    if keywords.len() > 0 {
        lemma_keyword_count_counts_hits(hay, keywords.drop_last(), found);
        assert(found(keywords.last()) == has_sub(hay, keywords.last()));
        let sub = keywords.drop_last().filter(found);
        assert(keywords.filter(found) == if found(keywords.last()) {
            sub.push(keywords.last())
        } else {
            sub
        });
    } else {
        assert(keywords.filter(found) == keywords);
    }
}

/// How many of `words` occur in the lower-cased text of the repo's name, a
/// space and its description (each word of the list counted where it stands).
pub open spec fn words_found(repo: EcosystemRepo, words: Seq<Seq<char>>) -> nat {
    let text = lowercase(
        repo.name@.push(' ') + match repo.description {
            Some(d) => d@,
            None => Seq::empty(),
        },
    );
    words.filter(|c: Seq<char>| has_sub(text, c)).len()
}

/// Every other item (not discarded, no test, config or script, and no spec
/// whose path mentions todo or task) goes by the components of its path:
/// it goes to the repo whose name and description hold the most of them, the
/// last of equals, when some repo holds any, with the rationale naming that
/// repo; otherwise to a new crate named after the lower-cased file stem of the
/// path ("unknown" when it has none) with each `-` turned into `_`.
pub proof fn law_keyword_routing(item: HarvestItem, repos: Seq<EcosystemRepo>)
    requires
        item.kind != ItemKind::Discard,
        item.kind != ItemKind::TestHarness,
        item.kind != ItemKind::Config,
        item.kind != ItemKind::Script,
        item.kind == ItemKind::Spec ==> !has_sub(lowercase(item.rel_path@), "todo"@) && !has_sub(
            lowercase(item.rel_path@),
            "task"@,
        ),
    ensures
        ({
            let comps = components_of(item.rel_path@);
            let out = route_spec(item, repos);
            &&& (exists|i: int| 0 <= i < repos.len() && words_found(#[trigger] repos[i], comps) > 0)
                ==> exists|i: int|
                0 <= i < repos.len() && out == (
                    DestinationView::ExistingRepo { name: repos[i].name@, url: repos[i].url@ },
                    "keyword match on repo '"@ + repos[i].name@ + "'"@,
                ) && (forall|j: int|
                    0 <= j < repos.len() ==> words_found(#[trigger] repos[j], comps) <= words_found(
                        repos[i],
                        comps,
                    )) && (forall|j: int|
                    i < j < repos.len() ==> words_found(#[trigger] repos[j], comps) < words_found(
                        repos[i],
                        comps,
                    ))
            &&& (forall|i: int| 0 <= i < repos.len() ==> words_found(#[trigger] repos[i], comps) == 0)
                ==> {
                let stem = match file_stem_of(item.rel_path@) {
                    Some(st) => lowercase(st),
                    None => lowercase("unknown"@),
                };
                exists|s: Seq<char>|
                    s.len() == stem.len() && (forall|k: int|
                        0 <= k < s.len() ==> #[trigger] s[k] == if stem[k] == '-' {
                            '_'
                        } else {
                            stem[k]
                        }) && out == (
                        DestinationView::NewCrate { suggested_name: s },
                        "no ecosystem match; suggested new crate '"@ + s + "'"@,
                    )
            }
        }),
{
    let comps = components_of(item.rel_path@);
    let scores = repo_scores_spec(repos, comps);
    assert forall|j: int| 0 <= j < repos.len() implies #[trigger] scores[j] == words_found(
        repos[j],
        comps,
    ) by {
        let hay = lowercase(keyword_haystack(repos[j]));
        lemma_keyword_count_counts_hits(hay, comps, |c: Seq<char>| has_sub(hay, c));
    }
    if exists|i: int| 0 <= i < repos.len() && words_found(#[trigger] repos[i], comps) > 0 {
        let i0 = choose|i: int| 0 <= i < repos.len() && words_found(#[trigger] repos[i], comps) > 0;
        assert(scores[i0] > 0);
        assert(!no_positive_score(scores));
        assert(exists|i: int| is_best(scores, i)) by {
            lemma_best_exists(scores);
        }
        let i = choose|i: int| is_best(scores, i);
        assert(route_spec(item, repos) == keyword_outcome(
            repos,
            lowered_stem_or_unknown(item.rel_path@),
            scores,
        ));
        assert(scores[i] == words_found(repos[i], comps));
        assert forall|j: int| 0 <= j < repos.len() implies words_found(#[trigger] repos[j], comps)
            <= words_found(repos[i], comps) by {
            assert(scores[j] <= scores[i]);
        }
        assert forall|j: int| i < j < repos.len() implies words_found(#[trigger] repos[j], comps)
            < words_found(repos[i], comps) by {
            assert(scores[j] < scores[i]);
        }
    } else {
        assert(!exists|i: int| is_best(scores, i)) by {
            if exists|i: int| is_best(scores, i) {
                let i = choose|i: int| is_best(scores, i);
                assert(words_found(repos[i], comps) > 0);
            }
        }
        let stem = lowered_stem_or_unknown(item.rel_path@);
        let s = dashes_to_underscores(stem);
        assert(s.len() == stem.len());
        assert(route_spec(item, repos) == keyword_outcome(repos, stem, scores));
        assert(forall|k: int|
            0 <= k < s.len() ==> #[trigger] s[k] == if stem[k] == '-' {
                '_'
            } else {
                stem[k]
            });
    }
}

} // verus!

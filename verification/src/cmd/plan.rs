//! `cnbl plan` — route classified harvest items to ecosystem destinations.

use vstd::prelude::*;

use crate::ecosystem::{
    route, route_spec, Destination, DestinationView, EcosystemRepo, RouteDecision,
};
use crate::model::HarvestItem;
use crate::text::{
    lemma_lt_total, lemma_lt_transitive, owned, seq_lt, str_eq, str_lt,
};

verus! {

// ============================================================================
// PLAN TYPES
// ============================================================================

/// Every routing decision of a run, with their tally.
#[derive(Debug)]
pub struct MigrationPlan {
    pub items: Vec<RouteDecision>,
    pub summary: PlanSummary,
}

/// How many decisions go to each kind of destination.
#[derive(Debug, Clone, Copy, PartialEq, Eq, Structural)]
pub struct PlanSummary {
    pub total: usize,
    pub existing_repo: usize,
    pub new_crate: usize,
    pub archive: usize,
    pub discard: usize,
}

// ============================================================================
// SPECIFICATION
// ============================================================================

/// How many of the decisions have a destination satisfying `f`.
pub open spec fn count_dest(ds: Seq<RouteDecision>, f: spec_fn(DestinationView) -> bool) -> nat
    decreases ds.len(),
{
    if ds.len() == 0 {
        0
    } else {
        count_dest(ds.drop_last(), f) + if f(ds.last().destination@) {
            1nat
        } else {
            0nat
        }
    }
}

pub open spec fn is_existing(d: DestinationView) -> bool {
    d is ExistingRepo
}

pub open spec fn is_new_crate(d: DestinationView) -> bool {
    d is NewCrate
}

pub open spec fn is_archive(d: DestinationView) -> bool {
    d is Archive
}

pub open spec fn is_discard(d: DestinationView) -> bool {
    d is Discard
}

/// The tally of a list of decisions.
pub open spec fn summary_of(ds: Seq<RouteDecision>) -> PlanSummary {
    PlanSummary {
        total: ds.len() as usize,
        existing_repo: count_dest(ds, |d: DestinationView| is_existing(d)) as usize,
        new_crate: count_dest(ds, |d: DestinationView| is_new_crate(d)) as usize,
        archive: count_dest(ds, |d: DestinationView| is_archive(d)) as usize,
        discard: count_dest(ds, |d: DestinationView| is_discard(d)) as usize,
    }
}

/// The decision routes `item` as `route` does against `repos`.
pub open spec fn routes(d: RouteDecision, item: HarvestItem, repos: Seq<EcosystemRepo>) -> bool {
    d.item == item && (d.destination@, d.rationale@) == route_spec(item, repos)
}

/// The name of an existing-repo destination (empty for others).
pub open spec fn existing_name(d: DestinationView) -> Seq<char> {
    match d {
        DestinationView::ExistingRepo { name, .. } => name,
        _ => Seq::empty(),
    }
}

/// The name of a new-crate destination (empty for others).
pub open spec fn new_crate_name(d: DestinationView) -> Seq<char> {
    match d {
        DestinationView::NewCrate { suggested_name } => suggested_name,
        _ => Seq::empty(),
    }
}

/// How many decisions route to the existing repo `name`.
pub open spec fn repo_count(ds: Seq<RouteDecision>, name: Seq<char>) -> nat
    decreases ds.len(),
{
    if ds.len() == 0 {
        0
    } else {
        repo_count(ds.drop_last(), name) + if is_existing(ds.last().destination@) && existing_name(
            ds.last().destination@,
        ) == name {
            1nat
        } else {
            0nat
        }
    }
}

// ============================================================================
// COMMAND
// ============================================================================

/// Tally the destinations of a list of decisions.
pub fn build_summary(decisions: &[RouteDecision]) -> (s: PlanSummary)
    ensures
        s == summary_of(decisions@),
{
    let mut existing_repo: usize = 0;
    let mut new_crate: usize = 0;
    let mut archive: usize = 0;
    let mut discard: usize = 0;
    let n = decisions.len();
    for i in 0..n
        invariant
            n == decisions@.len(),
            existing_repo + new_crate + archive + discard == i,
            existing_repo == count_dest(
                decisions@.take(i as int),
                |d: DestinationView| is_existing(d),
            ),
            new_crate == count_dest(decisions@.take(i as int), |d: DestinationView| is_new_crate(d)),
            archive == count_dest(decisions@.take(i as int), |d: DestinationView| is_archive(d)),
            discard == count_dest(decisions@.take(i as int), |d: DestinationView| is_discard(d)),
    {
        assert(decisions@.take(i + 1).drop_last() =~= decisions@.take(i as int));
        match &decisions[i].destination {
            Destination::ExistingRepo { .. } => existing_repo = existing_repo + 1,
            Destination::NewCrate { .. } => new_crate = new_crate + 1,
            Destination::Archive => archive = archive + 1,
            Destination::Discard => discard = discard + 1,
        }
    }
    assert(decisions@.take(n as int) =~= decisions@);
    PlanSummary { total: n, existing_repo, new_crate, archive, discard }
}

/// Route every item against the repo list and tally the destinations.
pub fn run(items: &[HarvestItem], repos: &[EcosystemRepo]) -> (plan: MigrationPlan)
    ensures
        plan.items@.len() == items@.len(),
        forall|i: int| 0 <= i < items@.len() ==> routes(#[trigger] plan.items@[i], items@[i], repos@),
        plan.summary == summary_of(plan.items@),
{
    let mut decisions: Vec<RouteDecision> = Vec::new();
    let n = items.len();
    for i in 0..n
        invariant
            n == items@.len(),
            decisions@.len() == i,
            forall|j: int| 0 <= j < i ==> routes(#[trigger] decisions@[j], items@[j], repos@),
    {
        let item = items[i].clone();
        decisions.push(route(item, repos));
    }
    let summary = build_summary(decisions.as_slice());
    MigrationPlan { items: decisions, summary }
}

/// The position of `name` among the names of `v`, if it is there.
fn find_name(v: &[(String, usize)], name: &str) -> (r: Option<usize>)
    ensures
        r matches Some(a) ==> a < v@.len() && v@[a as int].0@ == name@,
        r is None ==> forall|a: int| 0 <= a < v@.len() ==> #[trigger] v@[a].0@ != name@,
{
    let m = v.len();
    for a in 0..m
        invariant
            m == v@.len(),
            forall|b: int| 0 <= b < a ==> #[trigger] v@[b].0@ != name@,
    {
        if str_eq(v[a].0.as_str(), name) {
            return Some(a);
        }
    }
    None
}

/// Where to put `name` among the names of `v`, sorted ascending and without
/// `name`: the first position whose name sorts after it.
fn insert_position(v: &[(String, usize)], name: &str) -> (j: usize)
    requires
        forall|a: int, b: int|
            0 <= a < b < v@.len() ==> seq_lt(#[trigger] v@[a].0@, #[trigger] v@[b].0@),
        forall|a: int| 0 <= a < v@.len() ==> #[trigger] v@[a].0@ != name@,
    ensures
        j <= v@.len(),
        forall|k: int| 0 <= k < j ==> seq_lt(#[trigger] v@[k].0@, name@),
        forall|k: int| j <= k < v@.len() ==> seq_lt(name@, #[trigger] v@[k].0@),
{
    let m = v.len();
    let mut j: usize = 0;
    while j < m && str_lt(v[j].0.as_str(), name)
        invariant
            m == v@.len(),
            j <= m,
            forall|k: int| 0 <= k < j ==> seq_lt(#[trigger] v@[k].0@, name@),
        decreases m - j,
    {
        j = j + 1;
    }
    if j < m {
        proof {
            lemma_lt_total(v@[j as int].0@, name@);
            assert(seq_lt(name@, v@[j as int].0@));
            assert forall|k: int| j <= k < v@.len() implies seq_lt(name@, #[trigger] v@[k].0@) by {
                if k > j {
                    lemma_lt_transitive(name@, v@[j as int].0@, v@[k].0@);
                }
            }
        }
    }
    j
}

/// The names of the existing repos that decisions route to, each once, in
/// ascending order, with the number of decisions for each.
pub fn repo_counts(decisions: &[RouteDecision]) -> (v: Vec<(String, usize)>)
    ensures
        forall|a: int, b: int|
            0 <= a < b < v@.len() ==> seq_lt(#[trigger] v@[a].0@, #[trigger] v@[b].0@),
        forall|a: int|
            0 <= a < v@.len() ==> #[trigger] v@[a].1 as nat == repo_count(decisions@, v@[a].0@)
                && v@[a].1 > 0,
        forall|i: int|
            0 <= i < decisions@.len() && is_existing(#[trigger] decisions@[i].destination@)
                ==> exists|a: int|
                0 <= a < v@.len() && #[trigger] v@[a].0@ == existing_name(
                    decisions@[i].destination@,
                ),
{
    let mut v: Vec<(String, usize)> = Vec::new();
    let n = decisions.len();
    let mut i: usize = 0;
    while i < n
        invariant
            n == decisions@.len(),
            i <= n,
            forall|a: int, b: int|
                0 <= a < b < v@.len() ==> seq_lt(#[trigger] v@[a].0@, #[trigger] v@[b].0@),
            forall|a: int|
                0 <= a < v@.len() ==> #[trigger] v@[a].1 as nat == repo_count(
                    decisions@.take(i as int),
                    v@[a].0@,
                ) && v@[a].1 > 0 && v@[a].1 <= i,
            forall|k: int|
                0 <= k < i && is_existing(#[trigger] decisions@[k].destination@) ==> exists|a: int|
                    0 <= a < v@.len() && #[trigger] v@[a].0@ == existing_name(
                        decisions@[k].destination@,
                    ),
            forall|name: Seq<char>|
                #![trigger repo_count(decisions@.take(i as int), name)]
                repo_count(decisions@.take(i as int), name) > 0 ==> exists|a: int|
                    0 <= a < v@.len() && #[trigger] v@[a].0@ == name,
        decreases n - i,
    {
        let ghost prev = decisions@.take(i as int);
        let ghost next = decisions@.take(i + 1);
        let ghost old_v = v@;
        let ghost mut pos: int = 0;
        // where each old entry stands now
        let ghost mut shift: int = old_v.len() as int;
        assert(next.drop_last() =~= prev);
        if let Destination::ExistingRepo { name, .. } = &decisions[i].destination {
            match find_name(v.as_slice(), name.as_str()) {
                Some(a) => {
                    let entry = (v[a].0.clone(), v[a].1 + 1);
                    v.set(a, entry);
                    proof {
                        pos = a as int;
                    }
                },
                None => {
                    assert(repo_count(decisions@.take(i as int), name@) == 0) by {
                        if repo_count(decisions@.take(i as int), name@) > 0 {
                            let a = choose|a: int| 0 <= a < v@.len() && #[trigger] v@[a].0@ == name@;
                            assert(v@[a].0@ != name@);
                        }
                    }
                    let j = insert_position(v.as_slice(), name.as_str());
                    v.insert(j, (name.clone(), 1));
                    proof {
                        pos = j as int;
                        shift = j as int;
                        assert forall|a: int, b: int|
                            0 <= a < b < v@.len() implies seq_lt(
                            #[trigger] v@[a].0@,
                            #[trigger] v@[b].0@,
                        ) by {
                            if a < j && b == j {
                            } else if a < j && b > j {
                                assert(v@[b] == old_v[b - 1]);
                                lemma_lt_transitive(v@[a].0@, name@, v@[b].0@);
                            } else if a == j {
                                assert(v@[b] == old_v[b - 1]);
                            } else if a > j {
                                assert(v@[a] == old_v[a - 1]);
                                assert(v@[b] == old_v[b - 1]);
                            }
                        }
                    }
                },
            }
            assert(0 <= pos < v@.len() && v@[pos].0@ == name@);
        }
        // old entry `a` now stands at `a` below `shift` and at `a + 1` from it
        assert(forall|a: int|
            0 <= a < old_v.len() && a < shift ==> #[trigger] v@[a].0@ == old_v[a].0@);
        assert(forall|a: int|
            0 <= a < old_v.len() && a >= shift ==> #[trigger] v@[a + 1].0@ == old_v[a].0@);
        assert forall|a: int| 0 <= a < v@.len() implies #[trigger] v@[a].1 as nat == repo_count(
            next,
            v@[a].0@,
        ) && v@[a].1 > 0 && v@[a].1 <= i + 1 by {
            if v@.len() > old_v.len() && a > shift {
                assert(v@[a] == old_v[a - 1]);
            }
        }
        assert forall|x: Seq<char>| #[trigger] repo_count(next, x) > 0 implies exists|a: int|
            0 <= a < v@.len() && #[trigger] v@[a].0@ == x by {
            if repo_count(prev, x) == 0 {
                assert(existing_name(decisions@[i as int].destination@) == x);
                assert(v@[pos].0@ == x);
            } else {
                assert(repo_count(decisions@.take(i as int), x) > 0);
                let a = choose|a: int| 0 <= a < old_v.len() && #[trigger] old_v[a].0@ == x;
                if a < shift {
                    assert(v@[a].0@ == x);
                } else {
                    assert(v@[a + 1].0@ == x);
                }
            }
        }
        assert forall|k: int|
            0 <= k < i + 1 && is_existing(#[trigger] decisions@[k].destination@) implies exists|a: int|
            0 <= a < v@.len() && #[trigger] v@[a].0@ == existing_name(decisions@[k].destination@) by {
            if k == i {
                assert(v@[pos].0@ == existing_name(decisions@[k].destination@));
            } else {
                let a = choose|a: int|
                    0 <= a < old_v.len() && #[trigger] old_v[a].0@ == existing_name(
                        decisions@[k].destination@,
                    );
                if a < shift {
                    assert(v@[a].0@ == old_v[a].0@);
                } else {
                    assert(v@[a + 1].0@ == old_v[a].0@);
                }
            }
        }
        i = i + 1;
    }
    assert(decisions@.take(n as int) =~= decisions@);
    v
}

/// Whether `name` is among `v`.
fn has_string(v: &[String], name: &str) -> (r: bool)
    ensures
        r == exists|a: int| 0 <= a < v@.len() && #[trigger] v@[a]@ == name@,
{
    let m = v.len();
    for a in 0..m
        invariant
            m == v@.len(),
            forall|b: int| 0 <= b < a ==> #[trigger] v@[b]@ != name@,
    {
        if str_eq(v[a].as_str(), name) {
            return true;
        }
    }
    false
}

/// The suggested names of the new crates among the decisions.
pub open spec fn new_crate_set(ds: Seq<RouteDecision>) -> Set<Seq<char>>
    decreases ds.len(),
{
    if ds.len() == 0 {
        Set::empty()
    } else if is_new_crate(ds.last().destination@) {
        new_crate_set(ds.drop_last()).insert(new_crate_name(ds.last().destination@))
    } else {
        new_crate_set(ds.drop_last())
    }
}

/// The view of a list of strings.
pub open spec fn names_view(v: Seq<String>) -> Seq<Seq<char>> {
    v.map_values(|s: String| s@)
}

/// The suggested names of the new crates that decisions route to, each once,
/// in the order of first appearance.
pub fn new_crate_names(decisions: &[RouteDecision]) -> (v: Vec<String>)
    ensures
        names_view(v@).no_duplicates(),
        forall|x: Seq<char>|
            #[trigger] names_view(v@).contains(x) <==> new_crate_set(decisions@).contains(x),
{
    let mut v: Vec<String> = Vec::new();
    let n = decisions.len();
    let mut i: usize = 0;
    while i < n
        invariant
            n == decisions@.len(),
            i <= n,
            names_view(v@).no_duplicates(),
            forall|x: Seq<char>|
                #[trigger] names_view(v@).contains(x) <==> new_crate_set(
                    decisions@.take(i as int),
                ).contains(x),
        decreases n - i,
    {
        assert(decisions@.take(i + 1).drop_last() =~= decisions@.take(i as int));
        assert(decisions@.take(i + 1).last() == decisions@[i as int]);
        let ghost old_names = names_view(v@);
        if let Destination::NewCrate { suggested_name } = &decisions[i].destination {
            if !has_string(v.as_slice(), suggested_name.as_str()) {
                v.push(suggested_name.clone());
                assert(names_view(v@) =~= old_names.push(suggested_name@));
                assert forall|x: Seq<char>|
                    names_view(v@).contains(x) <==> old_names.contains(x) || x
                        == suggested_name@ by {
                    if old_names.contains(x) {
                        let a = choose|a: int| 0 <= a < old_names.len() && old_names[a] == x;
                        assert(names_view(v@)[a] == x);
                    }
                    if x == suggested_name@ {
                        assert(names_view(v@)[old_names.len() as int] == x);
                    }
                    if names_view(v@).contains(x) {
                        let a = choose|a: int|
                            0 <= a < names_view(v@).len() && names_view(v@)[a] == x;
                        if a < old_names.len() {
                            assert(old_names[a] == x);
                        }
                    }
                }
                assert(!old_names.contains(suggested_name@)) by {
                    if old_names.contains(suggested_name@) {
                        let a = choose|a: int| 0 <= a < old_names.len() && old_names[a] == suggested_name@;
                        assert(v@[a]@ == suggested_name@);
                    }
                }
            } else {
                proof {
                    let a = choose|a: int| 0 <= a < v@.len() && #[trigger] v@[a]@ == suggested_name@;
                    assert(old_names[a] == suggested_name@);
                    assert(old_names.contains(suggested_name@));
                    assert(new_crate_set(decisions@.take(i as int)).contains(suggested_name@));
                    assert(new_crate_set(decisions@.take(i + 1)) =~= new_crate_set(
                        decisions@.take(i as int),
                    ));
                }
            }
        } else {
            assert(new_crate_set(decisions@.take(i + 1)) =~= new_crate_set(
                decisions@.take(i as int),
            ));
        }
        assert forall|x: Seq<char>|
            #[trigger] names_view(v@).contains(x) <==> new_crate_set(
                decisions@.take(i + 1),
            ).contains(x) by {
            assert(old_names.contains(x) <==> new_crate_set(decisions@.take(i as int)).contains(x));
        }
        i = i + 1;
    }
    assert(decisions@.take(n as int) =~= decisions@);
    v
}

/// How a destination reads in a dry-run listing: `→ name`, `→ new:name`,
/// `→ archive` or `→ discard`.
pub fn destination_label(d: &Destination) -> (s: String)
    ensures
        s@ == match d@ {
            DestinationView::ExistingRepo { name, .. } => "→ "@ + name,
            DestinationView::NewCrate { suggested_name } => "→ new:"@ + suggested_name,
            DestinationView::Archive => "→ archive"@,
            DestinationView::Discard => "→ discard"@,
        },
{
    match d {
        Destination::ExistingRepo { name, .. } => {
            let mut s = owned("→ ");
            s.append(name.as_str());
            s
        },
        Destination::NewCrate { suggested_name } => {
            let mut s = owned("→ new:");
            s.append(suggested_name.as_str());
            s
        },
        Destination::Archive => owned("→ archive"),
        Destination::Discard => owned("→ discard"),
    }
}

// ============================================================================
// LAWS
// ============================================================================

/// Every decision is counted under exactly one kind of destination.
pub proof fn lemma_counts_partition(ds: Seq<RouteDecision>)
    ensures
        count_dest(ds, |d: DestinationView| is_existing(d)) + count_dest(
            ds,
            |d: DestinationView| is_new_crate(d),
        ) + count_dest(ds, |d: DestinationView| is_archive(d)) + count_dest(
            ds,
            |d: DestinationView| is_discard(d),
        ) == ds.len(),
    decreases ds.len(),
{
    if ds.len() > 0 {
        lemma_counts_partition(ds.drop_last());
    }
}

/// The summary's total is the number of decisions, and it is split without
/// remainder among existing repos, new crates, archive and discard.
pub proof fn law_summary_partitions_total(ds: Seq<RouteDecision>)
    requires
        ds.len() <= usize::MAX,
    ensures
        summary_of(ds).total == ds.len(),
        summary_of(ds).total == summary_of(ds).existing_repo + summary_of(ds).new_crate
            + summary_of(ds).archive + summary_of(ds).discard,
{
    lemma_counts_partition(ds);
}

/// One more decision raises the total by one and, of the four tallies,
/// exactly the one of its destination by one: existing repo, new crate,
/// archive or discard.
pub proof fn law_summary_counts_each_decision(ds: Seq<RouteDecision>, d: RouteDecision)
    requires
        ds.len() + 1 <= usize::MAX,
    ensures
        ({
            let before = summary_of(ds);
            let after = summary_of(ds.push(d));
            let e: int = if d.destination is ExistingRepo { 1 } else { 0 };
            let n: int = if d.destination is NewCrate { 1 } else { 0 };
            let a: int = if d.destination is Archive { 1 } else { 0 };
            let x: int = if d.destination is Discard { 1 } else { 0 };
            &&& after.total == before.total + 1
            &&& after.existing_repo == before.existing_repo + e
            &&& after.new_crate == before.new_crate + n
            &&& after.archive == before.archive + a
            &&& after.discard == before.discard + x
        }),
{
    let next = ds.push(d);
    assert(next.drop_last() =~= ds);
    lemma_counts_partition(ds);
    lemma_counts_partition(next);
}

} // verus!

//! `cnbl scan` — classify every file of a repository and tally the result.

use vstd::prelude::*;

use crate::classifier::{classify, classify_spec};
use crate::model::{HarvestItem, ItemKind, SourceLang};
use crate::paths::{opt_view, path_strip_prefix, stripped};
use crate::scanner::parser::ParsedFile;
use crate::text::{lemma_lt_transitive, lt_at, owned, seq_lt};

verus! {

/// Why a scan cannot start.
#[derive(Debug, Clone, Copy, PartialEq, Eq, Structural)]
pub enum ScanError {
    /// The root path does not exist.
    NotFound,
    /// The root path exists but is not a directory.
    NotADirectory,
}

/// One line of the scan report: a kind, how many files have it, and the
/// languages among them (in the alphabetical order of their labels).
#[derive(Debug)]
pub struct ReportRow {
    pub kind: ItemKind,
    pub count: usize,
    pub langs: Vec<SourceLang>,
}

/// The scan report: a row per kind, the discarded files and the entrypoints.
#[derive(Debug)]
pub struct ScanReport {
    pub rows: Vec<ReportRow>,
    pub discards: Vec<String>,
    pub entrypoints: Vec<String>,
}

// ============================================================================
// SPECIFICATION
// ============================================================================

/// The label of a kind, as in the JSON output.
pub open spec fn kind_text(kind: ItemKind) -> Seq<char> {
    match kind {
        ItemKind::DomainLogic => "domain_logic"@,
        ItemKind::Port => "port"@,
        ItemKind::Adapter => "adapter"@,
        ItemKind::Entrypoint => "entrypoint"@,
        ItemKind::TestHarness => "test_harness"@,
        ItemKind::Script => "script"@,
        ItemKind::Spec => "spec"@,
        ItemKind::Config => "config"@,
        ItemKind::Glue => "glue"@,
        ItemKind::Discard => "discard"@,
    }
}

/// The label of a language.
pub open spec fn lang_text(lang: SourceLang) -> Seq<char> {
    match lang {
        SourceLang::Python => "python"@,
        SourceLang::Go => "go"@,
        SourceLang::Shell => "shell"@,
        SourceLang::Nushell => "nushell"@,
        SourceLang::Rust => "rust"@,
        SourceLang::TypeScript => "typescript"@,
        SourceLang::Baml => "baml"@,
        SourceLang::Markdown => "markdown"@,
        SourceLang::Toml => "toml"@,
        SourceLang::Yaml => "yaml"@,
        SourceLang::Json => "json"@,
        SourceLang::Unknown => "unknown"@,
    }
}

/// The kinds in the order the report lists them.
pub open spec fn report_kinds() -> Seq<ItemKind> {
    seq![
        ItemKind::DomainLogic,
        ItemKind::Adapter,
        ItemKind::Script,
        ItemKind::Spec,
        ItemKind::Config,
        ItemKind::TestHarness,
        ItemKind::Entrypoint,
        ItemKind::Port,
        ItemKind::Glue,
        ItemKind::Discard,
    ]
}

/// The languages in the alphabetical order of their labels.
pub open spec fn lang_order() -> Seq<SourceLang> {
    seq![
        SourceLang::Baml,
        SourceLang::Go,
        SourceLang::Json,
        SourceLang::Markdown,
        SourceLang::Nushell,
        SourceLang::Python,
        SourceLang::Rust,
        SourceLang::Shell,
        SourceLang::Toml,
        SourceLang::TypeScript,
        SourceLang::Unknown,
        SourceLang::Yaml,
    ]
}

/// How many items have kind `k`.
pub open spec fn count_kind(items: Seq<HarvestItem>, k: ItemKind) -> nat
    decreases items.len(),
{
    if items.len() == 0 {
        0
    } else {
        count_kind(items.drop_last(), k) + if items.last().kind == k {
            1nat
        } else {
            0nat
        }
    }
}

/// Some item has kind `k` and language `l`.
pub open spec fn has_lang(items: Seq<HarvestItem>, k: ItemKind, l: SourceLang) -> bool {
    exists|i: int| 0 <= i < items.len() && #[trigger] items[i].kind == k && items[i].lang == l
}

/// The languages of `order` that some item of kind `k` has, in that order.
pub open spec fn langs_among(items: Seq<HarvestItem>, k: ItemKind, order: Seq<SourceLang>) -> Seq<
    SourceLang,
>
    decreases order.len(),
{
    if order.len() == 0 {
        Seq::empty()
    } else if has_lang(items, k, order.last()) {
        langs_among(items, k, order.drop_last()).push(order.last())
    } else {
        langs_among(items, k, order.drop_last())
    }
}

/// The paths of the items of kind `k`, in order.
pub open spec fn paths_of_kind(items: Seq<HarvestItem>, k: ItemKind) -> Seq<Seq<char>>
    decreases items.len(),
{
    if items.len() == 0 {
        Seq::empty()
    } else if items.last().kind == k {
        paths_of_kind(items.drop_last(), k).push(items.last().rel_path@)
    } else {
        paths_of_kind(items.drop_last(), k)
    }
}

/// The report row for kind `k`.
pub open spec fn row_is(row: ReportRow, items: Seq<HarvestItem>, k: ItemKind) -> bool {
    &&& row.kind == k
    &&& row.count == count_kind(items, k)
    &&& row.langs@ == langs_among(items, k, lang_order())
}

/// The item a scan records for the file at `abs_path` under `root`.
pub open spec fn harvest_item_spec(
    item: HarvestItem,
    root: Seq<char>,
    abs_path: Seq<char>,
    parsed: ParsedFile,
    size_bytes: u64,
) -> bool {
    let rel = match stripped(abs_path, root) {
        Some(r) => r,
        None => abs_path,
    };
    &&& item.rel_path@ == rel
    &&& item.lang == parsed.lang
    &&& item.kind == classify_spec(parsed, rel)
    &&& item.size_bytes == size_bytes
    &&& item.notes is None
}

// ============================================================================
// COMMAND
// ============================================================================

/// A scan starts only at an existing directory.
pub fn check_root(exists: bool, is_dir: bool) -> (r: Result<(), ScanError>)
    ensures
        !exists ==> r == Err::<(), ScanError>(ScanError::NotFound),
        exists && !is_dir ==> r == Err::<(), ScanError>(ScanError::NotADirectory),
        exists && is_dir ==> r is Ok,
{
    if !exists {
        return Err(ScanError::NotFound);
    }
    if !is_dir {
        return Err(ScanError::NotADirectory);
    }
    Ok(())
}

/// The item recorded for a parsed file at `abs_path`, found under `root`:
/// its path relative to `root` (the path itself when `root` is no prefix),
/// its language, its kind and its size.
pub fn harvest_item(root: &str, abs_path: &str, parsed: &ParsedFile, size_bytes: u64) -> (item:
    HarvestItem)
    ensures
        harvest_item_spec(item, root@, abs_path@, *parsed, size_bytes),
        item.kind == classify_spec(*parsed, item.rel_path@),
        stripped(abs_path@, root@) matches Some(rel) ==> item.rel_path@ == rel,
        stripped(abs_path@, root@) is None ==> item.rel_path@ == abs_path@,
        item.lang == parsed.lang,
        item.size_bytes == size_bytes,
        item.notes is None,
{
    let rel_path = match path_strip_prefix(abs_path, root) {
        Some(r) => r,
        None => owned(abs_path),
    };
    let kind = classify(parsed, rel_path.as_str());
    HarvestItem { rel_path, lang: parsed.lang, kind, size_bytes, notes: None }
}

/// The label of a kind, as in the JSON output.
pub fn kind_label(kind: &ItemKind) -> (s: &'static str)
    ensures
        s@ == kind_text(*kind),
{
    match kind {
        ItemKind::DomainLogic => "domain_logic",
        ItemKind::Port => "port",
        ItemKind::Adapter => "adapter",
        ItemKind::Entrypoint => "entrypoint",
        ItemKind::TestHarness => "test_harness",
        ItemKind::Script => "script",
        ItemKind::Spec => "spec",
        ItemKind::Config => "config",
        ItemKind::Glue => "glue",
        ItemKind::Discard => "discard",
    }
}

/// The label of a language.
pub fn lang_label(lang: &SourceLang) -> (s: &'static str)
    ensures
        s@ == lang_text(*lang),
{
    match lang {
        SourceLang::Python => "python",
        SourceLang::Go => "go",
        SourceLang::Shell => "shell",
        SourceLang::Nushell => "nushell",
        SourceLang::Rust => "rust",
        SourceLang::TypeScript => "typescript",
        SourceLang::Baml => "baml",
        SourceLang::Markdown => "markdown",
        SourceLang::Toml => "toml",
        SourceLang::Yaml => "yaml",
        SourceLang::Json => "json",
        SourceLang::Unknown => "unknown",
    }
}

/// How many items have kind `k`.
fn kind_count(items: &[HarvestItem], k: ItemKind) -> (n: usize)
    ensures
        n == count_kind(items@, k),
{
    let mut n: usize = 0;
    let len = items.len();
    for i in 0..len
        invariant
            len == items@.len(),
            n <= i,
            n == count_kind(items@.take(i as int), k),
    {
        assert(items@.take(i + 1).drop_last() =~= items@.take(i as int));
        if items[i].kind == k {
            n = n + 1;
        }
    }
    assert(items@.take(len as int) =~= items@);
    n
}

/// Some item has kind `k` and language `l`.
fn kind_has_lang(items: &[HarvestItem], k: ItemKind, l: SourceLang) -> (r: bool)
    ensures
        r == has_lang(items@, k, l),
{
    let len = items.len();
    for i in 0..len
        invariant
            len == items@.len(),
            forall|j: int| 0 <= j < i ==> !(#[trigger] items@[j].kind == k && items@[j].lang == l),
    {
        if items[i].kind == k && items[i].lang == l {
            return true;
        }
    }
    false
}

/// The report row for kind `k`.
fn report_row(items: &[HarvestItem], k: ItemKind) -> (row: ReportRow)
    ensures
        row_is(row, items@, k),
{
    let order = vec![
        SourceLang::Baml,
        SourceLang::Go,
        SourceLang::Json,
        SourceLang::Markdown,
        SourceLang::Nushell,
        SourceLang::Python,
        SourceLang::Rust,
        SourceLang::Shell,
        SourceLang::Toml,
        SourceLang::TypeScript,
        SourceLang::Unknown,
        SourceLang::Yaml,
    ];
    assert(order@ == lang_order());
    let mut langs: Vec<SourceLang> = Vec::new();
    let n = order.len();
    for j in 0..n
        invariant
            n == order@.len(),
            order@ == lang_order(),
            langs@ == langs_among(items@, k, order@.take(j as int)),
    {
        assert(order@.take(j + 1).drop_last() =~= order@.take(j as int));
        if kind_has_lang(items, k, order[j]) {
            langs.push(order[j]);
        }
    }
    assert(order@.take(n as int) =~= order@);
    ReportRow { kind: k, count: kind_count(items, k), langs }
}

/// The paths of the items of kind `k`, in order.
fn paths_with_kind(items: &[HarvestItem], k: ItemKind) -> (v: Vec<String>)
    ensures
        v@.map_values(|s: String| s@) == paths_of_kind(items@, k),
{
    let mut v: Vec<String> = Vec::new();
    let len = items.len();
    for i in 0..len
        invariant
            len == items@.len(),
            v@.map_values(|s: String| s@) == paths_of_kind(items@.take(i as int), k),
    {
        assert(items@.take(i + 1).drop_last() =~= items@.take(i as int));
        let ghost before = v@;
        if items[i].kind == k {
            v.push(items[i].rel_path.clone());
            assert(v@.map_values(|s: String| s@) =~= before.map_values(|s: String| s@).push(
                items@[i as int].rel_path@,
            ));
        }
    }
    assert(items@.take(len as int) =~= items@);
    v
}

/// Tally the scanned items: for every kind (domain logic, adapter, script,
/// spec, config, test harness, entrypoint, port, glue, discard) its count and
/// its languages, then the discarded files and the entrypoints.
pub fn report(items: &[HarvestItem]) -> (r: ScanReport)
    ensures
        r.rows@.len() == report_kinds().len(),
        forall|i: int| 0 <= i < r.rows@.len() ==> row_is(#[trigger] r.rows@[i], items@, report_kinds()[i]),
        r.discards@.map_values(|s: String| s@) == paths_of_kind(items@, ItemKind::Discard),
        r.entrypoints@.map_values(|s: String| s@) == paths_of_kind(items@, ItemKind::Entrypoint),
{
    let kinds = vec![
        ItemKind::DomainLogic,
        ItemKind::Adapter,
        ItemKind::Script,
        ItemKind::Spec,
        ItemKind::Config,
        ItemKind::TestHarness,
        ItemKind::Entrypoint,
        ItemKind::Port,
        ItemKind::Glue,
        ItemKind::Discard,
    ];
    assert(kinds@ == report_kinds());
    let mut rows: Vec<ReportRow> = Vec::new();
    let n = kinds.len();
    for j in 0..n
        invariant
            n == kinds@.len(),
            kinds@ == report_kinds(),
            rows@.len() == j,
            forall|i: int| 0 <= i < j ==> row_is(#[trigger] rows@[i], items@, report_kinds()[i]),
    {
        rows.push(report_row(items, kinds[j]));
    }
    ScanReport {
        rows,
        discards: paths_with_kind(items, ItemKind::Discard),
        entrypoints: paths_with_kind(items, ItemKind::Entrypoint),
    }
}

// ============================================================================
// LAWS
// ============================================================================

/// The counts of all the report's kinds.
pub open spec fn report_total(items: Seq<HarvestItem>) -> nat {
    count_kind(items, ItemKind::DomainLogic) + count_kind(items, ItemKind::Adapter) + count_kind(
        items,
        ItemKind::Script,
    ) + count_kind(items, ItemKind::Spec) + count_kind(items, ItemKind::Config) + count_kind(
        items,
        ItemKind::TestHarness,
    ) + count_kind(items, ItemKind::Entrypoint) + count_kind(items, ItemKind::Port) + count_kind(
        items,
        ItemKind::Glue,
    ) + count_kind(items, ItemKind::Discard)
}

proof fn lemma_sorted_from_adjacent(s: Seq<Seq<char>>)
    requires
        forall|i: int| 0 <= i < s.len() - 1 ==> seq_lt(#[trigger] s[i], s[i + 1]),
    ensures
        forall|a: int, b: int| 0 <= a < b < s.len() ==> seq_lt(#[trigger] s[a], #[trigger] s[b]),
    decreases s.len(),
{
    if s.len() > 1 {
        let t = s.drop_last();
        assert forall|i: int| 0 <= i < t.len() - 1 implies seq_lt(#[trigger] t[i], t[i + 1]) by {
            assert(seq_lt(s[i], s[i + 1]));
        }
        lemma_sorted_from_adjacent(t);
        assert forall|a: int, b: int| 0 <= a < b < s.len() implies seq_lt(
            #[trigger] s[a],
            #[trigger] s[b],
        ) by {
            if b < s.len() - 1 {
                assert(seq_lt(t[a], t[b]));
            } else if a < b - 1 {
                assert(seq_lt(t[a], t[b - 1]));
                assert(seq_lt(s[b - 1], s[b]));
                lemma_lt_transitive(s[a], s[b - 1], s[b]);
            } else {
                assert(seq_lt(s[b - 1], s[b]));
            }
        }
    }
}

/// The labels of `lang_order()` are in strictly ascending order, and every
/// language is among them.
proof fn lemma_lang_order()
    ensures
        forall|a: int, b: int|
            0 <= a < b < lang_order().len() ==> seq_lt(
                lang_text(#[trigger] lang_order()[a]),
                lang_text(#[trigger] lang_order()[b]),
            ),
        forall|l: SourceLang| lang_order().contains(l),
{
    reveal_strlit("baml");
    reveal_strlit("go");
    reveal_strlit("json");
    reveal_strlit("markdown");
    reveal_strlit("nushell");
    reveal_strlit("python");
    reveal_strlit("rust");
    reveal_strlit("shell");
    reveal_strlit("toml");
    reveal_strlit("typescript");
    reveal_strlit("unknown");
    reveal_strlit("yaml");
    assert(lt_at("baml"@, "go"@, 0));
    assert(lt_at("go"@, "json"@, 0));
    assert(lt_at("json"@, "markdown"@, 0));
    assert(lt_at("markdown"@, "nushell"@, 0));
    assert(lt_at("nushell"@, "python"@, 0));
    assert(lt_at("python"@, "rust"@, 0));
    assert(lt_at("rust"@, "shell"@, 0));
    assert(lt_at("shell"@, "toml"@, 0));
    assert(lt_at("toml"@, "typescript"@, 1));
    assert(lt_at("typescript"@, "unknown"@, 0));
    assert(lt_at("unknown"@, "yaml"@, 0));
    let s = lang_order().map_values(|l: SourceLang| lang_text(l));
    assert forall|i: int| 0 <= i < s.len() - 1 implies seq_lt(#[trigger] s[i], s[i + 1]) by {
        assert(s[i] == lang_text(lang_order()[i]));
        assert(s[i + 1] == lang_text(lang_order()[i + 1]));
    }
    lemma_sorted_from_adjacent(s);
    assert forall|a: int, b: int| 0 <= a < b < lang_order().len() implies seq_lt(
        lang_text(#[trigger] lang_order()[a]),
        lang_text(#[trigger] lang_order()[b]),
    ) by {
        assert(seq_lt(s[a], s[b]));
    }
    assert forall|l: SourceLang| lang_order().contains(l) by {
        let i: int = match l {
            SourceLang::Baml => 0,
            SourceLang::Go => 1,
            SourceLang::Json => 2,
            SourceLang::Markdown => 3,
            SourceLang::Nushell => 4,
            SourceLang::Python => 5,
            SourceLang::Rust => 6,
            SourceLang::Shell => 7,
            SourceLang::Toml => 8,
            SourceLang::TypeScript => 9,
            SourceLang::Unknown => 10,
            SourceLang::Yaml => 11,
        };
        assert(lang_order()[i] == l);
    }
}

proof fn lemma_langs_among(items: Seq<HarvestItem>, k: ItemKind, order: Seq<SourceLang>)
    requires
        forall|a: int, b: int|
            0 <= a < b < order.len() ==> seq_lt(
                lang_text(#[trigger] order[a]),
                lang_text(#[trigger] order[b]),
            ),
    ensures
        forall|l: SourceLang|
            #[trigger] langs_among(items, k, order).contains(l) <==> order.contains(l) && has_lang(
                items,
                k,
                l,
            ),
        forall|a: int, b: int|
            0 <= a < b < langs_among(items, k, order).len() ==> seq_lt(
                lang_text(#[trigger] langs_among(items, k, order)[a]),
                lang_text(#[trigger] langs_among(items, k, order)[b]),
            ),
    decreases order.len(),
{
    if order.len() > 0 {
        let pre = order.drop_last();
        let last = order.last();
        assert forall|a: int, b: int| 0 <= a < b < pre.len() implies seq_lt(
            lang_text(#[trigger] pre[a]),
            lang_text(#[trigger] pre[b]),
        ) by {
            assert(seq_lt(lang_text(order[a]), lang_text(order[b])));
        }
        lemma_langs_among(items, k, pre);
        let r0 = langs_among(items, k, pre);
        let r = langs_among(items, k, order);
        assert forall|l: SourceLang| order.contains(l) <==> pre.contains(l) || l == last by {
            if order.contains(l) {
                let j = choose|j: int| 0 <= j < order.len() && order[j] == l;
                if j < pre.len() {
                    assert(pre[j] == l);
                }
            }
            if pre.contains(l) {
                let j = choose|j: int| 0 <= j < pre.len() && pre[j] == l;
                assert(order[j] == l);
            }
            if l == last {
                assert(order[order.len() - 1] == l);
            }
        }
        if has_lang(items, k, last) {
            assert(r == r0.push(last));
            assert forall|l: SourceLang| #[trigger] r.contains(l) <==> r0.contains(l) || l == last by {
                if r.contains(l) {
                    let j = choose|j: int| 0 <= j < r.len() && r[j] == l;
                    if j < r0.len() {
                        assert(r0[j] == l);
                    }
                }
                if r0.contains(l) {
                    let j = choose|j: int| 0 <= j < r0.len() && r0[j] == l;
                    assert(r[j] == l);
                }
                if l == last {
                    assert(r[r0.len() as int] == l);
                }
            }
            assert forall|a: int, b: int| 0 <= a < b < r.len() implies seq_lt(
                lang_text(#[trigger] r[a]),
                lang_text(#[trigger] r[b]),
            ) by {
                if b < r0.len() {
                    assert(seq_lt(lang_text(r0[a]), lang_text(r0[b])));
                } else {
                    assert(r0.contains(r[a]));
                    let j = choose|j: int| 0 <= j < pre.len() && pre[j] == r[a];
                    assert(seq_lt(lang_text(order[j]), lang_text(order[order.len() - 1])));
                }
            }
        } else {
            assert(r == r0);
        }
    }
}

proof fn lemma_count_kind_counts(items: Seq<HarvestItem>, k: ItemKind, of_kind: spec_fn(HarvestItem) -> bool)
    requires
        forall|it: HarvestItem| #[trigger] of_kind(it) == (it.kind == k),
    ensures
        count_kind(items, k) == items.filter(of_kind).len(),
    decreases items.len(),
{
    reveal(Seq::filter);
    if items.len() > 0 {
        lemma_count_kind_counts(items.drop_last(), k, of_kind);
        assert(of_kind(items.last()) == (items.last().kind == k));
    }
}

/// A report row for a kind counts the items of that kind, and lists the
/// languages found among them, each once, in the ascending order of their
/// labels.
pub proof fn law_report_row(items: Seq<HarvestItem>, row: ReportRow, k: ItemKind)
    requires
        row_is(row, items, k),
    ensures
        row.kind == k,
        row.count == items.filter(|it: HarvestItem| it.kind == k).len(),
        forall|l: SourceLang|
            #[trigger] row.langs@.contains(l) <==> exists|i: int|
                0 <= i < items.len() && #[trigger] items[i].kind == k && items[i].lang == l,
        forall|a: int, b: int|
            0 <= a < b < row.langs@.len() ==> seq_lt(
                lang_text(#[trigger] row.langs@[a]),
                lang_text(#[trigger] row.langs@[b]),
            ),
{
    lemma_lang_order();
    lemma_langs_among(items, k, lang_order());
    lemma_count_kind_counts(items, k, |it: HarvestItem| it.kind == k);
}

/// Every scanned item is counted in exactly one row of the report: the row
/// counts add up to the number of items.
pub proof fn law_report_counts_every_item_once(items: Seq<HarvestItem>)
    ensures
        report_total(items) == items.len(),
    decreases items.len(),
{
    if items.len() > 0 {
        law_report_counts_every_item_once(items.drop_last());
    }
}

/// The recorded kind is the kind of the recorded (relative) path: it does
/// not depend on where the scanned root lies.
pub proof fn law_kind_is_kind_of_relative_path(
    item: HarvestItem,
    root: Seq<char>,
    abs_path: Seq<char>,
    parsed: ParsedFile,
    size_bytes: u64,
)
    requires
        harvest_item_spec(item, root, abs_path, parsed, size_bytes),
    ensures
        item.kind == classify_spec(parsed, item.rel_path@),
        stripped(abs_path, root) matches Some(rel) ==> item.rel_path@ == rel && item.kind
            == classify_spec(parsed, rel),
{
}

/// Two files found at the same place under different roots are recorded
/// alike: same relative path, language, kind and size.
pub proof fn law_root_name_does_not_matter(
    i1: HarvestItem,
    i2: HarvestItem,
    root1: Seq<char>,
    abs1: Seq<char>,
    root2: Seq<char>,
    abs2: Seq<char>,
    parsed: ParsedFile,
    size_bytes: u64,
)
    requires
        harvest_item_spec(i1, root1, abs1, parsed, size_bytes),
        harvest_item_spec(i2, root2, abs2, parsed, size_bytes),
        stripped(abs1, root1) is Some,
        stripped(abs1, root1) == stripped(abs2, root2),
    ensures
        i1.rel_path@ == i2.rel_path@,
        i1.kind == i2.kind,
        i1.lang == i2.lang && i2.lang == parsed.lang,
        i1.size_bytes == i2.size_bytes && i2.size_bytes == size_bytes,
{
}

} // verus!

//! The rule chain that decides what kind of file a parsed source file is.

use vstd::prelude::*;

use crate::model::{ItemKind, SourceLang};
use crate::paths::{
    components_of, file_name_of, file_stem_of, opt_view, path_components, path_file_name,
    path_file_stem,
};
use crate::scanner::parser::ParsedFile;
use crate::text::{
    blank, chars_of, contains_str, has_sub, is_blank, is_white_space, lowercase, str_eq,
    to_lowercase,
};

verus! {

// ---------------------------------------------------------------------------
// Specification
// ---------------------------------------------------------------------------

/// Rule 1 on a lower-cased path: it mentions "test" or "spec".
pub open spec fn test_harness_path(lp: Seq<char>) -> bool {
    has_sub(lp, "test"@) || has_sub(lp, "spec"@)
}

/// Rule 2 on a lower-cased path: it mentions "fixture".
pub open spec fn fixture_path(lp: Seq<char>) -> bool {
    has_sub(lp, "fixture"@)
}

/// Rule 3: a shell or Nushell file.
pub open spec fn script_lang(l: SourceLang) -> bool {
    l == SourceLang::Shell || l == SourceLang::Nushell
}

/// Rule 4: a Markdown file.
pub open spec fn spec_lang(l: SourceLang) -> bool {
    l == SourceLang::Markdown
}

/// Rule 5: a configuration language.
pub open spec fn config_lang(l: SourceLang) -> bool {
    l == SourceLang::Toml || l == SourceLang::Yaml || l == SourceLang::Json || l
        == SourceLang::Baml
}

/// A node kind that declares an interface, protocol or trait.
pub open spec fn port_kind(k: Seq<char>) -> bool {
    k == "interface_type"@ || k == "protocol_stmt"@ || k == "trait_item"@
}

/// A node kind that only dispatches: `use`, `mod`, `extern crate`, imports.
pub open spec fn dispatch_kind(k: Seq<char>) -> bool {
    ||| k == "use_declaration"@
    ||| k == "mod_item"@
    ||| k == "extern_crate_declaration"@
    ||| k == "import_statement"@
    ||| k == "import_from_statement"@
}

/// A node kind that owns logic: a type, a class, an impl or a function.
pub open spec fn domain_kind(k: Seq<char>) -> bool {
    ||| k == "class_definition"@
    ||| k == "type_declaration"@
    ||| k == "struct_item"@
    ||| k == "enum_item"@
    ||| k == "impl_item"@
    ||| k == "function_item"@
    ||| k == "function_definition"@
    ||| k == "function_declaration"@
    ||| k == "decorated_definition"@
}

/// A node kind that can hold a `main` function.
pub open spec fn function_kind(k: Seq<char>) -> bool {
    k == "function_definition"@ || k == "function_declaration"@
}

/// A file name that is glue when the parser found nothing in the file.
pub open spec fn glue_file_name(name: Seq<char>) -> bool {
    name == "lib.rs"@ || name == "mod.rs"@ || name == "app.rs"@ || name == "__init__.py"@
}

/// Some kind of the sequence satisfies `f`.
pub open spec fn any_kind(kinds: Seq<Seq<char>>, f: spec_fn(Seq<char>) -> bool) -> bool {
    exists|i: int| 0 <= i < kinds.len() && f(#[trigger] kinds[i])
}

/// Every kind of the sequence satisfies `f`.
pub open spec fn all_kinds(kinds: Seq<Seq<char>>, f: spec_fn(Seq<char>) -> bool) -> bool {
    forall|i: int| 0 <= i < kinds.len() ==> f(#[trigger] kinds[i])
}

/// Rule 6: some top-level node declares an interface, protocol or trait.
pub open spec fn port_content(p: ParsedFile) -> bool {
    any_kind(p.kinds(), |k: Seq<char>| port_kind(k))
}

/// Rule 7 on a lower-cased path: it mentions adapter, integration, provider,
/// backend, store, source_ or inbox.
pub open spec fn adapter_path(lp: Seq<char>) -> bool {
    ||| has_sub(lp, "adapter"@)
    ||| has_sub(lp, "integration"@)
    ||| has_sub(lp, "provider"@)
    ||| has_sub(lp, "backend"@)
    ||| has_sub(lp, "store"@)
    ||| has_sub(lp, "source_"@)
    ||| has_sub(lp, "inbox"@)
}

/// A path segment named `cmd`.
pub open spec fn cmd_segment(segs: Seq<Seq<char>>) -> bool {
    exists|i: int| 0 <= i < segs.len() && #[trigger] segs[i] == "cmd"@
}

/// Rule 9, on the lower-cased path, its file stem and its segments: the stem
/// is "main", a segment is `cmd` (or the path mentions "/cmd."), or a
/// function node is at the top level and the source defines `main`
/// (`def main` or `func main(`).
pub open spec fn entrypoint_signal(
    p: ParsedFile,
    lp: Seq<char>,
    stem: Seq<char>,
    segs: Seq<Seq<char>>,
) -> bool {
    ||| stem == "main"@
    ||| cmd_segment(segs)
    ||| has_sub(lp, "/cmd."@)
    ||| (any_kind(p.kinds(), |k: Seq<char>| function_kind(k)) && (has_sub(
        p.raw_source@,
        "def main"@,
    ) || has_sub(p.raw_source@, "func main("@)))
}

/// Rule 10: some top-level node owns logic.
pub open spec fn domain_content(p: ParsedFile) -> bool {
    any_kind(p.kinds(), |k: Seq<char>| domain_kind(k))
}

/// Rule 11: every top-level node is dispatch only; with no top-level node, a
/// Rust file whose source is blank, or another file with a glue file name.
pub open spec fn glue_signal(p: ParsedFile, name: Seq<char>) -> bool {
    if p.kinds().len() == 0 {
        if p.lang == SourceLang::Rust {
            is_blank(p.raw_source@)
        } else {
            glue_file_name(name)
        }
    } else {
        all_kinds(p.kinds(), |k: Seq<char>| dispatch_kind(k))
    }
}

/// The rule chain, on the lower-cased path, file stem and file name.
pub open spec fn classification(
    p: ParsedFile,
    lp: Seq<char>,
    stem: Seq<char>,
    name: Seq<char>,
    segs: Seq<Seq<char>>,
) -> ItemKind {
    if test_harness_path(lp) {
        ItemKind::TestHarness
    } else if fixture_path(lp) {
        ItemKind::Discard
    } else if script_lang(p.lang) {
        ItemKind::Script
    } else if spec_lang(p.lang) {
        ItemKind::Spec
    } else if config_lang(p.lang) {
        ItemKind::Config
    } else if port_content(p) {
        ItemKind::Port
    } else if adapter_path(lp) {
        ItemKind::Adapter
    } else if p.lang == SourceLang::TypeScript {
        ItemKind::DomainLogic
    } else if entrypoint_signal(p, lp, stem, segs) {
        ItemKind::Entrypoint
    } else if domain_content(p) {
        ItemKind::DomainLogic
    } else if glue_signal(p, name) {
        ItemKind::Glue
    } else {
        ItemKind::Discard
    }
}

/// The lower-cased text of an optional path part, empty when absent.
pub open spec fn lowered_or_empty(part: Option<Seq<char>>) -> Seq<char> {
    match part {
        Some(s) => lowercase(s),
        None => Seq::empty(),
    }
}

/// The text of an optional path part, empty when absent.
pub open spec fn or_empty(part: Option<Seq<char>>) -> Seq<char> {
    match part {
        Some(s) => s,
        None => Seq::empty(),
    }
}

/// The file stem of the lower-cased path (empty when it has none).
pub open spec fn lowered_stem(path: Seq<char>) -> Seq<char> {
    or_empty(file_stem_of(lowercase(path)))
}

/// The file name of the lower-cased path (empty when it has none).
pub open spec fn lowered_name(path: Seq<char>) -> Seq<char> {
    or_empty(file_name_of(lowercase(path)))
}

/// The segments of the lower-cased path.
pub open spec fn lowered_segments(path: Seq<char>) -> Seq<Seq<char>> {
    components_of(lowercase(path))
}

/// Rule 9 on a path: path rules look at the path lower-cased first.
pub open spec fn entrypoint_at(p: ParsedFile, path: Seq<char>) -> bool {
    entrypoint_signal(p, lowercase(path), lowered_stem(path), lowered_segments(path))
}

/// The kind that `classify` gives a parsed file found at `path`: the rule
/// chain on the lower-cased path, its file stem, file name and segments.
pub open spec fn classify_spec(p: ParsedFile, path: Seq<char>) -> ItemKind {
    classification(
        p,
        lowercase(path),
        lowered_stem(path),
        lowered_name(path),
        lowered_segments(path),
    )
}

// ---------------------------------------------------------------------------
// Kind tests
// ---------------------------------------------------------------------------

fn is_port_kind(k: &str) -> (r: bool)
    ensures
        r == port_kind(k@),
{
    str_eq(k, "interface_type") || str_eq(k, "protocol_stmt") || str_eq(k, "trait_item")
}

fn is_dispatch_kind(k: &str) -> (r: bool)
    ensures
        r == dispatch_kind(k@),
{
    str_eq(k, "use_declaration") || str_eq(k, "mod_item") || str_eq(k, "extern_crate_declaration")
        || str_eq(k, "import_statement") || str_eq(k, "import_from_statement")
}

fn is_domain_kind(k: &str) -> (r: bool)
    ensures
        r == domain_kind(k@),
{
    str_eq(k, "class_definition") || str_eq(k, "type_declaration") || str_eq(k, "struct_item")
        || str_eq(k, "enum_item") || str_eq(k, "impl_item") || str_eq(k, "function_item")
        || str_eq(k, "function_definition") || str_eq(k, "function_declaration") || str_eq(
        k,
        "decorated_definition",
    )
}

fn is_function_kind(k: &str) -> (r: bool)
    ensures
        r == function_kind(k@),
{
    str_eq(k, "function_definition") || str_eq(k, "function_declaration")
}

fn has_port_kind(p: &ParsedFile) -> (r: bool)
    ensures
        r == port_content(*p),
{
    let n = p.top_level_kinds.len();
    for i in 0..n
        invariant
            n == p.kinds().len(),
            forall|j: int| 0 <= j < i ==> !port_kind(#[trigger] p.kinds()[j]),
    {
        if is_port_kind(p.top_level_kinds[i].as_str()) {
            assert(port_kind(p.kinds()[i as int]));
            return true;
        }
    }
    false
}

fn has_domain_kind(p: &ParsedFile) -> (r: bool)
    ensures
        r == domain_content(*p),
{
    let n = p.top_level_kinds.len();
    for i in 0..n
        invariant
            n == p.kinds().len(),
            forall|j: int| 0 <= j < i ==> !domain_kind(#[trigger] p.kinds()[j]),
    {
        if is_domain_kind(p.top_level_kinds[i].as_str()) {
            assert(domain_kind(p.kinds()[i as int]));
            return true;
        }
    }
    false
}

fn has_function_kind(p: &ParsedFile) -> (r: bool)
    ensures
        r == any_kind(p.kinds(), |k: Seq<char>| function_kind(k)),
{
    let n = p.top_level_kinds.len();
    for i in 0..n
        invariant
            n == p.kinds().len(),
            forall|j: int| 0 <= j < i ==> !function_kind(#[trigger] p.kinds()[j]),
    {
        if is_function_kind(p.top_level_kinds[i].as_str()) {
            assert(function_kind(p.kinds()[i as int]));
            return true;
        }
    }
    false
}

fn only_dispatch_kinds(p: &ParsedFile) -> (r: bool)
    ensures
        r == all_kinds(p.kinds(), |k: Seq<char>| dispatch_kind(k)),
{
    let n = p.top_level_kinds.len();
    for i in 0..n
        invariant
            n == p.kinds().len(),
            forall|j: int| 0 <= j < i ==> dispatch_kind(#[trigger] p.kinds()[j]),
    {
        if !is_dispatch_kind(p.top_level_kinds[i].as_str()) {
            assert(!dispatch_kind(p.kinds()[i as int]));
            return false;
        }
    }
    true
}

// ---------------------------------------------------------------------------
// Rules on lower-cased text
// ---------------------------------------------------------------------------

fn test_harness_in(lp: &[char]) -> (r: bool)
    ensures
        r == test_harness_path(lp@),
{
    contains_str(lp, "test") || contains_str(lp, "spec")
}

fn fixture_in(lp: &[char]) -> (r: bool)
    ensures
        r == fixture_path(lp@),
{
    contains_str(lp, "fixture")
}

fn adapter_in(lp: &[char]) -> (r: bool)
    ensures
        r == adapter_path(lp@),
{
    contains_str(lp, "adapter") || contains_str(lp, "integration") || contains_str(lp, "provider")
        || contains_str(lp, "backend") || contains_str(lp, "store") || contains_str(
        lp,
        "source_",
    ) || contains_str(lp, "inbox")
}

fn has_cmd_segment(segs: &[String]) -> (r: bool)
    ensures
        r == cmd_segment(segs@.map_values(|c: String| c@)),
{
    let ghost sv = segs@.map_values(|c: String| c@);
    let n = segs.len();
    for i in 0..n
        invariant
            n == segs@.len(),
            sv == segs@.map_values(|c: String| c@),
            forall|j: int| 0 <= j < i ==> #[trigger] sv[j] != "cmd"@,
    {
        if str_eq(segs[i].as_str(), "cmd") {
            assert(sv[i as int] == "cmd"@);
            return true;
        }
    }
    false
}

fn entrypoint_in(p: &ParsedFile, lp: &[char], stem: &str, segs: &[String]) -> (r: bool)
    ensures
        r == entrypoint_signal(*p, lp@, stem@, segs@.map_values(|c: String| c@)),
{
    if str_eq(stem, "main") {
        return true;
    }
    if has_cmd_segment(segs) || contains_str(lp, "/cmd.") {
        return true;
    }
    let raw = chars_of(p.raw_source.as_str());
    has_function_kind(p) && (contains_str(raw.as_slice(), "def main") || contains_str(
        raw.as_slice(),
        "func main(",
    ))
}

fn glue_in(p: &ParsedFile, name: &str) -> (r: bool)
    ensures
        r == glue_signal(*p, name@),
{
    if p.top_level_kinds.len() == 0 {
        if p.lang == SourceLang::Rust {
            return blank(p.raw_source.as_str());
        }
        return str_eq(name, "lib.rs") || str_eq(name, "mod.rs") || str_eq(name, "app.rs")
            || str_eq(name, "__init__.py");
    }
    only_dispatch_kinds(p)
}

/// The text of an optional path part, empty when absent.
fn text_or_empty(part: Option<String>) -> (r: String)
    ensures
        r@ == or_empty(opt_view(part)),
{
    match part {
        Some(s) => s,
        None => String::new(),
    }
}

// ---------------------------------------------------------------------------
// Public rules
// ---------------------------------------------------------------------------

/// Rule 1 – path contains "test" or "spec" (in any case) → TestHarness.
pub fn is_test_harness(path: &str) -> (r: bool)
    ensures
        r == test_harness_path(lowercase(path@)),
{
    let lp = chars_of(to_lowercase(path).as_str());
    test_harness_in(lp.as_slice())
}

/// Rule 2 – path contains "fixture" (in any case) → Discard.
pub fn is_fixture(path: &str) -> (r: bool)
    ensures
        r == fixture_path(lowercase(path@)),
{
    let lp = chars_of(to_lowercase(path).as_str());
    fixture_in(lp.as_slice())
}

/// Rule 3 – Shell or Nushell → Script.
pub fn is_script(parsed: &ParsedFile) -> (r: bool)
    ensures
        r == script_lang(parsed.lang),
{
    matches!(parsed.lang, SourceLang::Shell | SourceLang::Nushell)
}

/// Rule 4 – Markdown → Spec.
pub fn is_spec(parsed: &ParsedFile) -> (r: bool)
    ensures
        r == spec_lang(parsed.lang),
{
    matches!(parsed.lang, SourceLang::Markdown)
}

/// Rule 5 – Toml / Yaml / Json / Baml → Config.
pub fn is_config(parsed: &ParsedFile) -> (r: bool)
    ensures
        r == config_lang(parsed.lang),
{
    matches!(parsed.lang, SourceLang::Toml | SourceLang::Yaml | SourceLang::Json | SourceLang::Baml)
}

/// Rule 8 – TypeScript / TSX → DomainLogic, by language alone (no grammar).
pub fn is_typescript(parsed: &ParsedFile) -> (r: bool)
    ensures
        r == (parsed.lang == SourceLang::TypeScript),
{
    matches!(parsed.lang, SourceLang::TypeScript)
}

/// Rule 6 – a top-level node is an interface, protocol or trait → Port.
pub fn is_port(parsed: &ParsedFile) -> (r: bool)
    ensures
        r == port_content(*parsed),
{
    has_port_kind(parsed)
}

/// Rule 7 – path contains adapter / integration / provider / backend /
/// store / source_ / inbox (in any case) → Adapter.
pub fn is_adapter(path: &str) -> (r: bool)
    ensures
        r == adapter_path(lowercase(path@)),
{
    let lp = chars_of(to_lowercase(path).as_str());
    adapter_in(lp.as_slice())
}

/// Rule 9 – the file stem is "main", a segment is `cmd` (or the path
/// mentions "/cmd."), or a top-level function node comes with `def main` or
/// `func main(` in the source → Entrypoint. The path is lower-cased first.
pub fn is_entrypoint(parsed: &ParsedFile, path: &str) -> (r: bool)
    ensures
        r == entrypoint_at(*parsed, path@),
{
    let lowered = to_lowercase(path);
    let stem = text_or_empty(path_file_stem(lowered.as_str()));
    let segs = path_components(lowered.as_str());
    let lp = chars_of(lowered.as_str());
    entrypoint_in(parsed, lp.as_slice(), stem.as_str(), segs.as_slice())
}

/// Rule 11 – all top-level nodes are dispatch only → Glue; with no top-level
/// node, a blank Rust file, or a file named lib.rs / mod.rs / app.rs /
/// __init__.py in another language. The path is lower-cased first.
pub fn is_glue(parsed: &ParsedFile, path: &str) -> (r: bool)
    ensures
        r == glue_signal(*parsed, lowered_name(path@)),
{
    let lowered = to_lowercase(path);
    let name = text_or_empty(path_file_name(lowered.as_str()));
    glue_in(parsed, name.as_str())
}

/// Rule 10 – a top-level node is a class / type / struct / enum / impl /
/// function → DomainLogic.
pub fn is_domain_logic(parsed: &ParsedFile) -> (r: bool)
    ensures
        r == domain_content(*parsed),
{
    has_domain_kind(parsed)
}

/// The rule chain on a path already lower-cased, with its file stem and file
/// name (empty where the path has none) and its segments.
pub fn classify_lowered(
    parsed: &ParsedFile,
    lowered_path: &str,
    lowered_stem: &str,
    lowered_name: &str,
    lowered_segments: &[String],
) -> (k: ItemKind)
    ensures
        k == classification(
            *parsed,
            lowered_path@,
            lowered_stem@,
            lowered_name@,
            lowered_segments@.map_values(|c: String| c@),
        ),
{
    let lp = chars_of(lowered_path);
    if test_harness_in(lp.as_slice()) {
        return ItemKind::TestHarness;
    }
    if fixture_in(lp.as_slice()) {
        return ItemKind::Discard;
    }
    if is_script(parsed) {
        return ItemKind::Script;
    }
    if is_spec(parsed) {
        return ItemKind::Spec;
    }
    if is_config(parsed) {
        return ItemKind::Config;
    }
    if is_port(parsed) {
        return ItemKind::Port;
    }
    if adapter_in(lp.as_slice()) {
        return ItemKind::Adapter;
    }
    if is_typescript(parsed) {
        return ItemKind::DomainLogic;
    }
    if entrypoint_in(parsed, lp.as_slice(), lowered_stem, lowered_segments) {
        return ItemKind::Entrypoint;
    }
    if is_domain_logic(parsed) {
        return ItemKind::DomainLogic;
    }
    if glue_in(parsed, lowered_name) {
        return ItemKind::Glue;
    }
    ItemKind::Discard
}

/// Classify a parsed file found at `path` by the priority chain:
///
/// | Priority | Rule            | Kind        | Signal    |
/// |----------|-----------------|-------------|-----------|
/// | 1        | is_test_harness | TestHarness | path      |
/// | 2        | is_fixture      | Discard     | path      |
/// | 3        | is_script       | Script      | lang      |
/// | 4        | is_spec         | Spec        | lang      |
/// | 5        | is_config       | Config      | lang      |
/// | 6        | is_port         | Port        | content   |
/// | 7        | is_adapter      | Adapter     | path      |
/// | 8        | is_typescript   | DomainLogic | lang      |
/// | 9        | is_entrypoint   | Entrypoint  | path+src  |
/// | 10       | is_domain_logic | DomainLogic | content   |
/// | 11       | is_glue         | Glue        | content   |
/// | --       | fallthrough     | Discard     | --        |
///
/// Path rules look at the path lower-cased first.
pub fn classify(parsed: &ParsedFile, path: &str) -> (k: ItemKind)
    ensures
        k == classify_spec(*parsed, path@),
{
    let lowered = to_lowercase(path);
    let stem = text_or_empty(path_file_stem(lowered.as_str()));
    let name = text_or_empty(path_file_name(lowered.as_str()));
    let segs = path_components(lowered.as_str());
    classify_lowered(parsed, lowered.as_str(), stem.as_str(), name.as_str(), segs.as_slice())
}

// ---------------------------------------------------------------------------
// Laws of the rule chain
// ---------------------------------------------------------------------------

/// Path rules are case-insensitive: two paths with the same lower-cased text
/// give files that agree in language, top-level nodes and source the same kind.
pub proof fn law_path_case_insensitive(p1: ParsedFile, p2: ParsedFile, a: Seq<char>, b: Seq<char>)
    requires
        lowercase(a) == lowercase(b),
        p1.lang == p2.lang,
        p1.kinds() == p2.kinds(),
        p1.raw_source@ == p2.raw_source@,
    ensures
        classify_spec(p1, a) == classify_spec(p2, b),
{
}

/// A path that mentions "test" or "spec" is a test harness, whatever else holds.
pub proof fn law_test_path_wins(p: ParsedFile, path: Seq<char>)
    requires
        test_harness_path(lowercase(path)),
    ensures
        classify_spec(p, path) == ItemKind::TestHarness,
{
}

/// A fixture path that is not a test path is discarded, whatever the language
/// or content.
pub proof fn law_fixture_path_discards(p: ParsedFile, path: Seq<char>)
    requires
        !test_harness_path(lowercase(path)),
        fixture_path(lowercase(path)),
    ensures
        classify_spec(p, path) == ItemKind::Discard,
{
}

/// The language-only rules do not depend on the path: a script, Markdown or
/// configuration file gets its language's kind at every path that is neither
/// a test nor a fixture path.
pub proof fn law_language_rules_ignore_path(p: ParsedFile, path: Seq<char>)
    requires
        !test_harness_path(lowercase(path)),
        !fixture_path(lowercase(path)),
        script_lang(p.lang) || spec_lang(p.lang) || config_lang(p.lang),
    ensures
        classify_spec(p, path) == (if script_lang(p.lang) {
            ItemKind::Script
        } else if spec_lang(p.lang) {
            ItemKind::Spec
        } else {
            ItemKind::Config
        }),
{
}

/// Port content beats an adapter path, the TypeScript rule, entrypoint
/// signals and domain content.
pub proof fn law_port_content_wins_below_language_rules(p: ParsedFile, path: Seq<char>)
    requires
        !test_harness_path(lowercase(path)),
        !fixture_path(lowercase(path)),
        !script_lang(p.lang),
        !spec_lang(p.lang),
        !config_lang(p.lang),
        port_content(p),
    ensures
        classify_spec(p, path) == ItemKind::Port,
{
}

/// An adapter path beats the TypeScript rule, entrypoint signals, domain
/// content and glue: such a file without port content is an adapter.
pub proof fn law_adapter_path_wins_below_port(p: ParsedFile, path: Seq<char>)
    requires
        !test_harness_path(lowercase(path)),
        !fixture_path(lowercase(path)),
        !script_lang(p.lang),
        !spec_lang(p.lang),
        !config_lang(p.lang),
        !port_content(p),
        adapter_path(lowercase(path)),
    ensures
        classify_spec(p, path) == ItemKind::Adapter,
{
}

/// A TypeScript file outside test, fixture and adapter paths and without port
/// content is domain logic, also at an entrypoint path such as `src/main.ts`.
pub proof fn law_typescript_is_domain_logic(p: ParsedFile, path: Seq<char>)
    requires
        p.lang == SourceLang::TypeScript,
        !test_harness_path(lowercase(path)),
        !fixture_path(lowercase(path)),
        !port_content(p),
        !adapter_path(lowercase(path)),
    ensures
        classify_spec(p, path) == ItemKind::DomainLogic,
{
}

/// A Rust file with no top-level node and a source that is not blank is never
/// glue (an unparsed file is not an empty stub).
pub proof fn law_nonblank_rust_without_kinds_is_not_glue(p: ParsedFile, path: Seq<char>)
    requires
        p.lang == SourceLang::Rust,
        p.kinds().len() == 0,
        !is_blank(p.raw_source@),
    ensures
        classify_spec(p, path) != ItemKind::Glue,
{
}

/// A blank Rust file with no top-level node is glue unless a path rule or an
/// entrypoint signal fires first.
pub proof fn law_blank_rust_without_kinds_is_glue(p: ParsedFile, path: Seq<char>)
    requires
        p.lang == SourceLang::Rust,
        p.kinds().len() == 0,
        is_blank(p.raw_source@),
        !test_harness_path(lowercase(path)),
        !fixture_path(lowercase(path)),
        !adapter_path(lowercase(path)),
        !entrypoint_at(p, path),
    ensures
        classify_spec(p, path) == ItemKind::Glue,
{
}

/// Node kinds that no rule knows do not promote a file: when no path,
/// language or entrypoint rule fires, such a file is discarded.
pub proof fn law_unknown_kinds_are_discarded(p: ParsedFile, path: Seq<char>)
    requires
        p.kinds().len() > 0,
        forall|i: int|
            0 <= i < p.kinds().len() ==> !port_kind(#[trigger] p.kinds()[i]) && !domain_kind(
                p.kinds()[i],
            ) && !dispatch_kind(p.kinds()[i]),
        !test_harness_path(lowercase(path)),
        !fixture_path(lowercase(path)),
        !script_lang(p.lang),
        !spec_lang(p.lang),
        !config_lang(p.lang),
        p.lang != SourceLang::TypeScript,
        !adapter_path(lowercase(path)),
        !entrypoint_at(p, path),
    ensures
        classify_spec(p, path) == ItemKind::Discard,
{
    assert(!port_content(p));
    assert(!domain_content(p));
    assert(!dispatch_kind(p.kinds()[0]));
    assert(!glue_signal(p, lowered_name(path)));
}

/// A file whose top-level nodes include a class, type, struct, enum, impl or
/// function (`class_definition`, `type_declaration`, `struct_item`,
/// `enum_item`, `impl_item`, `function_item`, `function_definition`,
/// `function_declaration`, `decorated_definition`) and no interface,
/// protocol or trait, in a Python, Go, Rust or unknown-language file at a path
/// that mentions none of test, spec, fixture, adapter, integration, provider,
/// backend, store, source_ or inbox and is no entrypoint, is domain logic.
pub proof fn law_logic_nodes_make_domain_logic(p: ParsedFile, path: Seq<char>)
    requires
        p.lang == SourceLang::Python || p.lang == SourceLang::Go || p.lang == SourceLang::Rust
            || p.lang == SourceLang::Unknown,
        exists|i: int|
            0 <= i < p.kinds().len() && {
                let k = #[trigger] p.kinds()[i];
                ||| k == "class_definition"@
                ||| k == "type_declaration"@
                ||| k == "struct_item"@
                ||| k == "enum_item"@
                ||| k == "impl_item"@
                ||| k == "function_item"@
                ||| k == "function_definition"@
                ||| k == "function_declaration"@
                ||| k == "decorated_definition"@
            },
        forall|i: int|
            0 <= i < p.kinds().len() ==> #[trigger] p.kinds()[i] != "interface_type"@
                && p.kinds()[i] != "protocol_stmt"@ && p.kinds()[i] != "trait_item"@,
        !has_sub(lowercase(path), "test"@),
        !has_sub(lowercase(path), "spec"@),
        !has_sub(lowercase(path), "fixture"@),
        !has_sub(lowercase(path), "adapter"@),
        !has_sub(lowercase(path), "integration"@),
        !has_sub(lowercase(path), "provider"@),
        !has_sub(lowercase(path), "backend"@),
        !has_sub(lowercase(path), "store"@),
        !has_sub(lowercase(path), "source_"@),
        !has_sub(lowercase(path), "inbox"@),
        !entrypoint_at(p, path),
    ensures
        classify_spec(p, path) == ItemKind::DomainLogic,
{
    assert(!port_content(p));
    let i = choose|i: int|
        0 <= i < p.kinds().len() && {
            let k = #[trigger] p.kinds()[i];
            ||| k == "class_definition"@
            ||| k == "type_declaration"@
            ||| k == "struct_item"@
            ||| k == "enum_item"@
            ||| k == "impl_item"@
            ||| k == "function_item"@
            ||| k == "function_definition"@
            ||| k == "function_declaration"@
            ||| k == "decorated_definition"@
        };
    assert(domain_kind(p.kinds()[i]));
    assert(domain_content(p));
}

/// What each kind requires of the file, in plain terms: a test harness's
/// lower-cased path mentions test or spec; a discarded file's mentions
/// fixture, or nothing else fired; scripts are shell or Nushell, specs
/// Markdown, configs TOML / YAML / JSON / BAML; a port has an interface,
/// protocol or trait node; an adapter's path mentions adapter, integration,
/// provider, backend, store, source_ or inbox; domain logic is TypeScript or
/// has a logic node; glue has only dispatch nodes, or none at all.
pub proof fn law_kinds_need_their_signals(p: ParsedFile, path: Seq<char>)
    ensures
        ({
            let lp = lowercase(path);
            let k = classify_spec(p, path);
            let ks = p.kinds();
            &&& k == ItemKind::TestHarness ==> has_sub(lp, "test"@) || has_sub(lp, "spec"@)
            &&& k == ItemKind::Script ==> p.lang == SourceLang::Shell || p.lang
                == SourceLang::Nushell
            &&& k == ItemKind::Spec ==> p.lang == SourceLang::Markdown
            &&& k == ItemKind::Config ==> p.lang == SourceLang::Toml || p.lang == SourceLang::Yaml
                || p.lang == SourceLang::Json || p.lang == SourceLang::Baml
            &&& k == ItemKind::Port ==> exists|i: int|
                0 <= i < ks.len() && (#[trigger] ks[i] == "interface_type"@ || ks[i]
                    == "protocol_stmt"@ || ks[i] == "trait_item"@)
            &&& k == ItemKind::Adapter ==> {
                ||| has_sub(lp, "adapter"@)
                ||| has_sub(lp, "integration"@)
                ||| has_sub(lp, "provider"@)
                ||| has_sub(lp, "backend"@)
                ||| has_sub(lp, "store"@)
                ||| has_sub(lp, "source_"@)
                ||| has_sub(lp, "inbox"@)
            }
            &&& k == ItemKind::Entrypoint ==> {
                ||| file_stem_of(lp) == Some("main"@)
                ||| (exists|i: int|
                    0 <= i < components_of(lp).len() && #[trigger] components_of(lp)[i]
                        == "cmd"@)
                ||| has_sub(lp, "/cmd."@)
                ||| (exists|i: int|
                    0 <= i < ks.len() && (#[trigger] ks[i] == "function_definition"@ || ks[i]
                        == "function_declaration"@)) && (has_sub(p.raw_source@, "def main"@)
                    || has_sub(p.raw_source@, "func main("@))
            }
            &&& k == ItemKind::DomainLogic ==> p.lang == SourceLang::TypeScript || exists|i: int|
                0 <= i < ks.len() && {
                    let x = #[trigger] ks[i];
                    ||| x == "class_definition"@
                    ||| x == "type_declaration"@
                    ||| x == "struct_item"@
                    ||| x == "enum_item"@
                    ||| x == "impl_item"@
                    ||| x == "function_item"@
                    ||| x == "function_definition"@
                    ||| x == "function_declaration"@
                    ||| x == "decorated_definition"@
                }
            &&& k == ItemKind::Glue ==> if ks.len() == 0 {
                if p.lang == SourceLang::Rust {
                    forall|i: int|
                        0 <= i < p.raw_source@.len() ==> is_white_space(#[trigger] p.raw_source@[i])
                } else {
                    let name = file_name_of(lp);
                    ||| name == Some("lib.rs"@)
                    ||| name == Some("mod.rs"@)
                    ||| name == Some("app.rs"@)
                    ||| name == Some("__init__.py"@)
                }
            } else {
                forall|i: int|
                    0 <= i < ks.len() ==> {
                        let x = #[trigger] ks[i];
                        ||| x == "use_declaration"@
                        ||| x == "mod_item"@
                        ||| x == "extern_crate_declaration"@
                        ||| x == "import_statement"@
                        ||| x == "import_from_statement"@
                    }
            }
        }),
{
    reveal_strlit("main");
    reveal_strlit("lib.rs");
    reveal_strlit("mod.rs");
    reveal_strlit("app.rs");
    reveal_strlit("__init__.py");
    let lp = lowercase(path);
    let k = classify_spec(p, path);
    if k == ItemKind::Port {
        let i = choose|i: int| 0 <= i < p.kinds().len() && port_kind(#[trigger] p.kinds()[i]);
        assert(p.kinds()[i] == "interface_type"@ || p.kinds()[i] == "protocol_stmt"@ || p.kinds()[i]
            == "trait_item"@);
    }
    if k == ItemKind::DomainLogic && p.lang != SourceLang::TypeScript {
        let i = choose|i: int| 0 <= i < p.kinds().len() && domain_kind(#[trigger] p.kinds()[i]);
        assert(domain_kind(p.kinds()[i]));
    }
    if k == ItemKind::Entrypoint {
        if cmd_segment(lowered_segments(path)) {
            let i = choose|i: int|
                0 <= i < lowered_segments(path).len() && #[trigger] lowered_segments(path)[i]
                    == "cmd"@;
            assert(components_of(lp)[i] == "cmd"@);
        }
        if any_kind(p.kinds(), |x: Seq<char>| function_kind(x)) {
            let i = choose|i: int| 0 <= i < p.kinds().len() && function_kind(#[trigger] p.kinds()[i]);
            assert(function_kind(p.kinds()[i]));
        }
    }
    if k == ItemKind::Entrypoint && lowered_stem(path) == "main"@ {
        assert(file_stem_of(lp) == Some("main"@)) by {
            if file_stem_of(lp) is None {
                assert(lowered_stem(path).len() == 0);
            }
        }
    }
    if k == ItemKind::Glue && p.kinds().len() == 0 && p.lang != SourceLang::Rust {
        let name = lowered_name(path);
        assert(glue_file_name(name));
        if file_name_of(lp) is None {
            assert(name.len() == 0);
        }
    }
    if k == ItemKind::Glue && p.kinds().len() > 0 {
        assert forall|i: int| 0 <= i < p.kinds().len() implies dispatch_kind(#[trigger] p.kinds()[i]) by {}
    }
}

/// The signals in plain terms give their kinds, rule by rule in priority
/// order: a path mentioning test or spec gives a test harness; then fixture
/// gives discard; then shell / Nushell a script, Markdown a spec, TOML / YAML
/// / JSON / BAML a config; then an interface, protocol or trait node a port;
/// then an adapter word an adapter; then TypeScript domain logic.
pub proof fn law_signals_give_kinds(p: ParsedFile, path: Seq<char>)
    ensures
        ({
            let lp = lowercase(path);
            let k = classify_spec(p, path);
            let ks = p.kinds();
            let test = has_sub(lp, "test"@) || has_sub(lp, "spec"@);
            let fixture = has_sub(lp, "fixture"@);
            let lang_rule = p.lang == SourceLang::Shell || p.lang == SourceLang::Nushell || p.lang
                == SourceLang::Markdown || p.lang == SourceLang::Toml || p.lang == SourceLang::Yaml
                || p.lang == SourceLang::Json || p.lang == SourceLang::Baml;
            let port = exists|i: int|
                0 <= i < ks.len() && (#[trigger] ks[i] == "interface_type"@ || ks[i]
                    == "protocol_stmt"@ || ks[i] == "trait_item"@);
            let adapter = {
                ||| has_sub(lp, "adapter"@)
                ||| has_sub(lp, "integration"@)
                ||| has_sub(lp, "provider"@)
                ||| has_sub(lp, "backend"@)
                ||| has_sub(lp, "store"@)
                ||| has_sub(lp, "source_"@)
                ||| has_sub(lp, "inbox"@)
            };
            &&& test ==> k == ItemKind::TestHarness
            &&& !test && fixture ==> k == ItemKind::Discard
            &&& !test && !fixture && (p.lang == SourceLang::Shell || p.lang == SourceLang::Nushell)
                ==> k == ItemKind::Script
            &&& !test && !fixture && p.lang == SourceLang::Markdown ==> k == ItemKind::Spec
            &&& !test && !fixture && (p.lang == SourceLang::Toml || p.lang == SourceLang::Yaml
                || p.lang == SourceLang::Json || p.lang == SourceLang::Baml) ==> k
                == ItemKind::Config
            &&& !test && !fixture && !lang_rule && port ==> k == ItemKind::Port
            &&& !test && !fixture && !lang_rule && !port && adapter ==> k == ItemKind::Adapter
            &&& !test && !fixture && !port && !adapter && p.lang == SourceLang::TypeScript ==> k
                == ItemKind::DomainLogic
        }),
{
    let ks = p.kinds();
    if exists|i: int|
        0 <= i < ks.len() && (#[trigger] ks[i] == "interface_type"@ || ks[i] == "protocol_stmt"@
            || ks[i] == "trait_item"@) {
        let i = choose|i: int|
            0 <= i < ks.len() && (#[trigger] ks[i] == "interface_type"@ || ks[i]
                == "protocol_stmt"@ || ks[i] == "trait_item"@);
        assert(port_kind(ks[i]));
    }
}

/// Entrypoint signals in plain terms: in a Python, Go, Rust or unknown-language
/// file that no earlier rule claims, a lower-cased file stem `main`, a `cmd`
/// segment, a path mentioning "/cmd.", or a function node together with
/// `def main` or `func main(` in the source makes an entrypoint.
pub proof fn law_entrypoint_signals(p: ParsedFile, path: Seq<char>)
    requires
        p.lang == SourceLang::Python || p.lang == SourceLang::Go || p.lang == SourceLang::Rust
            || p.lang == SourceLang::Unknown,
        !test_harness_path(lowercase(path)),
        !fixture_path(lowercase(path)),
        !port_content(p),
        !adapter_path(lowercase(path)),
        ({
            let lp = lowercase(path);
            let ks = p.kinds();
            ||| file_stem_of(lp) == Some("main"@)
            ||| (exists|i: int|
                0 <= i < components_of(lp).len() && #[trigger] components_of(lp)[i] == "cmd"@)
            ||| has_sub(lp, "/cmd."@)
            ||| (exists|i: int|
                0 <= i < ks.len() && (#[trigger] ks[i] == "function_definition"@ || ks[i]
                    == "function_declaration"@)) && (has_sub(p.raw_source@, "def main"@) || has_sub(
                p.raw_source@,
                "func main("@,
            ))
        }),
    ensures
        classify_spec(p, path) == ItemKind::Entrypoint,
{
    let lp = lowercase(path);
    let ks = p.kinds();
    if exists|i: int| 0 <= i < components_of(lp).len() && #[trigger] components_of(lp)[i] == "cmd"@ {
        let i = choose|i: int|
            0 <= i < components_of(lp).len() && #[trigger] components_of(lp)[i] == "cmd"@;
        assert(lowered_segments(path)[i] == "cmd"@);
    }
    if exists|i: int|
        0 <= i < ks.len() && (#[trigger] ks[i] == "function_definition"@ || ks[i]
            == "function_declaration"@) {
        let i = choose|i: int|
            0 <= i < ks.len() && (#[trigger] ks[i] == "function_definition"@ || ks[i]
                == "function_declaration"@);
        assert(function_kind(ks[i]));
    }
}

/// Glue in plain terms: in a Python, Go, Rust or unknown-language file that no
/// earlier rule claims and that has no logic node, only dispatch nodes (use,
/// mod, extern crate, import) make glue; with no node at all, a blank Rust
/// file or a lib.rs / mod.rs / app.rs / __init__.py in another language is glue.
pub proof fn law_glue_signals(p: ParsedFile, path: Seq<char>)
    requires
        p.lang == SourceLang::Python || p.lang == SourceLang::Go || p.lang == SourceLang::Rust
            || p.lang == SourceLang::Unknown,
        !test_harness_path(lowercase(path)),
        !fixture_path(lowercase(path)),
        !port_content(p),
        !adapter_path(lowercase(path)),
        !entrypoint_at(p, path),
        !domain_content(p),
        ({
            let ks = p.kinds();
            let name = file_name_of(lowercase(path));
            ||| ks.len() > 0 && forall|i: int|
                0 <= i < ks.len() ==> {
                    let x = #[trigger] ks[i];
                    ||| x == "use_declaration"@
                    ||| x == "mod_item"@
                    ||| x == "extern_crate_declaration"@
                    ||| x == "import_statement"@
                    ||| x == "import_from_statement"@
                }
            ||| ks.len() == 0 && p.lang == SourceLang::Rust && forall|i: int|
                0 <= i < p.raw_source@.len() ==> #[trigger] p.raw_source@[i] == ' '
                    || p.raw_source@[i] == '\n' || p.raw_source@[i] == '\t'
            ||| ks.len() == 0 && p.lang != SourceLang::Rust && (name == Some("lib.rs"@) || name
                == Some("mod.rs"@) || name == Some("app.rs"@) || name == Some("__init__.py"@))
        }),
    ensures
        classify_spec(p, path) == ItemKind::Glue,
{
    let ks = p.kinds();
    if ks.len() > 0 {
        assert forall|i: int| 0 <= i < ks.len() implies dispatch_kind(#[trigger] ks[i]) by {}
    }
    if ks.len() == 0 && p.lang == SourceLang::Rust {
        assert forall|i: int| 0 <= i < p.raw_source@.len() implies is_white_space(
            #[trigger] p.raw_source@[i],
        ) by {}
    }
}

} // verus!

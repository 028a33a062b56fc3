//! The records that flow through the scan, plan and eat stages.

use vstd::prelude::*;

verus! {

/// The language of a source file, as told by its extension.
#[derive(Debug, Clone, Copy, PartialEq, Eq, Structural)]
pub enum SourceLang {
    Python,
    Go,
    Shell,
    Nushell,
    Rust,
    TypeScript,
    Baml,
    Markdown,
    Toml,
    Yaml,
    Json,
    Unknown,
}

/// What role a file plays in the repository it was found in.
#[derive(Debug, Clone, Copy, PartialEq, Eq, Structural)]
pub enum ItemKind {
    DomainLogic,
    Port,
    Adapter,
    Entrypoint,
    TestHarness,
    Script,
    Spec,
    Config,
    /// Pure dispatch / glue file — only `use`, `mod`, re-exports; no owned logic.
    Glue,
    Discard,
}

/// One classified file of a scanned repository.
#[derive(Debug)]
pub struct HarvestItem {
    /// Path relative to the scanned root.
    pub rel_path: String,
    pub lang: SourceLang,
    pub kind: ItemKind,
    pub size_bytes: u64,
    pub notes: Option<String>,
}

/// A copy of an optional string.
pub fn clone_opt_string(s: &Option<String>) -> (r: Option<String>)
    ensures
        r == *s,
{
    match s {
        Some(t) => Some(t.clone()),
        None => None,
    }
}

impl Clone for HarvestItem {
    fn clone(&self) -> (r: Self)
        ensures
            r == *self,
    {
        HarvestItem {
            rel_path: self.rel_path.clone(),
            lang: self.lang,
            kind: self.kind,
            size_bytes: self.size_bytes,
            notes: clone_opt_string(&self.notes),
        }
    }
}

} // verus!

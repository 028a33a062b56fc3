//! Reading the top-level structure of a source file with tree-sitter.

use vstd::prelude::*;

use crate::model::SourceLang;

verus! {

/// Files larger than this many bytes are not parsed (512 KiB).
pub const MAX_FILE_BYTES: u64 = 524288;

/// A source file as the classifier sees it.
pub struct ParsedFile {
    pub path: String,
    pub lang: SourceLang,
    /// The node kinds of the syntax tree's top-level children, in order.
    pub top_level_kinds: Vec<String>,
    pub raw_source: String,
}

impl ParsedFile {
    /// The top-level node kinds as character sequences.
    pub open spec fn kinds(self) -> Seq<Seq<char>> {
        self.top_level_kinds@.map_values(|s: String| s@)
    }
}

/// The tree-sitter grammars the scanner links.
#[derive(Debug, Clone, Copy, PartialEq, Eq, Structural)]
pub enum Grammar {
    Python,
    Go,
    Bash,
    Rust,
}

/// Why tree-sitter produced no syntax tree.
#[derive(Debug, Clone, Copy, PartialEq, Eq, Structural)]
pub enum ParseError {
    /// `Parser::set_language` refused the grammar (an incompatible ABI version).
    LanguageRejected,
    /// `Parser::parse` returned no tree.
    NoTree,
}

/// The grammar that parses files of a language, if the scanner has one.
pub open spec fn grammar_of(lang: SourceLang) -> Option<Grammar> {
    match lang {
        SourceLang::Python => Some(Grammar::Python),
        SourceLang::Go => Some(Grammar::Go),
        SourceLang::Shell => Some(Grammar::Bash),
        SourceLang::Rust => Some(Grammar::Rust),
        _ => None,
    }
}

/// What tree-sitter gives for `source` under `grammar`: the kinds of the root
/// node's children, in order, or the reason it gave no tree.
pub uninterp spec fn syntax_top_level_kinds(grammar: Grammar, source: Seq<char>) -> Result<
    Seq<Seq<char>>,
    ParseError,
>;

/// The view of a list of node kinds, or of the error.
pub open spec fn kinds_result_view(r: Result<Vec<String>, ParseError>) -> Result<
    Seq<Seq<char>>,
    ParseError,
> {
    match r {
        Ok(v) => Ok(v@.map_values(|s: String| s@)),
        Err(e) => Err(e),
    }
}

/// Parses `source` with the tree-sitter grammar of the `tree-sitter-python`,
/// `-go`, `-bash` or `-rust` crate (`LANGUAGE`, `Parser::new`,
/// `Parser::set_language`, `Parser::parse`, `Tree::walk`, `Tree::root_node`,
/// `Node::children`, `Node::kind`). Claimed: the kinds of the root node's
/// children, or the error, are `syntax_top_level_kinds` of the grammar and the
/// source. Parsing sets no timeout and no cancellation, so the result depends
/// on these two arguments alone.
#[verifier::external_body]
fn top_level_kinds(grammar: Grammar, source: &str) -> (r: Result<Vec<String>, ParseError>)
    ensures
        kinds_result_view(r) == syntax_top_level_kinds(grammar, source@),
{
    let language: tree_sitter::Language = match grammar {
        Grammar::Python => tree_sitter_python::LANGUAGE.into(),
        Grammar::Go => tree_sitter_go::LANGUAGE.into(),
        Grammar::Bash => tree_sitter_bash::LANGUAGE.into(),
        Grammar::Rust => tree_sitter_rust::LANGUAGE.into(),
    };
    let mut parser = tree_sitter::Parser::new();
    parser.set_language(&language).map_err(|_| ParseError::LanguageRejected)?;
    let tree = parser.parse(source, None).ok_or(ParseError::NoTree)?;
    let mut cursor = tree.walk();
    Ok(tree.root_node().children(&mut cursor).map(|n| n.kind().to_string()).collect())
}

/// `r` is a parsed file with these fields.
pub open spec fn parsed_as(
    r: Result<ParsedFile, ParseError>,
    path: Seq<char>,
    lang: SourceLang,
    kinds: Seq<Seq<char>>,
    raw: Seq<char>,
) -> bool {
    match r {
        Ok(f) => f.path@ == path && f.lang == lang && f.kinds() == kinds && f.raw_source@ == raw,
        Err(_) => false,
    }
}

/// The grammar that parses files of `lang`, if any.
pub fn grammar_for(lang: SourceLang) -> (g: Option<Grammar>)
    ensures
        g == grammar_of(lang),
{
    match lang {
        SourceLang::Python => Some(Grammar::Python),
        SourceLang::Go => Some(Grammar::Go),
        SourceLang::Shell => Some(Grammar::Bash),
        SourceLang::Rust => Some(Grammar::Rust),
        _ => None,
    }
}

/// A file of `size_bytes` bytes is parsed at all.
pub fn within_size_limit(size_bytes: u64) -> (r: bool)
    ensures
        r == (size_bytes <= 524288),
{
    size_bytes <= MAX_FILE_BYTES
}

/// Build the `ParsedFile` of a source file of `size_bytes` bytes at `path`
/// whose text is `raw_source`.
///
/// Files larger than 512 KB are skipped: the result has `lang` set to
/// `SourceLang::Unknown`, no kinds and an empty source (`raw_source` is not
/// read; a caller may pass an empty string).
///
/// Languages without a tree-sitter grammar (`Unknown`, `Markdown`, `Toml`,
/// `Yaml`, `Json`, `Nushell`, `TypeScript`, `Baml`) bypass parsing and get an
/// empty `top_level_kinds`.
///
/// Parse errors are returned as `Err` and should be logged by the caller.
pub fn parse_file(path: &str, lang: SourceLang, size_bytes: u64, raw_source: String) -> (r: Result<
    ParsedFile,
    ParseError,
>)
    ensures
        size_bytes > 524288 ==> parsed_as(
            r,
            path@,
            SourceLang::Unknown,
            Seq::empty(),
            Seq::empty(),
        ),
        size_bytes <= 524288 && lang != SourceLang::Python && lang != SourceLang::Go
            && lang != SourceLang::Shell && lang != SourceLang::Rust ==> parsed_as(
            r,
            path@,
            lang,
            Seq::empty(),
            raw_source@,
        ),
        size_bytes <= MAX_FILE_BYTES && grammar_of(lang) is None ==> parsed_as(
            r,
            path@,
            lang,
            Seq::empty(),
            raw_source@,
        ),
        size_bytes <= MAX_FILE_BYTES && grammar_of(lang) is Some ==> match syntax_top_level_kinds(
            grammar_of(lang)->0,
            raw_source@,
        ) {
            Ok(ks) => parsed_as(r, path@, lang, ks, raw_source@),
            Err(e) => r == Err::<ParsedFile, ParseError>(e),
        },
{
    if !within_size_limit(size_bytes) {
        let empty: Vec<String> = Vec::new();
        assert(empty@.map_values(|s: String| s@) =~= Seq::<Seq<char>>::empty());
        return Ok(
            ParsedFile {
                path: path.to_owned(),
                lang: SourceLang::Unknown,
                top_level_kinds: empty,
                raw_source: String::new(),
            },
        );
    }
    match grammar_for(lang) {
        None => {
            let empty: Vec<String> = Vec::new();
            assert(empty@.map_values(|s: String| s@) =~= Seq::<Seq<char>>::empty());
            Ok(ParsedFile { path: path.to_owned(), lang, top_level_kinds: empty, raw_source })
        },
        Some(g) => {
            match top_level_kinds(g, raw_source.as_str()) {
                Ok(kinds) => Ok(
                    ParsedFile { path: path.to_owned(), lang, top_level_kinds: kinds, raw_source },
                ),
                Err(e) => Err(e),
            }
        },
    }
}

/// Only Python, Go, shell and Rust files have a grammar (Python, Go, Bash
/// and Rust); every other language bypasses parsing.
pub proof fn law_grammars(lang: SourceLang)
    ensures
        lang == SourceLang::Python <==> grammar_of(lang) == Some(Grammar::Python),
        lang == SourceLang::Go <==> grammar_of(lang) == Some(Grammar::Go),
        lang == SourceLang::Shell <==> grammar_of(lang) == Some(Grammar::Bash),
        lang == SourceLang::Rust <==> grammar_of(lang) == Some(Grammar::Rust),
        grammar_of(lang) is None <==> (lang != SourceLang::Python && lang != SourceLang::Go
            && lang != SourceLang::Shell && lang != SourceLang::Rust),
{
}

} // verus!

//! Which files of a repository the scanner visits, and their languages.

use vstd::prelude::*;

use crate::classifier::lowered_or_empty;
use crate::model::SourceLang;
use crate::paths::{extension_of, path_extension};
use crate::text::{str_eq, to_lowercase};

verus! {

/// The language of a (lower-cased) file extension.
pub open spec fn lang_of_ext(ext: Seq<char>) -> SourceLang {
    if ext == "py"@ {
        SourceLang::Python
    } else if ext == "go"@ {
        SourceLang::Go
    } else if ext == "sh"@ || ext == "bash"@ {
        SourceLang::Shell
    } else if ext == "nu"@ {
        SourceLang::Nushell
    } else if ext == "rs"@ {
        SourceLang::Rust
    } else if ext == "ts"@ || ext == "tsx"@ {
        SourceLang::TypeScript
    } else if ext == "baml"@ {
        SourceLang::Baml
    } else if ext == "md"@ {
        SourceLang::Markdown
    } else if ext == "toml"@ {
        SourceLang::Toml
    } else if ext == "yaml"@ || ext == "yml"@ {
        SourceLang::Yaml
    } else if ext == "json"@ {
        SourceLang::Json
    } else {
        SourceLang::Unknown
    }
}

/// A directory name the walk does not descend into.
pub open spec fn ignored_dir(name: Seq<char>) -> bool {
    ||| name == ".git"@
    ||| name == "node_modules"@
    ||| name == "target"@
    ||| name == "__pycache__"@
    ||| name == ".venv"@
    ||| name == "dist"@
}

/// A file name the walk skips.
pub open spec fn ignored_file(name: Seq<char>) -> bool {
    ||| name == ".DS_Store"@
    ||| name == "Cargo.lock"@
    ||| name == "uv.lock"@
    ||| name == "package-lock.json"@
    ||| name == "go.sum"@
}

/// The language of a (lower-cased) file extension.
pub fn lang_from_ext(ext: &str) -> (l: SourceLang)
    ensures
        l == lang_of_ext(ext@),
{
    if str_eq(ext, "py") {
        SourceLang::Python
    } else if str_eq(ext, "go") {
        SourceLang::Go
    } else if str_eq(ext, "sh") || str_eq(ext, "bash") {
        SourceLang::Shell
    } else if str_eq(ext, "nu") {
        SourceLang::Nushell
    } else if str_eq(ext, "rs") {
        SourceLang::Rust
    } else if str_eq(ext, "ts") || str_eq(ext, "tsx") {
        SourceLang::TypeScript
    } else if str_eq(ext, "baml") {
        SourceLang::Baml
    } else if str_eq(ext, "md") {
        SourceLang::Markdown
    } else if str_eq(ext, "toml") {
        SourceLang::Toml
    } else if str_eq(ext, "yaml") || str_eq(ext, "yml") {
        SourceLang::Yaml
    } else if str_eq(ext, "json") {
        SourceLang::Json
    } else {
        SourceLang::Unknown
    }
}

/// The walk does not descend into a directory of this name.
pub fn is_ignored_dir(name: &str) -> (r: bool)
    ensures
        r == ignored_dir(name@),
{
    str_eq(name, ".git") || str_eq(name, "node_modules") || str_eq(name, "target") || str_eq(
        name,
        "__pycache__",
    ) || str_eq(name, ".venv") || str_eq(name, "dist")
}

/// The walk skips a file of this name.
pub fn is_ignored_file(name: &str) -> (r: bool)
    ensures
        r == ignored_file(name@),
{
    str_eq(name, ".DS_Store") || str_eq(name, "Cargo.lock") || str_eq(name, "uv.lock") || str_eq(
        name,
        "package-lock.json",
    ) || str_eq(name, "go.sum")
}

/// The language of the file at `path`, by its lower-cased extension
/// (`Unknown` when it has none).
pub fn lang_of_path(path: &str) -> (l: SourceLang)
    ensures
        l == lang_of_ext(lowered_or_empty(extension_of(path@))),
{
    let ext = match path_extension(path) {
        Some(e) => to_lowercase(e.as_str()),
        None => String::new(),
    };
    lang_from_ext(ext.as_str())
}

/// The language of a file the walk yields, or `None` for a skipped file:
/// files named in the ignore list are skipped.
pub fn visit_file(name: &str, path: &str) -> (r: Option<SourceLang>)
    ensures
        ignored_file(name@) ==> r is None,
        !ignored_file(name@) ==> r == Some(lang_of_ext(lowered_or_empty(extension_of(path@)))),
{
    if is_ignored_file(name) {
        None
    } else {
        Some(lang_of_path(path))
    }
}

/// The language table read back: each language comes from exactly these
/// lower-cased extensions (py; go; sh, bash; nu; rs; ts, tsx; baml; md; toml;
/// yaml, yml; json), and any other extension, the empty one included, is
/// unknown.
pub proof fn law_extension_languages(ext: Seq<char>)
    ensures
        lang_of_ext(ext) == SourceLang::Python <==> ext == "py"@,
        lang_of_ext(ext) == SourceLang::Go <==> ext == "go"@,
        lang_of_ext(ext) == SourceLang::Shell <==> ext == "sh"@ || ext == "bash"@,
        lang_of_ext(ext) == SourceLang::Nushell <==> ext == "nu"@,
        lang_of_ext(ext) == SourceLang::Rust <==> ext == "rs"@,
        lang_of_ext(ext) == SourceLang::TypeScript <==> ext == "ts"@ || ext == "tsx"@,
        lang_of_ext(ext) == SourceLang::Baml <==> ext == "baml"@,
        lang_of_ext(ext) == SourceLang::Markdown <==> ext == "md"@,
        lang_of_ext(ext) == SourceLang::Toml <==> ext == "toml"@,
        lang_of_ext(ext) == SourceLang::Yaml <==> ext == "yaml"@ || ext == "yml"@,
        lang_of_ext(ext) == SourceLang::Json <==> ext == "json"@,
        ext.len() == 0 ==> lang_of_ext(ext) == SourceLang::Unknown,
{
    reveal_strlit("py");
    reveal_strlit("go");
    reveal_strlit("sh");
    reveal_strlit("bash");
    reveal_strlit("nu");
    reveal_strlit("rs");
    reveal_strlit("ts");
    reveal_strlit("tsx");
    reveal_strlit("baml");
    reveal_strlit("md");
    reveal_strlit("toml");
    reveal_strlit("yaml");
    reveal_strlit("yml");
    reveal_strlit("json");
    assert("go"@ != "py"@) by { assert("go"@[0] != "py"@[0]); }
    assert("sh"@ != "py"@) by { assert("sh"@[0] != "py"@[0]); }
    assert("sh"@ != "go"@) by { assert("sh"@[0] != "go"@[0]); }
    assert("bash"@ != "py"@) by { assert("bash"@.len() != "py"@.len()); }
    assert("bash"@ != "go"@) by { assert("bash"@.len() != "go"@.len()); }
    assert("bash"@ != "sh"@) by { assert("bash"@.len() != "sh"@.len()); }
    assert("nu"@ != "py"@) by { assert("nu"@[0] != "py"@[0]); }
    assert("nu"@ != "go"@) by { assert("nu"@[0] != "go"@[0]); }
    assert("nu"@ != "sh"@) by { assert("nu"@[0] != "sh"@[0]); }
    assert("nu"@ != "bash"@) by { assert("nu"@.len() != "bash"@.len()); }
    assert("rs"@ != "py"@) by { assert("rs"@[0] != "py"@[0]); }
    assert("rs"@ != "go"@) by { assert("rs"@[0] != "go"@[0]); }
    assert("rs"@ != "sh"@) by { assert("rs"@[0] != "sh"@[0]); }
    assert("rs"@ != "bash"@) by { assert("rs"@.len() != "bash"@.len()); }
    assert("rs"@ != "nu"@) by { assert("rs"@[0] != "nu"@[0]); }
    assert("ts"@ != "py"@) by { assert("ts"@[0] != "py"@[0]); }
    assert("ts"@ != "go"@) by { assert("ts"@[0] != "go"@[0]); }
    assert("ts"@ != "sh"@) by { assert("ts"@[0] != "sh"@[0]); }
    assert("ts"@ != "bash"@) by { assert("ts"@.len() != "bash"@.len()); }
    assert("ts"@ != "nu"@) by { assert("ts"@[0] != "nu"@[0]); }
    assert("ts"@ != "rs"@) by { assert("ts"@[0] != "rs"@[0]); }
    assert("tsx"@ != "py"@) by { assert("tsx"@.len() != "py"@.len()); }
    assert("tsx"@ != "go"@) by { assert("tsx"@.len() != "go"@.len()); }
    assert("tsx"@ != "sh"@) by { assert("tsx"@.len() != "sh"@.len()); }
    assert("tsx"@ != "bash"@) by { assert("tsx"@.len() != "bash"@.len()); }
    assert("tsx"@ != "nu"@) by { assert("tsx"@.len() != "nu"@.len()); }
    assert("tsx"@ != "rs"@) by { assert("tsx"@.len() != "rs"@.len()); }
    assert("tsx"@ != "ts"@) by { assert("tsx"@.len() != "ts"@.len()); }
    assert("baml"@ != "py"@) by { assert("baml"@.len() != "py"@.len()); }
    assert("baml"@ != "go"@) by { assert("baml"@.len() != "go"@.len()); }
    assert("baml"@ != "sh"@) by { assert("baml"@.len() != "sh"@.len()); }
    assert("baml"@ != "bash"@) by { assert("baml"@[2] != "bash"@[2]); }
    assert("baml"@ != "nu"@) by { assert("baml"@.len() != "nu"@.len()); }
    assert("baml"@ != "rs"@) by { assert("baml"@.len() != "rs"@.len()); }
    assert("baml"@ != "ts"@) by { assert("baml"@.len() != "ts"@.len()); }
    assert("baml"@ != "tsx"@) by { assert("baml"@.len() != "tsx"@.len()); }
    assert("md"@ != "py"@) by { assert("md"@[0] != "py"@[0]); }
    assert("md"@ != "go"@) by { assert("md"@[0] != "go"@[0]); }
    assert("md"@ != "sh"@) by { assert("md"@[0] != "sh"@[0]); }
    assert("md"@ != "bash"@) by { assert("md"@.len() != "bash"@.len()); }
    assert("md"@ != "nu"@) by { assert("md"@[0] != "nu"@[0]); }
    assert("md"@ != "rs"@) by { assert("md"@[0] != "rs"@[0]); }
    assert("md"@ != "ts"@) by { assert("md"@[0] != "ts"@[0]); }
    assert("md"@ != "tsx"@) by { assert("md"@.len() != "tsx"@.len()); }
    assert("md"@ != "baml"@) by { assert("md"@.len() != "baml"@.len()); }
    assert("toml"@ != "py"@) by { assert("toml"@.len() != "py"@.len()); }
    assert("toml"@ != "go"@) by { assert("toml"@.len() != "go"@.len()); }
    assert("toml"@ != "sh"@) by { assert("toml"@.len() != "sh"@.len()); }
    assert("toml"@ != "bash"@) by { assert("toml"@[0] != "bash"@[0]); }
    assert("toml"@ != "nu"@) by { assert("toml"@.len() != "nu"@.len()); }
    assert("toml"@ != "rs"@) by { assert("toml"@.len() != "rs"@.len()); }
    assert("toml"@ != "ts"@) by { assert("toml"@.len() != "ts"@.len()); }
    assert("toml"@ != "tsx"@) by { assert("toml"@.len() != "tsx"@.len()); }
    assert("toml"@ != "baml"@) by { assert("toml"@[0] != "baml"@[0]); }
    assert("toml"@ != "md"@) by { assert("toml"@.len() != "md"@.len()); }
    assert("yaml"@ != "py"@) by { assert("yaml"@.len() != "py"@.len()); }
    assert("yaml"@ != "go"@) by { assert("yaml"@.len() != "go"@.len()); }
    assert("yaml"@ != "sh"@) by { assert("yaml"@.len() != "sh"@.len()); }
    assert("yaml"@ != "bash"@) by { assert("yaml"@[0] != "bash"@[0]); }
    assert("yaml"@ != "nu"@) by { assert("yaml"@.len() != "nu"@.len()); }
    assert("yaml"@ != "rs"@) by { assert("yaml"@.len() != "rs"@.len()); }
    assert("yaml"@ != "ts"@) by { assert("yaml"@.len() != "ts"@.len()); }
    assert("yaml"@ != "tsx"@) by { assert("yaml"@.len() != "tsx"@.len()); }
    assert("yaml"@ != "baml"@) by { assert("yaml"@[0] != "baml"@[0]); }
    assert("yaml"@ != "md"@) by { assert("yaml"@.len() != "md"@.len()); }
    assert("yaml"@ != "toml"@) by { assert("yaml"@[0] != "toml"@[0]); }
    assert("yml"@ != "py"@) by { assert("yml"@.len() != "py"@.len()); }
    assert("yml"@ != "go"@) by { assert("yml"@.len() != "go"@.len()); }
    assert("yml"@ != "sh"@) by { assert("yml"@.len() != "sh"@.len()); }
    assert("yml"@ != "bash"@) by { assert("yml"@.len() != "bash"@.len()); }
    assert("yml"@ != "nu"@) by { assert("yml"@.len() != "nu"@.len()); }
    assert("yml"@ != "rs"@) by { assert("yml"@.len() != "rs"@.len()); }
    assert("yml"@ != "ts"@) by { assert("yml"@.len() != "ts"@.len()); }
    assert("yml"@ != "tsx"@) by { assert("yml"@[0] != "tsx"@[0]); }
    assert("yml"@ != "baml"@) by { assert("yml"@.len() != "baml"@.len()); }
    assert("yml"@ != "md"@) by { assert("yml"@.len() != "md"@.len()); }
    assert("yml"@ != "toml"@) by { assert("yml"@.len() != "toml"@.len()); }
    assert("yml"@ != "yaml"@) by { assert("yml"@.len() != "yaml"@.len()); }
    assert("json"@ != "py"@) by { assert("json"@.len() != "py"@.len()); }
    assert("json"@ != "go"@) by { assert("json"@.len() != "go"@.len()); }
    assert("json"@ != "sh"@) by { assert("json"@.len() != "sh"@.len()); }
    assert("json"@ != "bash"@) by { assert("json"@[0] != "bash"@[0]); }
    assert("json"@ != "nu"@) by { assert("json"@.len() != "nu"@.len()); }
    assert("json"@ != "rs"@) by { assert("json"@.len() != "rs"@.len()); }
    assert("json"@ != "ts"@) by { assert("json"@.len() != "ts"@.len()); }
    assert("json"@ != "tsx"@) by { assert("json"@.len() != "tsx"@.len()); }
    assert("json"@ != "baml"@) by { assert("json"@[0] != "baml"@[0]); }
    assert("json"@ != "md"@) by { assert("json"@.len() != "md"@.len()); }
    assert("json"@ != "toml"@) by { assert("json"@[0] != "toml"@[0]); }
    assert("json"@ != "yaml"@) by { assert("json"@[0] != "yaml"@[0]); }
    assert("json"@ != "yml"@) by { assert("json"@.len() != "yml"@.len()); }
}

/// The walk leaves out exactly the directories .git, node_modules, target,
/// __pycache__, .venv and dist, and the files .DS_Store, Cargo.lock,
/// uv.lock, package-lock.json and go.sum.
pub proof fn law_ignored_names(name: Seq<char>)
    ensures
        ignored_dir(name) <==> name == ".git"@ || name == "node_modules"@ || name == "target"@
            || name == "__pycache__"@ || name == ".venv"@ || name == "dist"@,
        ignored_file(name) <==> name == ".DS_Store"@ || name == "Cargo.lock"@ || name
            == "uv.lock"@ || name == "package-lock.json"@ || name == "go.sum"@,
{
}

} // verus!

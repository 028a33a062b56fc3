//! Path operations of `std::path`, on paths held as text.
//!
//! Each function here calls one method of `std::path::Path` on `Path::new(p)`.
//! What the method returns is given a name: `std` does not take pages to say
//! it, but it depends on component parsing (repeated separators, `.`
//! components, a leading root) that the library does not restate.

use vstd::prelude::*;

verus! {

/// What `Path::file_name` returns for the path with these characters.
pub uninterp spec fn file_name_of(p: Seq<char>) -> Option<Seq<char>>;

/// What `Path::file_stem` returns for the path with these characters.
pub uninterp spec fn file_stem_of(p: Seq<char>) -> Option<Seq<char>>;

/// What `Path::extension` returns for the path with these characters.
pub uninterp spec fn extension_of(p: Seq<char>) -> Option<Seq<char>>;

/// The components that `Path::components` yields for the path with these
/// characters, each as its text.
pub uninterp spec fn components_of(p: Seq<char>) -> Seq<Seq<char>>;

/// What `Path::join` returns for these two paths.
pub uninterp spec fn joined(base: Seq<char>, tail: Seq<char>) -> Seq<char>;

/// What `Path::strip_prefix` returns for this path and prefix (`None` for its error).
pub uninterp spec fn stripped(p: Seq<char>, prefix: Seq<char>) -> Option<Seq<char>>;

/// The view of an optional string.
pub open spec fn opt_view(o: Option<String>) -> Option<Seq<char>> {
    match o {
        Some(s) => Some(s@),
        None => None,
    }
}

/// Calls `Path::file_name`. Claimed: the result is `file_name_of` of `p`.
#[verifier::external_body]
pub(crate) fn path_file_name(p: &str) -> (r: Option<String>)
    ensures
        opt_view(r) == file_name_of(p@),
{
    std::path::Path::new(p).file_name().map(|n| n.to_string_lossy().into_owned())
}

/// Calls `Path::file_stem`. Claimed: the result is `file_stem_of` of `p`.
#[verifier::external_body]
pub(crate) fn path_file_stem(p: &str) -> (r: Option<String>)
    ensures
        opt_view(r) == file_stem_of(p@),
{
    std::path::Path::new(p).file_stem().map(|n| n.to_string_lossy().into_owned())
}

/// Calls `Path::extension`. Claimed: the result is `extension_of` of `p`.
#[verifier::external_body]
pub(crate) fn path_extension(p: &str) -> (r: Option<String>)
    ensures
        opt_view(r) == extension_of(p@),
{
    std::path::Path::new(p).extension().map(|n| n.to_string_lossy().into_owned())
}

/// Calls `Path::components`. Claimed: the texts of the components, in order,
/// are `components_of` of `p`.
#[verifier::external_body]
pub(crate) fn path_components(p: &str) -> (r: Vec<String>)
    ensures
        r@.map_values(|s: String| s@) == components_of(p@),
{
    std::path::Path::new(p).components().map(|c| c.as_os_str().to_string_lossy().into_owned()).collect()
}

/// Calls `Path::join`. Claimed: the result is `joined` of the two paths; as
/// `PathBuf::push` documents it for Unix, an absolute tail (one that starts
/// with `/`) replaces the base, and a relative tail is appended to a base that
/// does not end in `/` with one `/` between them. What the method gives for
/// an empty base, or one that ends in `/`, is left to the name.
#[verifier::external_body]
pub(crate) fn path_join(base: &str, tail: &str) -> (r: String)
    ensures
        r@ == joined(base@, tail@),
        tail@.len() > 0 && tail@[0] == '/' ==> r@ == tail@,
        !(tail@.len() > 0 && tail@[0] == '/') && base@.len() > 0 && base@.last() != '/' ==> r@
            == base@.push('/') + tail@,
{
    std::path::Path::new(base).join(tail).to_string_lossy().into_owned()
}

/// Calls `Path::strip_prefix`. Claimed: the result is `stripped` of the path
/// and the prefix, `None` where the method returns its error.
#[verifier::external_body]
pub(crate) fn path_strip_prefix(p: &str, prefix: &str) -> (r: Option<String>)
    ensures
        opt_view(r) == stripped(p@, prefix@),
{
    std::path::Path::new(p).strip_prefix(prefix).ok().map(|q| q.to_string_lossy().into_owned())
}

} // verus!

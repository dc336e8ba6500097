//! What `std::path` makes of a path given as text.
//!
//! The library holds paths as `String`s. How a path falls into components is
//! left to `std::path::Path`, which parses as the platform does that the
//! program is built for; its answers are named here and the rest of the
//! library reasons over those names.

use vstd::prelude::*;

verus! {

/// The final component of `path` as `Path::file_name` gives it, if there is one.
pub uninterp spec fn file_name_of(path: Seq<char>) -> Option<Seq<char>>;

/// Where the last dot of `name` stands, or -1 where it holds none.
pub open spec fn last_dot(name: Seq<char>) -> int
    decreases name.len(),
{
    if name.len() == 0 {
        -1
    } else if name.last() == '.' {
        name.len() - 1
    } else {
        last_dot(name.drop_last())
    }
}

/// The extension of `path`, if there is one: none where the path has no file
/// name, none where the file name holds no dot, none where its only dot is
/// its first character; else what follows the last dot of the file name.
pub open spec fn extension_of(path: Seq<char>) -> Option<Seq<char>> {
    match file_name_of(path) {
        Some(name) => if last_dot(name) > 0 {
            Some(name.subrange(last_dot(name) + 1, name.len() as int))
        } else {
            None
        },
        None => None,
    }
}

/// The path without its final component as `Path::parent` gives it, if there is one.
pub uninterp spec fn parent_of(path: Seq<char>) -> Option<Seq<char>>;

/// Calls `Path::file_name` on `path`. The result is [`file_name_of`] of the
/// path's text: `None` where the path ends in `..` or is a root.
#[verifier::external_body]
pub(crate) fn path_file_name(path: &str) -> (name: Option<String>)
    ensures
        name is Some == file_name_of(path@) is Some,
        name matches Some(n) ==> file_name_of(path@) == Some(n@),
{
    std::path::Path::new(path).file_name().and_then(|n| n.to_str()).map(|n| n.to_string())
}

/// Calls `Path::extension` on `path`. The result is [`extension_of`] of the
/// path's text, as std documents it over the file name: what follows the last
/// dot of the file name, where the name has a dot beyond its first character.
#[verifier::external_body]
pub(crate) fn path_extension(path: &str) -> (ext: Option<String>)
    ensures
        ext is Some == extension_of(path@) is Some,
        ext matches Some(e) ==> extension_of(path@) == Some(e@),
{
    std::path::Path::new(path).extension().and_then(|e| e.to_str()).map(|e| e.to_string())
}

/// Calls `Path::parent` on `path`. The result is [`parent_of`] of the path's
/// text: `None` where the path is a root or empty.
#[verifier::external_body]
pub(crate) fn path_parent(path: &str) -> (parent: Option<String>)
    ensures
        parent is Some == parent_of(path@) is Some,
        parent matches Some(p) ==> parent_of(path@) == Some(p@),
{
    std::path::Path::new(path).parent().and_then(|p| p.to_str()).map(|p| p.to_string())
}

/// `base` with `part` joined to it as `Path::join` does.
pub uninterp spec fn joined_path(base: Seq<char>, part: Seq<char>) -> Seq<char>;

/// Calls `Path::join` on `base` with `part`. The result is [`joined_path`] of
/// the two texts: `part` alone where it is absolute, else `base`, a separator
/// where `base` does not end in one, and `part`.
#[verifier::external_body]
pub(crate) fn path_join(base: &str, part: &str) -> (joined: String)
    ensures
        joined@ == joined_path(base@, part@),
{
    std::path::Path::new(base).join(part).to_string_lossy().into_owned()
}

} // verus!

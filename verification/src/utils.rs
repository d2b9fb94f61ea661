//! File names and positions: stripping the bundler's prefix, rewriting a
//! path relative to the project root, and resolving a byte offset.

use vstd::prelude::*;
use vstd::string::*;
use crate::ast::BytePos;
use crate::source_map::{resolve_position, SourceMap};
use crate::text::starts_with;

verus! {

/// What `pathdiff::diff_paths(path, base)` returns, as text: the path that
/// leads from `base` to `path`, or nothing where there is no such path.
pub uninterp spec fn relative_path(path: Seq<char>, base: Seq<char>) -> Option<Seq<char>>;

/// The view of an optional text.
pub open spec fn text_view(text: Option<String>) -> Option<Seq<char>> {
    match text {
        Some(s) => Some(s@),
        None => None,
    }
}

/// The relative path where there is one, else the path as it was given.
pub open spec fn relativized(file_path: Seq<char>, diffed: Option<Seq<char>>) -> Seq<char> {
    match diffed {
        Some(p) => p,
        None => file_path,
    }
}

/// The name without the bundler's prefix `[project]/`, where it has one.
pub open spec fn without_project_prefix(name: Seq<char>) -> Seq<char> {
    if "[project]/"@.is_prefix_of(name) {
        name.subrange("[project]/"@.len() as int, name.len() as int)
    } else {
        name
    }
}

/// The name under which a file is reported: the raw name without the
/// bundler's prefix, rewritten relative to the project root where one is
/// configured.
pub open spec fn canonical_file_name(raw: Seq<char>, project_cwd: Option<Seq<char>>) -> Seq<char> {
    let name = without_project_prefix(raw);
    match project_cwd {
        Some(root) => relativized(name, relative_path(name, root)),
        None => name,
    }
}

/// Calls `pathdiff::diff_paths(path, base)` and turns the path it returns
/// into text with `to_string_lossy`. Trusted: the result is the one that
/// `relative_path` names for these two texts, on the platform the library is
/// built for.
#[verifier::external_body]
fn diff_paths_lossy(path: &str, base: &str) -> (diffed: Option<String>)
    ensures
        text_view(diffed) == relative_path(path@, base@),
{
    match pathdiff::diff_paths(path, base) {
        Some(p) => Some(p.to_string_lossy().into_owned()),
        None => None,
    }
}

/// Picks the relative path where there is one, else the path as given.
pub fn relative_or_given(file_path: &str, diffed: Option<String>) -> (path: String)
    ensures
        path@ == relativized(file_path@, text_view(diffed)),
{
    match diffed {
        Some(p) => p,
        None => String::from_str(file_path),
    }
}

/// Rewrites `file_path` relative to `project_cwd`. Where no relative path
/// exists the path comes back unchanged.
pub fn assert_file_absolute_path(file_path: &str, project_cwd: String) -> (path: String)
    ensures
        path@ == relativized(file_path@, relative_path(file_path@, project_cwd@)),
{
    let diffed = diff_paths_lossy(file_path, project_cwd.as_str());
    relative_or_given(file_path, diffed)
}

/// Strips the bundler's prefix `[project]/` from the front of `name`.
pub fn strip_project_prefix(name: &str) -> (stripped: String)
    ensures
        stripped@ == without_project_prefix(name@),
{
    if starts_with(name, "[project]/") {
        let from: usize = "[project]/".unicode_len();
        let to: usize = name.unicode_len();
        String::from_str(name.substring_char(from, to))
    } else {
        String::from_str(name)
    }
}

/// The name under which the file `raw` is reported.
pub fn resolve_file_name(raw: &str, project_cwd: Option<String>) -> (name: String)
    ensures
        name@ == canonical_file_name(raw@, text_view(project_cwd)),
{
    let stripped = strip_project_prefix(raw);
    match project_cwd {
        Some(root) => assert_file_absolute_path(stripped.as_str(), root),
        None => stripped,
    }
}

/// The 1-based line and column of `pos` and the name of its file, or nothing
/// where the table has no usable position for `pos`.
pub fn get_file_info(project_cwd: Option<String>, source_map: &SourceMap, pos: BytePos) -> (info:
    Option<(u32, u32, String)>)
    ensures
        match info {
            Some((line, col, file_name)) => {
                &&& resolve_position(source_map@.locs, pos) == Some((line, col))
                &&& file_name@ == canonical_file_name(
                    source_map@.file_name,
                    text_view(project_cwd),
                )
            },
            None => resolve_position(source_map@.locs, pos) is None,
        },
{
    match source_map.resolve(pos) {
        Some((line, col)) => {
            let file_name = resolve_file_name(source_map.file_name(), project_cwd);
            Some((line, col, file_name))
        },
        None => None,
    }
}

} // verus!

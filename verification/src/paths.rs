//! File paths as the configuration writes them: text with `/` between the parts.

use vstd::prelude::*;
use crate::text::same_text;

verus! {

/// A path is absolute when it starts at the root.
pub open spec fn is_absolute(path: Seq<char>) -> bool {
    path.len() > 0 && path[0] == '/'
}

/// `path` seen from `base`: an absolute `path` stands for itself, any other is
/// appended to `base`, with one `/` between them unless `base` is empty or
/// already ends in one.
pub open spec fn joined(base: Seq<char>, path: Seq<char>) -> Seq<char> {
    if is_absolute(path) {
        path
    } else if base.len() == 0 || base.last() == '/' {
        base + path
    } else {
        base + seq!['/'] + path
    }
}

/// What a path option stands for: the keyword `default` and the empty text
/// both mean the option's default file, looked up from the working directory;
/// any other value is itself a path, looked up from the working directory.
pub open spec fn file_path(path: Seq<char>, work_dir: Seq<char>, default: Seq<char>) -> Seq<char> {
    if path == "default"@ || path.len() == 0 {
        joined(work_dir, default)
    } else {
        joined(work_dir, path)
    }
}

/// The table of path options. Below a working directory that is not empty
/// and does not end in `/`: the keyword `default` and the empty text give
/// the working directory, a `/` and the option's default; a relative path
/// gives the working directory, a `/` and the path; an absolute path gives
/// itself.
pub proof fn lemma_file_path_table(path: Seq<char>, work_dir: Seq<char>, default: Seq<char>)
    requires
        work_dir.len() > 0,
        work_dir.last() != '/',
        !is_absolute(default),
    ensures
        path == "default"@ || path.len() == 0 ==> file_path(path, work_dir, default) == work_dir
            + seq!['/'] + default,
        path != "default"@ && path.len() > 0 && !is_absolute(path) ==> file_path(
            path,
            work_dir,
            default,
        ) == work_dir + seq!['/'] + path,
        is_absolute(path) ==> file_path(path, work_dir, default) == path,
{
    reveal_strlit("default");
    assert("default"@.len() == 7 && "default"@[0] == 'd');
}

/// Whether `path` starts at the root.
pub fn path_is_absolute(path: &str) -> (absolute: bool)
    ensures
        absolute == is_absolute(path@),
{
    !path.is_empty() && path.get_char(0) == '/'
}

/// `path` seen from `base`.
pub fn path_join(base: &str, path: &str) -> (whole: String)
    ensures
        whole@ == joined(base@, path@),
{
    if path_is_absolute(path) {
        return path.to_owned();
    }
    let n: usize = base.unicode_len();
    let mut whole = base.to_owned();
    if n > 0 && base.get_char(n - 1) != '/' {
        proof {
            reveal_strlit("/");
        }
        whole.append("/");
        assert(whole@ =~= base@ + seq!['/']);
    }
    whole.append(path);
    whole
}

/// Expands a path option of the configuration.
///
/// `option` names the option for the caller's own messages and has no part in
/// the result. The keyword `default` gives `default` below `work_dir`, and so
/// does the empty text; a relative path is taken below `work_dir`; an absolute
/// path is returned as it is.
pub fn config_get_file_path(
    option: &str,
    path: &str,
    work_dir: &str,
    default: &str,
) -> (expanded: String)
    ensures
        expanded@ == file_path(path@, work_dir@, default@),
{
    if same_text(path, "default") || path.is_empty() {
        path_join(work_dir, default)
    } else {
        path_join(work_dir, path)
    }
}

} // verus!

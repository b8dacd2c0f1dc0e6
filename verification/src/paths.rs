use vstd::prelude::*;

use crate::text::{is_blank, is_blank_str};

verus! {

/// The view of an optional borrowed string.
pub open spec fn opt_str_view(s: Option<&str>) -> Option<Seq<char>> {
    match s {
        Some(v) => Some(v@),
        None => None,
    }
}

/// The view of an optional owned string.
pub open spec fn opt_string_view(s: Option<String>) -> Option<Seq<char>> {
    match s {
        Some(v) => Some(v@),
        None => None,
    }
}

/// A path is treated as absolute when it starts with a slash, in the POSIX
/// style.
pub open spec fn spec_is_absolute(s: Seq<char>) -> bool {
    s.len() > 0 && s[0] == '/'
}

/// `base` and `rel` joined with a single slash.
pub open spec fn spec_join(base: Seq<char>, rel: Seq<char>) -> Seq<char> {
    base + seq!['/'] + rel
}

/// An absolute path stays as it is; a relative one is joined onto the current
/// directory, or kept unchanged when no current directory is known.
pub open spec fn spec_to_absolute(path: Seq<char>, cwd: Option<Seq<char>>) -> Seq<char> {
    if spec_is_absolute(path) {
        path
    } else {
        match cwd {
            Some(dir) => spec_join(dir, path),
            None => path,
        }
    }
}

/// Whether `path` is absolute in the POSIX style.
pub fn is_absolute_path(path: &str) -> (r: bool)
    ensures
        r == spec_is_absolute(path@),
{
    if path.unicode_len() == 0 {
        false
    } else {
        path.get_char(0) == '/'
    }
}

/// Resolves `path` against the given current directory: an absolute path is
/// returned unchanged, a relative one is joined onto the directory when one is
/// known.
pub fn to_absolute_path(path: &str, current_dir: Option<&str>) -> (r: String)
    ensures
        r@ == spec_to_absolute(path@, opt_str_view(current_dir)),
{
    if is_absolute_path(path) {
        path.to_owned()
    } else {
        match current_dir {
            Some(dir) => {
                let mut out = dir.to_owned();
                out.append("/");
                out.append(path);
                proof {
                    reveal_strlit("/");
                    assert(out@ =~= spec_join(dir@, path@));
                }
                out
            },
            None => path.to_owned(),
        }
    }
}

/// The value an environment variable contributes: the value itself when it is
/// present and not blank, the default otherwise.
pub open spec fn spec_env_choice(value: Option<Seq<char>>, default: Seq<char>) -> Seq<char> {
    match value {
        Some(v) => if !is_blank(v) {
            v
        } else {
            default
        },
        None => default,
    }
}

/// Picks an environment value over a default, treating a blank value as
/// absent.
pub fn env_value_or(value: Option<String>, default: &str) -> (r: String)
    ensures
        r@ == spec_env_choice(opt_string_view(value), default@),
{
    match value {
        Some(v) => {
            if !is_blank_str(v.as_str()) {
                v
            } else {
                default.to_owned()
            }
        },
        None => default.to_owned(),
    }
}

/// The worker executable to use: the given environment value when present and
/// not blank, the built-in default otherwise, resolved to an absolute path.
pub fn get_python_executable(env_value: Option<String>, current_dir: Option<&str>) -> (r: String)
    ensures
        r@ == spec_to_absolute(
            spec_env_choice(
                opt_string_view(env_value),
                "D:/IDEA/anaconda3/envs/py310/python.exe"@,
            ),
            opt_str_view(current_dir),
        ),
{
    let chosen = env_value_or(env_value, "D:/IDEA/anaconda3/envs/py310/python.exe");
    to_absolute_path(chosen.as_str(), current_dir)
}

/// The model file to load, resolved like `get_python_executable`.
pub fn get_model_path(env_value: Option<String>, current_dir: Option<&str>) -> (r: String)
    ensures
        r@ == spec_to_absolute(
            spec_env_choice(opt_string_view(env_value), "resources/model/result_improved.pth"@),
            opt_str_view(current_dir),
        ),
{
    let chosen = env_value_or(env_value, "resources/model/result_improved.pth");
    to_absolute_path(chosen.as_str(), current_dir)
}

/// The worker script to run, resolved like `get_python_executable`.
pub fn get_script_path(env_value: Option<String>, current_dir: Option<&str>) -> (r: String)
    ensures
        r@ == spec_to_absolute(
            spec_env_choice(opt_string_view(env_value), "resources/python/inference.py"@),
            opt_str_view(current_dir),
        ),
{
    let chosen = env_value_or(env_value, "resources/python/inference.py");
    to_absolute_path(chosen.as_str(), current_dir)
}

} // verus!

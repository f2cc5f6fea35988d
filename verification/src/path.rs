//! Resolving an operand against the base directory.
//!
//! Whether a path is absolute, and how two paths are joined, is the
//! platform's convention; both are left to `std::path`. The join is textual:
//! no `.` or `..` is folded and no link is followed.

use std::path::Path;
use std::path::PathBuf;
use vstd::prelude::*;
use vstd::string::StringExecFns;

verus! {

/// Whether `std::path::Path::is_absolute` holds of the path with this text.
/// The answer is fixed by the platform the library is built for.
pub uninterp spec fn is_absolute_path(path: Seq<char>) -> bool;

/// The text of the path that `std::path::PathBuf::push` leaves when `path`
/// is pushed onto `base`. Fixed by the platform, as above.
pub uninterp spec fn joined_path(base: Seq<char>, path: Seq<char>) -> Seq<char>;

/// Calls `Path::is_absolute` on `path`. Trusted: the result is, by
/// definition, what `is_absolute_path` names.
#[verifier::external_body]
fn path_is_absolute(path: &str) -> (absolute: bool)
    ensures
        absolute == is_absolute_path(path@),
{
    Path::new(path).is_absolute()
}

/// Calls `PathBuf::push` with `path` on a buffer that holds `base`, and hands
/// back the buffer's text. Trusted: the result is, by definition, what
/// `joined_path` names. Both inputs are valid UTF-8, and so is what `push`
/// makes of them, so the conversion back to a string loses nothing.
#[verifier::external_body]
fn path_join(base: &str, path: &str) -> (joined: String)
    ensures
        joined@ == joined_path(base@, path@),
{
    let mut full = PathBuf::from(base);
    full.push(path);
    full.to_string_lossy().to_string()
}

/// The resolved path of an operand: itself where it is absolute, else its
/// join with the base directory.
pub open spec fn resolved(file_path: Seq<char>, pwd: Seq<char>) -> Seq<char> {
    if is_absolute_path(file_path) {
        file_path
    } else {
        joined_path(pwd, file_path)
    }
}

/// The base directory: the working directory where one is known, else `.`.
pub fn base_directory(pwd: Option<String>) -> (base: String)
    ensures
        base@ == match pwd {
            Some(dir) => dir@,
            None => "."@,
        },
{
    match pwd {
        Some(dir) => dir,
        None => String::from_str("."),
    }
}

/// Resolves an operand once it is known whether it is absolute: an absolute
/// one is returned as it stands, whatever the base directory; any other is
/// joined to the base directory.
pub fn resolve_known(file_path: &str, pwd: &str, absolute: bool) -> (full: String)
    ensures
        absolute ==> full@ == file_path@,
        !absolute ==> full@ == joined_path(pwd@, file_path@),
{
    if absolute {
        String::from_str(file_path)
    } else {
        path_join(pwd, file_path)
    }
}

/// Resolves an operand against the base directory `pwd`.
pub fn resolve_path(file_path: &str, pwd: &str) -> (full: String)
    ensures
        full@ == resolved(file_path@, pwd@),
        is_absolute_path(file_path@) ==> full@ == file_path@,
        !is_absolute_path(file_path@) ==> full@ == joined_path(pwd@, file_path@),
{
    let absolute = path_is_absolute(file_path);
    resolve_known(file_path, pwd, absolute)
}

} // verus!

use vstd::prelude::*;

use crate::paths::names_only_path;

verus! {

/// The marker file, `bootstrap.json`, that an installed bootstrap leaves in
/// its cache root: the executable a cached payload hands a launch back to.
#[derive(Debug)]
pub struct BootstrapMarker {
    pub executable: String,
}

/// `std::path::Path::new(base).join(name)`, as text (`to_string_lossy`).
/// Which separator it inserts, and how it treats a rooted or prefixed
/// `name`, depends on the platform; nothing of the result is claimed.
#[verifier::external_body]
fn path_join(base: &str, name: &str) -> (r: String) {
    std::path::Path::new(base).join(name).to_string_lossy().into_owned()
}

/// `std::path::Path::new(path).starts_with(base)`, which compares whole
/// components. Claimed only for two paths of plain names joined by single
/// `/`, which split the same way on every platform: `path` starts with
/// `base` exactly when it is `base` or continues it after a `/`.
#[verifier::external_body]
fn path_starts_with(path: &str, base: &str) -> (r: bool)
    ensures
        crate::paths::plain_relative_path(path@) && crate::paths::plain_relative_path(base@) ==> r
            == (path@ == base@ || (path@.len() > base@.len() && path@.take(base@.len() as int)
            == base@ && path@[base@.len() as int] == '/')),
{
    std::path::Path::new(path).starts_with(base)
}

/// `std::path::Path::new(path).is_absolute()`. Which paths are absolute
/// depends on the platform (on Windows a drive or server is needed);
/// claimed is only that an empty path and a `names_only_path` are not.
#[verifier::external_body]
fn path_is_absolute(path: &str) -> (r: bool)
    ensures
        path@.len() == 0 || names_only_path(path@) ==> !r,
{
    std::path::Path::new(path).is_absolute()
}

/// Whether a marker found in `ancestor`, naming `executable`, applies to the
/// payload at `payload`: the payload lies in the ancestor's `versions`
/// directory, the executable path is absolute, and `executable_is_file`
/// (whether a file stands there). The path tests follow the platform's path
/// syntax; a missing file, an empty executable path and a relative path of
/// plain names never apply.
pub fn marker_applies(payload: &str, ancestor: &str, executable: &str, executable_is_file: bool) -> (r:
    bool)
    ensures
        r ==> executable_is_file,
        r ==> executable@.len() > 0 && !names_only_path(executable@),
{
    let versions = path_join(ancestor, "versions");
    path_starts_with(payload, versions.as_str()) && path_is_absolute(executable)
        && executable_is_file
}

} // verus!

use vstd::prelude::*;

verus! {

/// The kind of one component of a file system path, as `std::path` splits it.
#[derive(Debug, Clone, Copy, PartialEq, Eq, Structural)]
pub enum PathPart {
    Prefix,
    RootDir,
    CurDir,
    ParentDir,
    Normal,
}

/// `s` has a `.` segment: a dot bounded on each side by `/` or an end.
pub open spec fn has_dot_segment(s: Seq<char>) -> bool {
    exists|i: int|
        0 <= i < s.len() && #[trigger] s[i] == '.' && (i == 0 || s[i - 1] == '/') && (i + 1
            == s.len() || s[i + 1] == '/')
}

/// `s` has a `..` segment: two dots bounded on each side by `/` or an end.
pub open spec fn has_parent_segment(s: Seq<char>) -> bool {
    exists|i: int|
        0 <= i && i + 2 <= s.len() && #[trigger] s[i] == '.' && s[i + 1] == '.' && (i == 0 || s[i
            - 1] == '/') && (i + 2 == s.len() || s[i + 2] == '/')
}

/// Plain file names joined by single `/` separators, which every platform's
/// path syntax reads as that many plain components: non-empty, no leading,
/// trailing or doubled `/`, no `\` or `:`, and no name that is `.` or `..`.
pub open spec fn plain_relative_path(s: Seq<char>) -> bool {
    &&& s.len() > 0
    &&& s[0] != '/'
    &&& s[s.len() - 1] != '/'
    &&& forall|i: int| 0 <= i < s.len() - 1 && #[trigger] s[i] == '/' ==> s[i + 1] != '/'
    &&& !s.contains('\\')
    &&& !s.contains(':')
    &&& !has_dot_segment(s)
    &&& !has_parent_segment(s)
}

/// A relative path that every platform splits into plain names only:
/// non-empty, no leading `/`, no `\\` or `:`, no `..` segment, and neither
/// `.` nor starting with `./`. Separators may repeat, and a trailing `/` and
/// inner `.` segments may stand: `Path::components` drops them.
pub open spec fn names_only_path(s: Seq<char>) -> bool {
    &&& s.len() > 0
    &&& s[0] != '/'
    &&& !s.contains('\\')
    &&& !s.contains(':')
    &&& !has_parent_segment(s)
    &&& !starts_at_current_dir(s)
}

/// The number of `/` separators in `s`.
pub open spec fn separator_count(s: Seq<char>) -> nat {
    s.filter(|c: char| c == '/').len()
}

/// `s` starts at the current directory: it is `.` or begins with `./`.
pub open spec fn starts_at_current_dir(s: Seq<char>) -> bool {
    s == seq!['.'] || (s.len() >= 2 && s[0] == '.' && s[1] == '/')
}

/// A path that leaves the directory it is joined to on every platform: empty,
/// absolute (a leading `/`), or going up through a `..` segment.
pub open spec fn escapes(s: Seq<char>) -> bool {
    s.len() == 0 || s[0] == '/' || has_parent_segment(s)
}

/// A path that every platform's path syntax refuses as an entrypoint: it
/// escapes, or it starts with a `.` component.
pub open spec fn refused_everywhere(s: Seq<char>) -> bool {
    escapes(s) || starts_at_current_dir(s)
}

/// Splits `path` with `std::path::Path::components` and keeps the kind of each
/// component. How a path splits depends on the platform the program is built
/// for (separators, drive prefixes, verbatim paths); claimed is only what the
/// `Path` and `Component` documentation gives on every platform: an empty
/// path has no components; plain names joined by single `/` are that many
/// `Normal` components; a `names_only_path` (where separators repeat, a
/// trailing `/` or an inner `.` stands, which the documentation says are
/// dropped) is one or more `Normal` components; a leading `/` starts the path with a root (or, on
/// Windows, a `//server` prefix); a path that is `.` or begins with `./`
/// starts with `CurDir`; and a `..` segment is a `ParentDir` component (or,
/// on Windows, sits behind a prefix). Which components the other paths give
/// is left unsaid.
#[verifier::external_body]
pub(crate) fn path_parts(path: &str) -> (parts: Vec<PathPart>)
    ensures
        path@.len() == 0 ==> parts@.len() == 0,
        plain_relative_path(path@) ==> parts@.len() == separator_count(path@) + 1 && forall|i: int|
            0 <= i < parts@.len() ==> #[trigger] parts@[i] == PathPart::Normal,
        names_only_path(path@) ==> parts@.len() > 0 && forall|i: int|
            0 <= i < parts@.len() ==> #[trigger] parts@[i] == PathPart::Normal,
        path@.len() > 0 && path@[0] == '/' ==> parts@.len() > 0 && parts@[0] != PathPart::Normal,
        starts_at_current_dir(path@) ==> parts@.len() > 0 && parts@[0] == PathPart::CurDir,
        has_parent_segment(path@) ==> exists|i: int|
            0 <= i < parts@.len() && #[trigger] parts@[i] != PathPart::Normal,
{
    let mut parts = Vec::new();
    for component in std::path::Path::new(path).components() {
        parts.push(
            match component {
                std::path::Component::Prefix(_) => PathPart::Prefix,
                std::path::Component::RootDir => PathPart::RootDir,
                std::path::Component::CurDir => PathPart::CurDir,
                std::path::Component::ParentDir => PathPart::ParentDir,
                std::path::Component::Normal(_) => PathPart::Normal,
            },
        );
    }
    parts
}

/// `s` leaves the directory it names from its first component on every
/// platform: it starts with `/`, or it is `..` or starts with `../`.
pub open spec fn leaves_at_start(s: Seq<char>) -> bool {
    ||| s.len() > 0 && s[0] == '/'
    ||| s == seq!['.', '.']
    ||| s.len() > 2 && s[0] == '.' && s[1] == '.' && s[2] == '/'
}

/// Compares `std::path::Path::new(a)` with `std::path::Path::new(b)`, which
/// compares their components. How a path splits depends on the platform;
/// claimed is only what holds on every platform: equal texts are equal paths,
/// and two `plain_relative_path` texts that differ are different paths (each
/// splits into its `/`-separated names). Other pairs are left unsaid.
#[verifier::external_body]
pub(crate) fn same_path(a: &str, b: &str) -> (r: bool)
    ensures
        a@ == b@ ==> r,
        plain_relative_path(a@) && plain_relative_path(b@) && a@ != b@ ==> !r,
{
    std::path::Path::new(a) == std::path::Path::new(b)
}

/// A path made of at least one component, each of them a plain name: no
/// root, drive, `.` or `..`.
pub open spec fn only_plain_names(parts: Seq<PathPart>) -> bool {
    &&& parts.len() > 0
    &&& forall|i: int| 0 <= i < parts.len() ==> #[trigger] parts[i] == PathPart::Normal
}

/// Whether the split path is a non-empty relative path of plain names.
pub fn components_are_safe(parts: &Vec<PathPart>) -> (r: bool)
    ensures
        r == only_plain_names(parts@),
{
    let mut i: usize = 0;
    while i < parts.len()
        invariant
            i <= parts.len(),
            forall|j: int| 0 <= j < i ==> #[trigger] parts@[j] == PathPart::Normal,
        decreases parts.len() - i,
    {
        if parts[i] != PathPart::Normal {
            return false;
        }
        i = i + 1;
    }
    parts.len() > 0
}

/// Whether `path` is a non-empty relative path that stays below the directory
/// it is joined to: the platform splits it into plain names only. Paths of
/// plain names (`a/b`, also `a//b`, `a/./b` or `a/`) are accepted, and
/// escaping paths and paths starting with `.` refused, on every platform;
/// for other paths (such as `a\b` or `C:a`) the verdict rests on the
/// platform's path syntax.
pub fn is_safe_relative_path(path: &str) -> (r: bool)
    ensures
        names_only_path(path@) ==> r,
        refused_everywhere(path@) ==> !r,
{
    let parts = path_parts(path);
    proof {
        if has_parent_segment(path@) {
            let i = choose|i: int| 0 <= i < parts@.len() && #[trigger] parts@[i] != PathPart::Normal;
            assert(parts@[i] != PathPart::Normal);
        }
    }
    components_are_safe(&parts)
}

} // verus!

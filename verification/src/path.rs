//! Field paths: `a.b.c` as the names `a`, `b`, `c`.

use vstd::prelude::*;

verus! {

/// A field path, outermost name first.
pub type StaticPath = Vec<String>;

/// The names of a path, each as a sequence of characters.
pub open spec fn path_view(path: Seq<String>) -> Seq<Seq<char>> {
    path.map_values(|name: String| name@)
}

/// A path names at least one field, and no name in it is empty.
pub open spec fn valid_path(path: Seq<Seq<char>>) -> bool {
    &&& path.len() > 0
    &&& forall|i: int| 0 <= i < path.len() ==> (#[trigger] path[i]).len() > 0
}

/// The names of a path given as string slices.
pub open spec fn names_view(names: Seq<&str>) -> Seq<Seq<char>> {
    names.map_values(|name: &str| name@)
}

/// Copies the names of a path into owned strings.
pub(crate) fn owned_path(names: Vec<&str>) -> (path: StaticPath)
    ensures
        path_view(path@) == names_view(names@),
{
    let mut path: StaticPath = Vec::new();
    for name in it: names.into_iter()
        invariant
            it.seq() == names@,
            path@.len() == it.index(),
            forall|i: int| 0 <= i < path@.len() ==> (#[trigger] path@[i])@ == names@[i]@,
    {
        path.push(name.to_owned());
    }
    assert(path_view(path@) =~= names_view(names@));
    path
}

} // verus!

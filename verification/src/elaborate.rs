//! Path elaboration: from a field path and a content to a single top-level
//! name and the content nested under the rest of the path.
//!
//! `a.b.c = v` becomes the name `a` and the content `{ b = { c = v } }`.

use crate::content::{ContentView, FieldContent};
use crate::mergeable::{lemma_single_field_mergeable, mergeable_content};
use crate::nickel::{core_field, ident, placeholder_ident, record_of_one, single_field_record, to_core_field};
use crate::path::{path_view, valid_path, StaticPath};
use vstd::prelude::*;

verus! {

/// The content whose value is the record of the single field `key`, defined
/// as `inner`. The wrapping content itself carries no metadata.
pub open spec fn wrap(key: Seq<char>, inner: ContentView) -> ContentView {
    ContentView::of_term(single_field_record(placeholder_ident(key), core_field(inner)))
}

/// `leaf` nested under `keys`: `wrap(keys[0], wrap(keys[1], .. wrap(keys[n-1], leaf)))`.
pub open spec fn nest(keys: Seq<Seq<char>>, leaf: ContentView) -> ContentView
    decreases keys.len(),
{
    if keys.len() == 0 {
        leaf
    } else {
        wrap(keys.first(), nest(keys.drop_first(), leaf))
    }
}

/// What a path and a content elaborate to: the first name of the path, and
/// the content nested under the names that follow it.
pub open spec fn elaborated(path: Seq<Seq<char>>, content: ContentView) -> (Seq<char>, ContentView) {
    (path.first(), nest(path.drop_first(), content))
}

/// A path of one name elaborates to that name and the content as it is.
pub proof fn lemma_elaborate_single(path: Seq<Seq<char>>, content: ContentView)
    requires
        path.len() == 1,
    ensures
        elaborated(path, content) == (path[0], content),
{
    assert(path.drop_first() =~= Seq::empty());
}

/// A path of `n >= 2` names elaborates to its first name and the content
/// nested `n - 1` deep: for each `i` from `1` to `n - 1`, what lies under
/// the names before `path[i]` is the record of the single field `path[i]`,
/// and what lies under the last name is the content as it is.
pub proof fn lemma_elaborate_nested(path: Seq<Seq<char>>, content: ContentView)
    requires
        path.len() >= 2,
    ensures
        elaborated(path, content) == (path[0], nest(path.skip(1), content)),
        forall|i: int|
            1 <= i < path.len() ==> #[trigger] nest(path.skip(i), content) == wrap(
                path[i],
                nest(path.skip(i + 1), content),
            ),
        nest(path.skip(path.len() as int), content) == content,
{
    assert(path.drop_first() =~= path.skip(1));
    assert forall|i: int| 1 <= i < path.len() implies #[trigger] nest(path.skip(i), content)
        == wrap(path[i], nest(path.skip(i + 1), content)) by {
        assert(path.skip(i).first() == path[i]);
        assert(path.skip(i).drop_first() =~= path.skip(i + 1));
    }
}

/// Nesting under `keys` is wrapping the content in the last key and nesting
/// that under the keys before it: the innermost record is keyed by the last
/// name.
pub proof fn lemma_nest_innermost(keys: Seq<Seq<char>>, leaf: ContentView)
    requires
        keys.len() > 0,
    ensures
        nest(keys, leaf) == nest(keys.drop_last(), wrap(keys.last(), leaf)),
    decreases keys.len(),
{
    if keys.len() == 1 {
        assert(keys.drop_first() =~= Seq::empty());
        assert(keys.drop_last() =~= Seq::empty());
        assert(nest(keys.drop_first(), leaf) == leaf);
    } else {
        let rest = keys.drop_first();
        lemma_nest_innermost(rest, leaf);
        assert(rest.last() == keys.last());
        assert(keys.drop_last().drop_first() =~= rest.drop_last());
        assert(keys.drop_last().first() == keys.first());
    }
}

/// Elaborates `path` with `content`: returns the first name of the path and
/// `content` wrapped in one single-field record for each further name, the
/// last name innermost. Where the value of `content` can be merged, so can
/// the value of the result.
pub fn elaborate_field_path(path: StaticPath, content: FieldContent) -> (r: (String, FieldContent))
    requires
        valid_path(path_view(path@)),
    ensures
        (r.0@, r.1@) == elaborated(path_view(path@), content@),
        mergeable_content(content@) ==> mergeable_content(r.1@),
{
    let ghost names = path_view(path@);
    let ghost leaf = content@;
    let mut rest = path;
    let mut acc = content;
    while rest.len() > 1
        invariant
            0 < rest@.len() <= names.len(),
            path_view(rest@) == names.take(rest@.len() as int),
            nest(names.drop_first(), leaf) == nest(
                names.subrange(1, rest@.len() as int),
                acc@,
            ),
            mergeable_content(leaf) ==> mergeable_content(acc@),
        decreases rest@.len(),
    {
        let ghost before = rest@;
        let key = rest.pop().unwrap();
        proof {
            let n = before.len() as int;
            assert(key@ == names[n - 1]) by {
                assert(path_view(before)[n - 1] == before[n - 1]@);
            }
            assert(path_view(rest@) =~= names.take(n - 1));
            let keys = names.subrange(1, n);
            lemma_nest_innermost(keys, acc@);
            assert(keys.drop_last() =~= names.subrange(1, n - 1));
            assert(keys.last() == names[n - 1]);
        }
        let ghost wrapped = acc@;
        let inner = to_core_field(acc);
        let term = record_of_one(ident(key.as_str()), inner);
        proof {
            if mergeable_content(leaf) {
                lemma_single_field_mergeable(term, wrapped.value);
            }
        }
        acc = FieldContent::from_term(term);
    }
    let ghost last = rest@;
    let head = rest.pop().unwrap();
    proof {
        assert(names.subrange(1, 1) =~= Seq::empty());
        assert(head@ == names[0]) by {
            assert(path_view(last)[0] == last[0]@);
            assert(names.take(1)[0] == names[0]);
        }
    }
    (head, acc)
}

} // verus!

//! Which values the evaluator can merge.
//!
//! When two definitions of one field both hold a static record, the
//! evaluator merges the two records field by field, and goes on in the same
//! way with the values of the fields that they share. It expects that no
//! field it meets on the way has a pending contract. A term written by a
//! generator has none; a term taken out of an evaluated program may. The
//! builder therefore takes only values that are free of them.

use crate::content::ContentView;
use crate::nickel::{static_fields, static_record_fields};
use nickel_lang_core::term::RichTerm;
use vstd::prelude::*;

verus! {

/// No field of `term`, taken as a static record, has a pending contract, no
/// value of such a field has a field with one, and so on; and the static
/// records are nested at most `depth` deep below `term`. A term that is no
/// static record has no fields, so it is clean within any depth.
pub open spec fn clean_within(term: RichTerm, depth: nat) -> bool
    decreases depth,
{
    forall|i: int|
        #![trigger static_record_fields(term)[i]]
        0 <= i < static_record_fields(term).len() ==> {
            &&& static_record_fields(term)[i].0 == 0
            &&& static_record_fields(term)[i].1 matches Some(value) ==> depth > 0 && clean_within(
                value,
                (depth - 1) as nat,
            )
        }
}

/// `term` can be a value of a field that the evaluator merges: it is clean
/// within some depth.
pub open spec fn mergeable(term: RichTerm) -> bool {
    exists|depth: nat| clean_within(term, depth)
}

/// The value of `content`, if it has one, can be merged.
pub open spec fn mergeable_content(content: ContentView) -> bool {
    content.value matches Some(value) ==> mergeable(value)
}

/// A record of a single field without pending contracts can be merged if the
/// field has no value, or a value that can be merged.
pub proof fn lemma_single_field_mergeable(term: RichTerm, value: Option<RichTerm>)
    requires
        static_record_fields(term) == seq![(0usize, value)],
        value matches Some(v) ==> mergeable(v),
    ensures
        mergeable(term),
{
    match value {
        Some(v) => {
            let depth = choose|depth: nat| clean_within(v, depth);
            assert(clean_within(term, depth + 1));
        },
        None => {
            assert(clean_within(term, 0));
        },
    }
}

/// Whether `term` is clean within `depth`.
pub fn is_clean_within(term: &RichTerm, depth: usize) -> (clean: bool)
    ensures
        clean == clean_within(*term, depth as nat),
    decreases depth,
{
    let fields = static_fields(term);
    let mut i: usize = 0;
    while i < fields.len()
        invariant
            i <= fields@.len(),
            fields@ == static_record_fields(*term),
            forall|j: int|
                #![trigger static_record_fields(*term)[j]]
                0 <= j < i ==> {
                    &&& static_record_fields(*term)[j].0 == 0
                    &&& static_record_fields(*term)[j].1 matches Some(value) ==> depth > 0
                        && clean_within(value, (depth - 1) as nat)
                },
        decreases fields@.len() - i,
    {
        let field = &fields[i];
        if field.0 != 0 {
            return false;
        }
        match &field.1 {
            Some(value) => {
                if depth == 0 {
                    return false;
                }
                if !is_clean_within(value, depth - 1) {
                    return false;
                }
            },
            None => {},
        }
        i += 1;
    }
    true
}

/// Tests whether `term` can be merged, down to the deepest nesting that a
/// machine word can count.
pub fn is_mergeable(term: &RichTerm) -> (ok: bool)
    ensures
        ok == clean_within(*term, usize::MAX as nat),
        ok ==> mergeable(*term),
{
    is_clean_within(term, usize::MAX)
}

} // verus!

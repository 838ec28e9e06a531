//! The boundary with the Nickel evaluator.
//!
//! The builder hands four things to the evaluator's library: a name, to get
//! an identifier; a field's content, to get a field in the evaluator's own
//! representation; an identifier and a field, to get a record of that one
//! field; and a list of such pairs, to get the record that merges them. It
//! takes one thing back: the fields of a term that is a static record. None
//! of these calls is verified. Each result is given a name here, and the
//! contracts of the builder are stated over those names.

use crate::content::{ContentView, FieldContent};
use crate::mergeable::mergeable_content;
use crate::metadata::{FieldMetadata, MergePriority, Type};
use codespan::Files;
use nickel_lang_core::identifier::LocIdent;
use nickel_lang_core::label::Label;
use nickel_lang_core::parser::utils::{build_record, FieldPathElem};
use nickel_lang_core::position::{RawSpan, TermPos};
use nickel_lang_core::term::record::Field as CoreField;
use nickel_lang_core::term::record::FieldMetadata as CoreMetadata;
use nickel_lang_core::term::record::RecordAttrs as CoreAttrs;
use nickel_lang_core::term::record::RecordData;
use nickel_lang_core::term::MergePriority as CorePriority;
use nickel_lang_core::term::{LabeledType, RichTerm, Term, TypeAnnotation};
use nickel_lang_core::typ::Type as CoreType;
use vstd::prelude::*;

verus! {

/// A term of the evaluator. The builder never looks inside one.
#[verifier::external_type_specification]
#[verifier::external_body]
pub struct ExRichTerm(nickel_lang_core::term::RichTerm);

/// The evaluator's number, an exact rational.
#[verifier::external_type_specification]
#[verifier::external_body]
pub struct ExNumber(nickel_lang_core::term::Number);

/// An identifier of the evaluator, together with a source position.
#[verifier::external_type_specification]
#[verifier::external_body]
pub struct ExLocIdent(nickel_lang_core::identifier::LocIdent);

/// A type of the evaluator's type language: `nickel_lang_core::typ::Type`,
/// imported under another name because this library has a `Type` of its own.
#[verifier::external_type_specification]
#[verifier::external_body]
pub struct ExCoreType(CoreType);

/// A record field in the evaluator's own representation:
/// `nickel_lang_core::term::record::Field`, imported under another name
/// because this library has a `Field` of its own.
#[verifier::external_type_specification]
#[verifier::external_body]
pub struct ExCoreField(CoreField);

/// The identifier that `LocIdent::new_with_pos` returns for `name` at the
/// placeholder position.
pub uninterp spec fn placeholder_ident(name: Seq<char>) -> LocIdent;

/// The evaluator's field that holds the value and the metadata of `content`.
pub uninterp spec fn core_field(content: ContentView) -> CoreField;

/// The term `Term::Record` of a record whose only field is `id`, defined as
/// `field`.
pub uninterp spec fn single_field_record(id: LocIdent, field: CoreField) -> RichTerm;

/// The term that `build_record` returns for `fields`, in that order, and a
/// record that is open or not.
pub uninterp spec fn merged_record(fields: Seq<(LocIdent, CoreField)>, open: bool) -> RichTerm;

/// What `term` holds as a static record (`Term::Record`): for each field, in
/// the record's order, the number of its pending contracts and its value.
/// Empty for every other term.
pub uninterp spec fn static_record_fields(term: RichTerm) -> Seq<(usize, Option<RichTerm>)>;

/// Whether `id` is the placeholder identifier of some name.
pub open spec fn is_placeholder(id: LocIdent) -> bool {
    exists|name: Seq<char>| id == placeholder_ident(name)
}

/// Whether `field` stands for some content of this library.
pub open spec fn is_core_field(field: CoreField) -> bool {
    exists|content: ContentView| field == core_field(content)
}

/// Whether `field` stands for some content of this library whose value, if
/// it has one, can be merged.
pub open spec fn is_mergeable_field(field: CoreField) -> bool {
    exists|content: ContentView| field == core_field(content) && mergeable_content(content)
}

/// Calls `LocIdent::new_with_pos` on `name` and a placeholder position: the
/// empty span at offset 0 of the source that `Files::add` registers under
/// the name `<fake>` in a fresh `codespan::Files`. The position is the same
/// at every call, so the result depends on `name` alone.
#[verifier::external_body]
pub(crate) fn ident(name: &str) -> (id: LocIdent)
    ensures
        id == placeholder_ident(name@),
{
    let src_id = Files::default().add("<fake>", "");
    LocIdent::new_with_pos(name, TermPos::Original(RawSpan { src_id, start: 0.into(), end: 0.into() }))
}

/// Builds the evaluator's `Field` from `content`: the value and each
/// attribute are moved over one for one, each type gets `Label::default()`
/// as its label, and no pending contract is set. The result depends on
/// `content` alone.
#[verifier::external_body]
pub(crate) fn to_core_field(content: FieldContent) -> (field: CoreField)
    ensures
        field == core_field(content@),
{
    let FieldMetadata { doc, optional, not_exported, priority, type_annotation, contracts } = content.metadata;
    let labeled = |t: Type| LabeledType { typ: t.0, label: Label::default() };
    let typ = type_annotation.map(labeled);
    let contracts = contracts.into_iter().map(labeled).collect();
    let priority = match priority {
        MergePriority::Bottom => CorePriority::Bottom,
        MergePriority::Neutral => CorePriority::Neutral,
        MergePriority::Numeral(n) => CorePriority::Numeral(n),
        MergePriority::Top => CorePriority::Top,
    };
    let annotation = TypeAnnotation { typ, contracts };
    let metadata = CoreMetadata { doc, annotation, opt: optional, not_exported, priority };
    CoreField { value: content.value, metadata, ..Default::default() }
}

/// Builds `Term::Record` over a `RecordData` whose only field is `id`,
/// defined as `field`, and converts it with `RichTerm::from`. The result
/// depends on the two arguments alone. As a static record it holds that one
/// field: where `field` stands for a content, with the content's value and,
/// as `to_core_field` sets none, without pending contracts.
#[verifier::external_body]
pub(crate) fn record_of_one(id: LocIdent, field: CoreField) -> (term: RichTerm)
    ensures
        term == single_field_record(id, field),
        forall|content: ContentView|
            field == #[trigger] core_field(content) ==> static_record_fields(term) == seq![
                (0usize, content.value),
            ],
{
    RichTerm::from(Term::Record(RecordData { fields: [(id, field)].into(), ..Default::default() }))
}

/// Tells `Term::Record` from the other variants of `Term`, and hands out of
/// such a record, for each field in the order of its `fields`, the length of
/// `pending_contracts` and a clone of `value`. For every other variant the
/// list is empty.
#[verifier::external_body]
pub(crate) fn static_fields(term: &RichTerm) -> (fields: Vec<(usize, Option<RichTerm>)>)
    ensures
        fields@ == static_record_fields(*term),
{
    match term.as_ref() {
        Term::Record(data) => data.fields.values().map(|f| (f.pending_contracts.len(), f.value.clone())).collect(),
        _ => Vec::new(),
    }
}

/// Calls `build_record` on `fields`, each identifier as a static field name,
/// and converts the term with `RichTerm::from`. `build_record` merges the
/// definitions that share an identifier, and there it can panic in two ways,
/// which the three conditions leave out.
///
/// It unwraps the position of such an identifier: `ident` sets one.
///
/// It asserts, in a debug build, that no field it merges has a pending
/// contract. It merges the definitions themselves: `to_core_field` sets no
/// pending contract. And where two values that it merges are both static
/// records, it merges the fields that they share in the same way, and so on
/// down through the values of those fields: it reaches only fields of static
/// records nested in the values by way of static records, and
/// `mergeable_content` says that none of those has a pending contract.
///
/// What `build_record` returns is always a `Term::RecRecord`, so as a static
/// record the result has no fields.
#[verifier::external_body]
pub(crate) fn merge_fields(fields: Vec<(LocIdent, CoreField)>, open: bool) -> (term: RichTerm)
    requires
        forall|i: int| 0 <= i < fields@.len() ==> is_placeholder(#[trigger] fields@[i].0),
        forall|i: int| 0 <= i < fields@.len() ==> is_core_field(#[trigger] fields@[i].1),
        forall|i: int| 0 <= i < fields@.len() ==> is_mergeable_field(#[trigger] fields@[i].1),
    ensures
        term == merged_record(fields@, open),
        static_record_fields(term) == Seq::<(usize, Option<RichTerm>)>::empty(),
{
    let fields: Vec<_> = fields.into_iter().map(|(id, f)| (FieldPathElem::Ident(id), f)).collect();
    RichTerm::from(build_record(fields, CoreAttrs { open }))
}

} // verus!

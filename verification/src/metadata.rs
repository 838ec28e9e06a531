//! Field metadata and record attributes, as plain data.
//!
//! A field's metadata is assembled by the builder one attribute at a time and
//! is only turned into the evaluator's own representation when a record is
//! built. Everything here is therefore ordinary data with a mathematical view.

use nickel_lang_core::term::Number;
use nickel_lang_core::typ::Type as CoreType;
use vstd::prelude::*;

verus! {

/// Precedence of a field definition when two definitions of the same field
/// are merged. The builder only attaches the marker; it never compares two
/// of them.
#[derive(Debug)]
pub enum MergePriority {
    /// Overridden by every other definition.
    Bottom,
    /// The priority of a definition that carries no annotation.
    Neutral,
    /// An explicit numeric priority.
    Numeral(Number),
    /// Overrides every other definition.
    Top,
}

impl Default for MergePriority {
    fn default() -> (r: Self)
        ensures
            r == MergePriority::Neutral,
    {
        MergePriority::Neutral
    }
}

/// A type expression, usable as a type annotation or as a contract.
#[derive(Debug)]
pub struct Type(pub CoreType);

/// The attributes of a record as a whole.
#[derive(Debug, Clone, Copy, PartialEq, Eq, Structural)]
pub struct RecordAttrs {
    /// Whether the record accepts fields beyond those it declares.
    pub open: bool,
}

impl Default for RecordAttrs {
    fn default() -> (r: Self)
        ensures
            r == (RecordAttrs { open: false }),
    {
        RecordAttrs { open: false }
    }
}

/// The metadata attached to one field.
#[derive(Debug)]
pub struct FieldMetadata {
    /// Documentation text.
    pub doc: Option<String>,
    /// Whether the field may be left without a definition.
    pub optional: bool,
    /// Whether the field is hidden from serialisation.
    pub not_exported: bool,
    /// Merge priority.
    pub priority: MergePriority,
    /// The declared type, if any.
    pub type_annotation: Option<Type>,
    /// The contracts, in the order in which they were attached.
    pub contracts: Vec<Type>,
}

/// Mathematical view of [`FieldMetadata`].
pub struct MetadataView {
    pub doc: Option<Seq<char>>,
    pub optional: bool,
    pub not_exported: bool,
    pub priority: MergePriority,
    pub type_annotation: Option<Type>,
    pub contracts: Seq<Type>,
}

impl MetadataView {
    /// The metadata of a field on which nothing was set.
    pub open spec fn empty() -> MetadataView {
        MetadataView {
            doc: None,
            optional: false,
            not_exported: false,
            priority: MergePriority::Neutral,
            type_annotation: None,
            contracts: Seq::empty(),
        }
    }

    /// The same metadata with the documentation replaced.
    pub open spec fn with_doc(self, doc: Option<Seq<char>>) -> MetadataView {
        MetadataView { doc, ..self }
    }

    /// The same metadata with the optionality replaced.
    pub open spec fn with_optional(self, optional: bool) -> MetadataView {
        MetadataView { optional, ..self }
    }

    /// The same metadata with the export visibility replaced.
    pub open spec fn with_not_exported(self, not_exported: bool) -> MetadataView {
        MetadataView { not_exported, ..self }
    }

    /// The same metadata with the merge priority replaced.
    pub open spec fn with_priority(self, priority: MergePriority) -> MetadataView {
        MetadataView { priority, ..self }
    }

    /// The same metadata with the declared type replaced.
    pub open spec fn with_type(self, t: Type) -> MetadataView {
        MetadataView { type_annotation: Some(t), ..self }
    }

    /// The same metadata with one more contract, after those already there.
    pub open spec fn with_contract(self, contract: Type) -> MetadataView {
        MetadataView { contracts: self.contracts.push(contract), ..self }
    }

    /// The same metadata with more contracts, in their order, after those
    /// already there.
    pub open spec fn with_contracts(self, contracts: Seq<Type>) -> MetadataView {
        MetadataView { contracts: self.contracts + contracts, ..self }
    }
}

/// Each setter sets the attribute it names and leaves the five others as
/// they were.
pub proof fn lemma_setters_independent(
    m: MetadataView,
    doc: Option<Seq<char>>,
    flag: bool,
    priority: MergePriority,
    t: Type,
)
    ensures
        m.with_doc(doc) == (MetadataView { doc, ..m }),
        m.with_optional(flag) == (MetadataView { optional: flag, ..m }),
        m.with_not_exported(flag) == (MetadataView { not_exported: flag, ..m }),
        m.with_priority(priority) == (MetadataView { priority, ..m }),
        m.with_type(t) == (MetadataView { type_annotation: Some(t), ..m }),
        m.with_contract(t).contracts == m.contracts.push(t),
        m.with_contract(t) == (MetadataView { contracts: m.with_contract(t).contracts, ..m }),
{
}

/// Setters of two different attributes can be applied in either order.
pub proof fn lemma_setters_commute(
    m: MetadataView,
    doc: Option<Seq<char>>,
    optional: bool,
    not_exported: bool,
    priority: MergePriority,
    t: Type,
    contract: Type,
)
    ensures
        m.with_doc(doc).with_optional(optional) == m.with_optional(optional).with_doc(doc),
        m.with_doc(doc).with_not_exported(not_exported) == m.with_not_exported(
            not_exported,
        ).with_doc(doc),
        m.with_doc(doc).with_priority(priority) == m.with_priority(priority).with_doc(doc),
        m.with_doc(doc).with_type(t) == m.with_type(t).with_doc(doc),
        m.with_doc(doc).with_contract(contract) == m.with_contract(contract).with_doc(doc),
        m.with_optional(optional).with_not_exported(not_exported) == m.with_not_exported(
            not_exported,
        ).with_optional(optional),
        m.with_optional(optional).with_priority(priority) == m.with_priority(
            priority,
        ).with_optional(optional),
        m.with_optional(optional).with_type(t) == m.with_type(t).with_optional(optional),
        m.with_optional(optional).with_contract(contract) == m.with_contract(
            contract,
        ).with_optional(optional),
        m.with_not_exported(not_exported).with_priority(priority) == m.with_priority(
            priority,
        ).with_not_exported(not_exported),
        m.with_not_exported(not_exported).with_type(t) == m.with_type(t).with_not_exported(
            not_exported,
        ),
        m.with_not_exported(not_exported).with_contract(contract) == m.with_contract(
            contract,
        ).with_not_exported(not_exported),
        m.with_priority(priority).with_type(t) == m.with_type(t).with_priority(priority),
        m.with_priority(priority).with_contract(contract) == m.with_contract(
            contract,
        ).with_priority(priority),
        m.with_type(t).with_contract(contract) == m.with_contract(contract).with_type(t),
{
}

/// Setting optionality, export visibility, priority and documentation and
/// adding two contracts, on a field on which nothing was set, gives the
/// metadata that holds exactly these: the contracts in the order in which
/// they were added, and no declared type.
pub proof fn lemma_setters_compose(
    doc: Seq<char>,
    optional: bool,
    not_exported: bool,
    priority: MergePriority,
    first: Type,
    second: Type,
)
    ensures
        MetadataView::empty().with_optional(optional).with_not_exported(not_exported).with_priority(
            priority,
        ).with_doc(Some(doc)).with_contract(first).with_contract(second) == (MetadataView {
            doc: Some(doc),
            optional,
            not_exported,
            priority,
            type_annotation: None,
            contracts: seq![first, second],
        }),
{
    assert(Seq::<Type>::empty().push(first).push(second) =~= seq![first, second]);
}

/// Adding contracts one by one is adding them all at once.
pub proof fn lemma_contracts_one_by_one(m: MetadataView, contracts: Seq<Type>, last: Type)
    ensures
        m.with_contracts(Seq::empty()) == m,
        m.with_contracts(contracts.push(last)) == m.with_contracts(contracts).with_contract(last),
{
    assert(m.contracts + Seq::<Type>::empty() =~= m.contracts);
    assert(m.contracts + contracts.push(last) =~= (m.contracts + contracts).push(last));
}

/// View of an optional text.
pub open spec fn text_view(text: Option<String>) -> Option<Seq<char>> {
    match text {
        Some(s) => Some(s@),
        None => None,
    }
}

impl View for FieldMetadata {
    type V = MetadataView;

    open spec fn view(&self) -> MetadataView {
        MetadataView {
            doc: text_view(self.doc),
            optional: self.optional,
            not_exported: self.not_exported,
            priority: self.priority,
            type_annotation: self.type_annotation,
            contracts: self.contracts@,
        }
    }
}

impl Default for FieldMetadata {
    fn default() -> (r: Self)
        ensures
            r@ == MetadataView::empty(),
    {
        FieldMetadata {
            doc: None,
            optional: false,
            not_exported: false,
            priority: MergePriority::Neutral,
            type_annotation: None,
            contracts: Vec::new(),
        }
    }
}

} // verus!

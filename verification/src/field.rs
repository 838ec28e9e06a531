//! A field under construction, from its path to its attachment to a record.
//!
//! A field starts with a path and empty metadata. Metadata is set in any
//! order. Then the field either gets a value or is declared without one, and
//! only after that decision can it be attached to a record.

use crate::content::{ContentView, FieldContent};
use crate::mergeable::{clean_within, is_mergeable, mergeable};
use crate::metadata::{FieldMetadata, MergePriority, MetadataView, Type};
use crate::path::{names_view, owned_path, path_view, valid_path, StaticPath};
use crate::record::Record;
use nickel_lang_core::term::RichTerm;
use vstd::prelude::*;

verus! {

/// State of a field that has no value decision yet and belongs to no record.
pub struct Incomplete();

/// State of a field whose value decision is taken: a value, or none. A value
/// held here can be merged.
#[derive(Debug)]
pub struct Complete(Option<RichTerm>);

impl View for Complete {
    type V = Option<RichTerm>;

    closed spec fn view(&self) -> Option<RichTerm> {
        self.0
    }
}

impl Complete {
    #[verifier::type_invariant]
    spec fn inv(self) -> bool {
        self.0 matches Some(value) ==> mergeable(value)
    }
}

/// A field under construction. `RB` is its state: [`Incomplete`],
/// [`Complete`], or the [`Record`] that the field will be attached to.
#[derive(Debug)]
pub struct Field<RB> {
    record: RB,
    path: StaticPath,
    metadata: FieldMetadata,
}

/// Mathematical view of [`Field`].
pub struct FieldView<RB> {
    pub record: RB,
    pub path: Seq<Seq<char>>,
    pub metadata: MetadataView,
}

impl<RB> FieldView<RB> {
    /// A field in state `record` under `path`, with nothing set.
    pub open spec fn fresh(record: RB, path: Seq<Seq<char>>) -> FieldView<RB> {
        FieldView { record, path, metadata: MetadataView::empty() }
    }

    /// The same field with its metadata replaced.
    pub open spec fn with_metadata(self, metadata: MetadataView) -> FieldView<RB> {
        FieldView { metadata, ..self }
    }

    /// The content that the field has once it holds `value`.
    pub open spec fn content(self, value: Option<RichTerm>) -> ContentView {
        ContentView { value, metadata: self.metadata }
    }
}

impl FieldView<Incomplete> {
    /// Whether `decided` is this field after the value decision `value`.
    pub open spec fn decides(self, value: Option<RichTerm>, decided: FieldView<Complete>) -> bool {
        &&& decided.record@ == value
        &&& decided.path == self.path
        &&& decided.metadata == self.metadata
    }
}

impl FieldView<Complete> {
    /// The path and the content that the field contributes to a record.
    pub open spec fn entry(self) -> (Seq<Seq<char>>, ContentView) {
        (self.path, self.content(self.record@))
    }
}

impl<RB> View for Field<RB> {
    type V = FieldView<RB>;

    closed spec fn view(&self) -> FieldView<RB> {
        FieldView { record: self.record, path: path_view(self.path@), metadata: self.metadata@ }
    }
}

impl<A> Field<A> {
    #[verifier::type_invariant]
    spec fn inv(self) -> bool {
        valid_path(path_view(self.path@))
    }

    /// A field in state `record` under `path`, with nothing set.
    pub(crate) fn scoped(record: A, path: StaticPath) -> (f: Self)
        requires
            valid_path(path_view(path@)),
        ensures
            f@ == FieldView::fresh(record, path_view(path@)),
    {
        Field { record, path, metadata: FieldMetadata::default() }
    }

    /// Sets the documentation.
    pub fn doc(self, doc: &str) -> (r: Self)
        ensures
            r@ == self@.with_metadata(self@.metadata.with_doc(Some(doc@))),
    {
        self.some_doc(Some(doc))
    }

    /// Sets or clears the documentation.
    pub fn some_doc(self, some_doc: Option<&str>) -> (r: Self)
        ensures
            r@ == self@.with_metadata(
                self@.metadata.with_doc(
                    match some_doc {
                        Some(d) => Some(d@),
                        None => None,
                    },
                ),
            ),
    {
        proof {
            use_type_invariant(&self);
        }
        let mut metadata = self.metadata;
        metadata.doc = match some_doc {
            Some(d) => Some(d.to_owned()),
            None => None,
        };
        Field { record: self.record, path: self.path, metadata }
    }

    /// Marks the field as optional.
    pub fn optional(self) -> (r: Self)
        ensures
            r@ == self@.with_metadata(self@.metadata.with_optional(true)),
    {
        self.set_optional(true)
    }

    /// Marks the field as optional or required.
    pub fn set_optional(self, opt: bool) -> (r: Self)
        ensures
            r@ == self@.with_metadata(self@.metadata.with_optional(opt)),
    {
        proof {
            use_type_invariant(&self);
        }
        let mut metadata = self.metadata;
        metadata.optional = opt;
        Field { record: self.record, path: self.path, metadata }
    }

    /// Hides the field from serialisation.
    pub fn not_exported(self) -> (r: Self)
        ensures
            r@ == self@.with_metadata(self@.metadata.with_not_exported(true)),
    {
        self.set_not_exported(true)
    }

    /// Hides the field from serialisation, or shows it.
    pub fn set_not_exported(self, not_exported: bool) -> (r: Self)
        ensures
            r@ == self@.with_metadata(self@.metadata.with_not_exported(not_exported)),
    {
        proof {
            use_type_invariant(&self);
        }
        let mut metadata = self.metadata;
        metadata.not_exported = not_exported;
        Field { record: self.record, path: self.path, metadata }
    }

    /// Adds a contract, after those already there.
    pub fn contract(self, contract: Type) -> (r: Self)
        ensures
            r@ == self@.with_metadata(self@.metadata.with_contract(contract)),
    {
        proof {
            use_type_invariant(&self);
        }
        let mut metadata = self.metadata;
        metadata.contracts.push(contract);
        Field { record: self.record, path: self.path, metadata }
    }

    /// Adds contracts, in their order, after those already there.
    pub fn contracts(self, contracts: Vec<Type>) -> (r: Self)
        ensures
            r@ == self@.with_metadata(self@.metadata.with_contracts(contracts@)),
    {
        proof {
            use_type_invariant(&self);
        }
        let mut metadata = self.metadata;
        let mut more = contracts;
        metadata.contracts.append(&mut more);
        Field { record: self.record, path: self.path, metadata }
    }

    /// Sets the declared type.
    pub fn types(self, t: Type) -> (r: Self)
        ensures
            r@ == self@.with_metadata(self@.metadata.with_type(t)),
    {
        proof {
            use_type_invariant(&self);
        }
        let mut metadata = self.metadata;
        metadata.type_annotation = Some(t);
        Field { record: self.record, path: self.path, metadata }
    }

    /// Sets the merge priority.
    pub fn priority(self, priority: MergePriority) -> (r: Self)
        ensures
            r@ == self@.with_metadata(self@.metadata.with_priority(priority)),
    {
        proof {
            use_type_invariant(&self);
        }
        let mut metadata = self.metadata;
        metadata.priority = priority;
        Field { record: self.record, path: self.path, metadata }
    }

    /// Replaces the whole metadata.
    pub fn metadata(self, metadata: FieldMetadata) -> (r: Self)
        ensures
            r@ == self@.with_metadata(metadata@),
    {
        proof {
            use_type_invariant(&self);
        }
        Field { record: self.record, path: self.path, metadata }
    }
}

impl Field<Incomplete> {
    /// A field under the path `path`, with nothing set.
    pub fn path(path: Vec<&str>) -> (f: Self)
        requires
            valid_path(names_view(path@)),
        ensures
            f@ == FieldView::fresh(Incomplete(), names_view(path@)),
    {
        Field::scoped(Incomplete(), owned_path(path))
    }

    /// A field under the single name `name`, with nothing set.
    pub fn name(name: &str) -> (f: Self)
        requires
            name@.len() > 0,
        ensures
            f@ == FieldView::fresh(Incomplete(), seq![name@]),
    {
        let mut path: StaticPath = Vec::new();
        path.push(name.to_owned());
        assert(path_view(path@) =~= seq![name@]);
        Field::scoped(Incomplete(), path)
    }

    /// Decides that the field has no value.
    pub fn no_value(self) -> (f: Field<Complete>)
        ensures
            self@.decides(None, f@),
    {
        proof {
            use_type_invariant(&self);
        }
        Field { record: Complete(None), path: self.path, metadata: self.metadata }
    }

    /// Decides that the field has the value `value`, which must be a value
    /// that the evaluator can merge.
    pub fn value(self, value: RichTerm) -> (f: Field<Complete>)
        requires
            mergeable(value),
        ensures
            self@.decides(Some(value), f@),
    {
        proof {
            use_type_invariant(&self);
        }
        Field { record: Complete(Some(value)), path: self.path, metadata: self.metadata }
    }

    /// Tests whether `value` can be merged, and decides that the field has
    /// that value if it can. Hands the field and the value back if not.
    pub fn try_value(self, value: RichTerm) -> (r: Result<Field<Complete>, (Self, RichTerm)>)
        ensures
            r is Ok <==> clean_within(value, usize::MAX as nat),
            r matches Ok(f) ==> self@.decides(Some(value), f@),
            r matches Err(back) ==> back == (self, value),
    {
        if is_mergeable(&value) {
            Ok(self.value(value))
        } else {
            Err((self, value))
        }
    }
}

impl Field<Complete> {
    /// Attaches the field to `r`, after the fields already there.
    pub fn with_record(self, r: Record) -> (res: Record)
        ensures
            res@ == r@.attach(self@.entry().0, self@.entry().1),
    {
        proof {
            use_type_invariant(&self);
        }
        let state = self.record;
        proof {
            use_type_invariant(&state);
        }
        let f = Field { record: r, path: self.path, metadata: self.metadata };
        match state {
            Complete(Some(v)) => f.value(v),
            Complete(None) => f.no_value(),
        }
    }
}

impl Field<Record> {
    /// Attaches the field, without a value, to its record, and returns the
    /// record.
    pub fn no_value(self) -> (r: Record)
        ensures
            r@ == self@.record@.attach(self@.path, self@.content(None)),
    {
        proof {
            use_type_invariant(&self);
        }
        self.record.attach(self.path, FieldContent { value: None, metadata: self.metadata })
    }

    /// Attaches the field, with the value `value`, to its record, and
    /// returns the record. The value must be one that the evaluator can
    /// merge.
    pub fn value(self, value: RichTerm) -> (r: Record)
        requires
            mergeable(value),
        ensures
            r@ == self@.record@.attach(self@.path, self@.content(Some(value))),
    {
        proof {
            use_type_invariant(&self);
        }
        self.record.attach(self.path, FieldContent { value: Some(value), metadata: self.metadata })
    }

    /// Tests whether `value` can be merged, and attaches the field with that
    /// value to its record if it can. Hands the field and the value back if
    /// not.
    pub fn try_value(self, value: RichTerm) -> (r: Result<Record, (Self, RichTerm)>)
        ensures
            r is Ok <==> clean_within(value, usize::MAX as nat),
            r matches Ok(record) ==> record@ == self@.record@.attach(
                self@.path,
                self@.content(Some(value)),
            ),
            r matches Err(back) ==> back == (self, value),
    {
        if is_mergeable(&value) {
            Ok(self.value(value))
        } else {
            Err((self, value))
        }
    }
}

} // verus!

//! The content of one record field: an optional value and its metadata.

use crate::metadata::{FieldMetadata, MetadataView};
use nickel_lang_core::term::RichTerm;
use vstd::prelude::*;

verus! {

/// What a record holds under one field name.
#[derive(Debug)]
pub struct FieldContent {
    /// The definition of the field; `None` for a field that is only declared.
    pub value: Option<RichTerm>,
    /// The metadata of the field.
    pub metadata: FieldMetadata,
}

/// Mathematical view of [`FieldContent`].
pub struct ContentView {
    pub value: Option<RichTerm>,
    pub metadata: MetadataView,
}

impl ContentView {
    /// The content that holds `term` and no metadata.
    pub open spec fn of_term(term: RichTerm) -> ContentView {
        ContentView { value: Some(term), metadata: MetadataView::empty() }
    }
}

impl View for FieldContent {
    type V = ContentView;

    open spec fn view(&self) -> ContentView {
        ContentView { value: self.value, metadata: self.metadata@ }
    }
}

impl FieldContent {
    /// A field defined as `term`, with no metadata.
    pub fn from_term(term: RichTerm) -> (r: Self)
        ensures
            r@ == ContentView::of_term(term),
    {
        FieldContent { value: Some(term), metadata: FieldMetadata::default() }
    }
}

} // verus!

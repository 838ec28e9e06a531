//! A programmatic builder for Nickel records.
//!
//! A [`Record`] collects fields, each given by a path, its metadata and an
//! optional value, and is finally built into a term of the Nickel evaluator.

pub mod content;
pub mod elaborate;
pub mod field;
pub mod mergeable;
pub mod metadata;
pub mod nickel;
pub mod path;
pub mod record;

pub use content::{ContentView, FieldContent};
pub use elaborate::elaborate_field_path;
pub use field::{Complete, Field, FieldView, Incomplete};
pub use mergeable::{is_clean_within, is_mergeable};
pub use metadata::{FieldMetadata, MergePriority, MetadataView, RecordAttrs, Type};
pub use path::StaticPath;
pub use record::{Record, RecordView};

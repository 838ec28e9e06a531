//! The record under construction: fields in the order in which they were
//! attached, and the attributes of the record as a whole.

use crate::content::{ContentView, FieldContent};
use crate::elaborate::{elaborate_field_path, elaborated, nest};
use crate::field::{Complete, Field, FieldView};
use crate::mergeable::{clean_within, mergeable, mergeable_content};
use crate::metadata::RecordAttrs;
use crate::nickel::{core_field, ident, merge_fields, merged_record, placeholder_ident, to_core_field};
use crate::path::{names_view, owned_path, path_view, valid_path, StaticPath};
use nickel_lang_core::identifier::LocIdent;
use nickel_lang_core::term::record::Field as CoreField;
use nickel_lang_core::term::RichTerm;
use vstd::prelude::*;

verus! {

/// A record that is being built.
#[derive(Debug)]
pub struct Record {
    fields: Vec<(StaticPath, FieldContent)>,
    attrs: RecordAttrs,
}

/// Mathematical view of [`Record`]: the attached fields, oldest first, each
/// as its path and its content, and the attributes.
pub struct RecordView {
    pub fields: Seq<(Seq<Seq<char>>, ContentView)>,
    pub attrs: RecordAttrs,
}

impl RecordView {
    /// The record without fields, closed.
    pub open spec fn empty() -> RecordView {
        RecordView { fields: Seq::empty(), attrs: RecordAttrs { open: false } }
    }

    /// The same record with one more field, after those already there.
    pub open spec fn attach(self, path: Seq<Seq<char>>, content: ContentView) -> RecordView {
        RecordView { fields: self.fields.push((path, content)), ..self }
    }

    /// The same record with more fields, in their order, after those already
    /// there.
    pub open spec fn attach_all(self, entries: Seq<(Seq<Seq<char>>, ContentView)>) -> RecordView {
        RecordView { fields: self.fields + entries, ..self }
    }

    /// The same record, open or closed as `open` says.
    pub open spec fn with_open(self, open: bool) -> RecordView {
        RecordView { attrs: RecordAttrs { open }, ..self }
    }
}

/// The path and content of each field of `fields`, in the same order.
pub open spec fn entries(fields: Seq<Field<Complete>>) -> Seq<(Seq<Seq<char>>, ContentView)> {
    fields.map_values(|f: Field<Complete>| f@.entry())
}

/// Each field elaborated on its own, in the same order: the top-level name
/// and the nested content of each.
pub open spec fn elaborate_all(fields: Seq<(Seq<Seq<char>>, ContentView)>) -> Seq<
    (Seq<char>, ContentView),
> {
    fields.map_values(|e: (Seq<Seq<char>>, ContentView)| elaborated(e.0, e.1))
}

/// The names and contents of `pairs`, in the same order.
pub open spec fn pairs_view(pairs: Seq<(String, FieldContent)>) -> Seq<(Seq<char>, ContentView)> {
    pairs.map_values(|p: (String, FieldContent)| (p.0@, p.1@))
}

/// The identifier and the field that the evaluator gets for each pair, in
/// the same order.
pub open spec fn core_pairs(pairs: Seq<(Seq<char>, ContentView)>) -> Seq<(LocIdent, CoreField)> {
    pairs.map_values(|p: (Seq<char>, ContentView)| (placeholder_ident(p.0), core_field(p.1)))
}

/// The term that a record with this view builds to.
pub open spec fn built(record: RecordView) -> RichTerm {
    merged_record(core_pairs(elaborate_all(record.fields)), record.attrs.open)
}

/// Attaching fields keeps what was there and adds the new fields behind
/// it, in their order.
pub proof fn lemma_attach_keeps_order(record: RecordView, more: Seq<(Seq<Seq<char>>, ContentView)>)
    ensures
        record.attach_all(more).attrs == record.attrs,
        record.attach_all(more).fields.len() == record.fields.len() + more.len(),
        forall|i: int|
            0 <= i < record.fields.len() ==> #[trigger] record.attach_all(more).fields[i]
                == record.fields[i],
        forall|i: int|
            0 <= i < more.len() ==> #[trigger] record.attach_all(more).fields[record.fields.len()
                + i] == more[i],
{
}

/// Attaching fields one by one is attaching them all at once.
pub proof fn lemma_attach_one_by_one(
    record: RecordView,
    more: Seq<(Seq<Seq<char>>, ContentView)>,
    path: Seq<Seq<char>>,
    content: ContentView,
)
    ensures
        record.attach_all(Seq::empty()) == record,
        record.attach_all(more.push((path, content))) == record.attach_all(more).attach(
            path,
            content,
        ),
{
    assert(record.fields + Seq::<(Seq<Seq<char>>, ContentView)>::empty() =~= record.fields);
    assert(record.fields + more.push((path, content)) =~= (record.fields + more).push(
        (path, content),
    ));
}

/// The evaluator gets one pair for each attached field, in the order of
/// attachment: the `i`-th pair is the identifier of the first name of the
/// `i`-th field's path and the field of its content nested under the rest
/// of the path.
pub proof fn lemma_pairs_in_attachment_order(fields: Seq<(Seq<Seq<char>>, ContentView)>)
    ensures
        elaborate_all(fields).len() == fields.len(),
        core_pairs(elaborate_all(fields)).len() == fields.len(),
        forall|i: int|
            0 <= i < fields.len() ==> #[trigger] elaborate_all(fields)[i] == elaborated(
                fields[i].0,
                fields[i].1,
            ),
        forall|i: int|
            0 <= i < fields.len() ==> #[trigger] core_pairs(elaborate_all(fields))[i] == (
                placeholder_ident(fields[i].0.first()),
                core_field(nest(fields[i].0.drop_first(), fields[i].1)),
            ),
{
}

/// Two records that were given the same fields in the same order and the
/// same attributes hand the same pairs to the evaluator, and build to the
/// same term.
pub proof fn lemma_same_fields_same_pairs(first: Record, second: Record)
    requires
        first@ == second@,
    ensures
        elaborate_all(first@.fields) == elaborate_all(second@.fields),
        core_pairs(elaborate_all(first@.fields)) == core_pairs(elaborate_all(second@.fields)),
        built(first@) == built(second@),
{
}

impl View for Record {
    type V = RecordView;

    closed spec fn view(&self) -> RecordView {
        RecordView {
            fields: self.fields@.map_values(
                |e: (StaticPath, FieldContent)| (path_view(e.0@), e.1@),
            ),
            attrs: self.attrs,
        }
    }
}

impl Record {
    #[verifier::type_invariant]
    spec fn inv(self) -> bool {
        forall|i: int|
            0 <= i < self.fields@.len() ==> {
                &&& valid_path(path_view((#[trigger] self.fields@[i]).0@))
                &&& mergeable_content(self.fields@[i].1@)
            }
    }

    /// A record without fields, closed.
    pub fn new() -> (r: Self)
        ensures
            r@ == RecordView::empty(),
    {
        let r = Record { fields: Vec::new(), attrs: RecordAttrs { open: false } };
        assert(r@.fields =~= Seq::empty());
        r
    }

    /// Starts a field of this record under the single name `name`.
    pub fn field(self, name: &str) -> (f: Field<Record>)
        requires
            name@.len() > 0,
        ensures
            f@ == FieldView::fresh(self, seq![name@]),
    {
        let mut path: StaticPath = Vec::new();
        path.push(name.to_owned());
        assert(path_view(path@) =~= seq![name@]);
        Field::scoped(self, path)
    }

    /// Attaches every field of `fields`, in order, after the fields already
    /// there.
    pub fn fields(self, fields: Vec<Field<Complete>>) -> (r: Self)
        ensures
            r@ == self@.attach_all(entries(fields@)),
    {
        let ghost all = fields@;
        let mut record = self;
        assert(self@.fields + entries(all.take(0)) =~= self@.fields);
        for f in it: fields.into_iter()
            invariant
                it.seq() == all,
                record@ == self@.attach_all(entries(all.take(it.index() as int))),
        {
            proof {
                let i = it.index() as int;
                assert(entries(all.take(i + 1)) =~= entries(all.take(i)).push(all[i]@.entry()));
                assert((self@.fields + entries(all.take(i))).push(all[i]@.entry()) =~= self@.fields
                    + entries(all.take(i + 1)));
            }
            record = f.with_record(record);
        }
        assert(all.take(all.len() as int) =~= all);
        record
    }

    /// Starts a field of this record under the path `path`.
    pub fn path(self, path: Vec<&str>) -> (f: Field<Record>)
        requires
            valid_path(names_view(path@)),
        ensures
            f@ == FieldView::fresh(self, names_view(path@)),
    {
        Field::scoped(self, owned_path(path))
    }

    /// Replaces the attributes of the record.
    pub fn attrs(self, attrs: RecordAttrs) -> (r: Self)
        ensures
            r@ == (RecordView { attrs, ..self@ }),
    {
        proof {
            use_type_invariant(&self);
        }
        Record { fields: self.fields, attrs }
    }

    /// Marks the record as open.
    pub fn open(self) -> (r: Self)
        ensures
            r@ == self@.with_open(true),
    {
        self.set_open(true)
    }

    /// Marks the record as open or closed.
    pub fn set_open(self, open: bool) -> (r: Self)
        ensures
            r@ == self@.with_open(open),
    {
        proof {
            use_type_invariant(&self);
        }
        Record { fields: self.fields, attrs: RecordAttrs { open } }
    }

    /// Attaches one field after the fields already there.
    pub(crate) fn attach(self, path: StaticPath, content: FieldContent) -> (r: Self)
        requires
            valid_path(path_view(path@)),
            mergeable_content(content@),
        ensures
            r@ == self@.attach(path_view(path@), content@),
    {
        proof {
            use_type_invariant(&self);
        }
        let mut fields = self.fields;
        fields.push((path, content));
        let r = Record { fields, attrs: self.attrs };
        assert(r@.fields =~= self@.fields.push((path_view(path@), content@)));
        r
    }

    /// Elaborates every field: the list of top-level names and nested
    /// contents from which the record is built, in the order in which the
    /// fields were attached. Every value in it can be merged.
    pub fn elaborate(self) -> (pairs: Vec<(String, FieldContent)>)
        ensures
            pairs_view(pairs@) == elaborate_all(self@.fields),
            forall|i: int| 0 <= i < pairs@.len() ==> mergeable_content((#[trigger] pairs@[i]).1@),
    {
        proof {
            use_type_invariant(&self);
        }
        let ghost all = self.fields@;
        let mut pairs: Vec<(String, FieldContent)> = Vec::new();
        for entry in it: self.fields.into_iter()
            invariant
                it.seq() == all,
                forall|i: int|
                    0 <= i < all.len() ==> {
                        &&& valid_path(path_view((#[trigger] all[i]).0@))
                        &&& mergeable_content(all[i].1@)
                    },
                pairs@.len() == it.index(),
                forall|i: int| 0 <= i < pairs@.len() ==> mergeable_content((#[trigger] pairs@[i]).1@),
                forall|i: int|
                    0 <= i < pairs@.len() ==> ((#[trigger] pairs@[i]).0@, pairs@[i].1@) == elaborated(
                        path_view(all[i].0@),
                        all[i].1@,
                    ),
        {
            let pair = elaborate_field_path(entry.0, entry.1);
            pairs.push(pair);
        }
        assert(pairs_view(pairs@) =~= elaborate_all(self@.fields));
        pairs
    }

    /// Builds the record: elaborates every field and hands the pairs, in the
    /// order in which the fields were attached, to the evaluator, which
    /// merges the fields that share a top-level name. The term can in turn
    /// be the value of a field.
    pub fn build(self) -> (term: RichTerm)
        ensures
            term == built(self@),
            mergeable(term),
    {
        let open = self.attrs.open;
        let pairs = self.elaborate();
        let ghost all = pairs_view(pairs@);
        let mut fields: Vec<(LocIdent, CoreField)> = Vec::new();
        for pair in it: pairs.into_iter()
            invariant
                pairs_view(it.seq()) == all,
                forall|i: int| 0 <= i < all.len() ==> mergeable_content((#[trigger] all[i]).1),
                fields@.len() == it.index(),
                forall|i: int|
                    0 <= i < fields@.len() ==> (#[trigger] fields@[i]) == (
                        placeholder_ident(all[i].0),
                        core_field(all[i].1),
                    ),
        {
            let id = ident(pair.0.as_str());
            let field = to_core_field(pair.1);
            fields.push((id, field));
        }
        assert(fields@ =~= core_pairs(all));
        let term = merge_fields(fields, open);
        assert(clean_within(term, 0));
        term
    }
}

impl From<Vec<Field<Complete>>> for Record {
    /// The closed record that holds `fields`, in order.
    fn from(fields: Vec<Field<Complete>>) -> (r: Self)
        ensures
            r@ == RecordView::empty().attach_all(entries(fields@)),
    {
        Record::new().fields(fields)
    }
}

impl vstd::std_specs::convert::FromSpecImpl<Vec<Field<Complete>>> for Record {
    open spec fn obeys_from_spec() -> bool {
        false
    }

    open spec fn from_spec(fields: Vec<Field<Complete>>) -> Record {
        arbitrary()
    }
}

impl From<Record> for RichTerm {
    /// Builds the record.
    fn from(record: Record) -> (term: Self)
        ensures
            mergeable(term),
    {
        record.build()
    }
}

impl vstd::std_specs::convert::FromSpecImpl<Record> for RichTerm {
    open spec fn obeys_from_spec() -> bool {
        true
    }

    open spec fn from_spec(record: Record) -> RichTerm {
        built(record@)
    }
}

impl Default for Record {
    fn default() -> (r: Self)
        ensures
            r@ == RecordView::empty(),
    {
        Record::new()
    }
}

} // verus!

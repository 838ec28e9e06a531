use codespan::Files;
use nickel_builder::{Complete, Field, Record, RecordAttrs};
use nickel_lang_core::identifier::LocIdent;
use nickel_lang_core::parser::utils::{build_record, FieldPathElem};
use nickel_lang_core::position::{RawSpan, TermPos};
use nickel_lang_core::term::record::RecordData;
use nickel_lang_core::term::{record, RichTerm, Term};

fn placeholder(name: &str) -> LocIdent {
    LocIdent::new_with_pos(
        name,
        TermPos::Original(RawSpan {
            src_id: Files::default().add("<fake>", ""),
            start: 0.into(),
            end: 0.into(),
        }),
    )
}

fn ident(name: &str) -> FieldPathElem {
    FieldPathElem::Ident(placeholder(name))
}

fn string(s: &str) -> RichTerm {
    Term::Str(s.into()).into()
}

fn single(name: &str, field: record::Field) -> RichTerm {
    RichTerm::from(Term::Record(RecordData {
        fields: [(placeholder(name), field)].into(),
        ..Default::default()
    }))
}

fn providers() -> RichTerm {
    Record::from(vec![
        Field::name("foo").value(Term::Null.into()),
        Field::name("bar").value(Term::Null.into()),
    ])
    .build()
}

fn three_fields() -> Vec<Field<Complete>> {
    vec![
        Field::name("one").value(string("1")),
        Field::name("two").no_value(),
        Field::name("three").value(string("3")),
    ]
}

fn names(pairs: &[(String, nickel_builder::FieldContent)]) -> Vec<&str> {
    pairs.iter().map(|p| p.0.as_str()).collect()
}

#[test]
fn fresh_record_is_closed_and_empty() {
    let pairs = Record::new().elaborate();
    assert!(pairs.is_empty());
    let built = Record::new().build();
    assert_eq!(
        built,
        build_record(vec![], record::RecordAttrs { open: false }).into()
    );
    assert_ne!(
        built,
        build_record(vec![], record::RecordAttrs { open: true }).into()
    );
    assert_eq!(Record::default().build(), built);
}

#[test]
fn open_and_set_open() {
    let open: RichTerm = build_record(vec![], record::RecordAttrs { open: true }).into();
    let closed: RichTerm = build_record(vec![], record::RecordAttrs { open: false }).into();
    assert_eq!(Record::new().open().build(), open);
    assert_eq!(Record::new().set_open(true).build(), open);
    assert_eq!(Record::new().open().set_open(false).build(), closed);
    assert_eq!(Record::new().set_open(false).open().build(), open);
    assert_eq!(
        Record::new().attrs(RecordAttrs { open: true }).set_open(false).build(),
        closed
    );
}

#[test]
fn open_keeps_the_fields() {
    let pairs = Record::new()
        .fields(three_fields())
        .open()
        .elaborate();
    assert_eq!(names(&pairs), vec!["one", "two", "three"]);
    let built = Record::new().fields(three_fields()).open().build();
    let expected: RichTerm = build_record(
        vec![
            (ident("one"), record::Field::from(string("1"))),
            (ident("two"), record::Field::default()),
            (ident("three"), record::Field::from(string("3"))),
        ],
        record::RecordAttrs { open: true },
    )
    .into();
    assert_eq!(built, expected);
}

#[test]
fn fields_keep_their_order() {
    let pairs = Record::new().fields(three_fields()).elaborate();
    assert_eq!(names(&pairs), vec!["one", "two", "three"]);
    assert_eq!(pairs[0].1.value, Some(string("1")));
    assert_eq!(pairs[1].1.value, None);
    assert_eq!(pairs[2].1.value, Some(string("3")));
}

#[test]
fn sequential_attachment_keeps_the_order() {
    let pairs = Record::new()
        .field("one")
        .value(string("1"))
        .field("two")
        .no_value()
        .field("three")
        .value(string("3"))
        .elaborate();
    assert_eq!(names(&pairs), vec!["one", "two", "three"]);
    assert_eq!(pairs[0].1.value, Some(string("1")));
    assert_eq!(pairs[1].1.value, None);
    assert_eq!(pairs[2].1.value, Some(string("3")));
}

#[test]
fn fields_and_sequential_attachment_build_the_same_term() {
    let at_once = Record::new().fields(three_fields()).build();
    let one_by_one = Record::new()
        .field("one")
        .value(string("1"))
        .field("two")
        .no_value()
        .field("three")
        .value(string("3"))
        .build();
    assert_eq!(at_once, one_by_one);
    let with_record = three_fields()
        .into_iter()
        .fold(Record::new(), |r, f| f.with_record(r))
        .build();
    assert_eq!(at_once, with_record);
}

#[test]
fn fields_are_added_behind_those_already_there() {
    let pairs = Record::new()
        .field("zero")
        .no_value()
        .fields(three_fields())
        .fields(vec![])
        .fields(vec![Field::name("four").no_value()])
        .elaborate();
    assert_eq!(names(&pairs), vec!["zero", "one", "two", "three", "four"]);
}

#[test]
fn the_same_name_twice_stays_twice() {
    let pairs = Record::new()
        .field("a")
        .value(string("first"))
        .field("a")
        .value(string("second"))
        .elaborate();
    assert_eq!(names(&pairs), vec!["a", "a"]);
    assert_eq!(pairs[0].1.value, Some(string("first")));
    assert_eq!(pairs[1].1.value, Some(string("second")));
}

#[test]
fn the_same_name_twice_is_merged_by_the_evaluator() {
    let built = Record::new()
        .field("a")
        .value(string("first"))
        .field("a")
        .value(string("second"))
        .build();
    let expected: RichTerm = build_record(
        vec![
            (ident("a"), record::Field::from(string("first"))),
            (ident("a"), record::Field::from(string("second"))),
        ],
        Default::default(),
    )
    .into();
    assert_eq!(built, expected);
    let reversed: RichTerm = build_record(
        vec![
            (ident("a"), record::Field::from(string("second"))),
            (ident("a"), record::Field::from(string("first"))),
        ],
        Default::default(),
    )
    .into();
    assert_ne!(built, reversed);
}

#[test]
fn one_field_with_a_value_gives_one_pair() {
    let pairs = Record::new().field("foo").value(string("bar")).elaborate();
    assert_eq!(pairs.len(), 1);
    assert_eq!(pairs[0].0, "foo");
    assert_eq!(pairs[0].1.value, Some(string("bar")));
    let m = &pairs[0].1.metadata;
    assert_eq!(m.doc, None);
    assert!(!m.optional);
    assert!(!m.not_exported);
    assert!(matches!(m.priority, nickel_builder::MergePriority::Neutral));
    assert!(m.type_annotation.is_none());
    assert!(m.contracts.is_empty());
}

#[test]
fn overlapping_paths_give_two_pairs_under_the_same_name() {
    let pairs = Record::new()
        .path(vec!["terraform", "required_providers"])
        .value(providers())
        .path(vec!["terraform", "required_providers", "foo"])
        .value(string("hello"))
        .elaborate();
    assert_eq!(names(&pairs), vec!["terraform", "terraform"]);
    assert_eq!(
        pairs[0].1.value,
        Some(single(
            "required_providers",
            record::Field::from(providers())
        ))
    );
    assert_eq!(
        pairs[1].1.value,
        Some(single(
            "required_providers",
            record::Field::from(single("foo", record::Field::from(string("hello"))))
        ))
    );
}

#[test]
fn optional_field_without_value() {
    let pairs = Record::from(vec![Field::name("foo").optional().no_value()]).elaborate();
    assert_eq!(pairs.len(), 1);
    assert_eq!(pairs[0].0, "foo");
    assert_eq!(pairs[0].1.value, None);
    assert!(pairs[0].1.metadata.optional);
    assert!(!pairs[0].1.metadata.not_exported);
    assert_eq!(pairs[0].1.metadata.doc, None);
}

#[test]
fn building_again_from_scratch_gives_the_same() {
    let derive = || {
        Record::new()
            .path(vec!["a", "b", "c"])
            .doc("leaf")
            .value(string("v"))
            .fields(three_fields())
            .field("a")
            .optional()
            .no_value()
            .open()
    };
    let first = derive().elaborate();
    let second = derive().elaborate();
    assert_eq!(first.len(), second.len());
    for (x, y) in first.iter().zip(second.iter()) {
        assert_eq!(x.0, y.0);
        assert_eq!(x.1.value, y.1.value);
        assert_eq!(x.1.metadata.doc, y.1.metadata.doc);
        assert_eq!(x.1.metadata.optional, y.1.metadata.optional);
    }
    assert_eq!(derive().build(), derive().build());
}

#[test]
fn build_and_conversion_agree() {
    let built = Record::new().fields(three_fields()).build();
    let converted: RichTerm = Record::new().fields(three_fields()).into();
    assert_eq!(built, converted);
}

#[test]
fn nested_path_builds_nested_records() {
    let built = Record::new()
        .path(vec!["a", "b", "c"])
        .value(string("v"))
        .build();
    let expected: RichTerm = build_record(
        vec![(
            ident("a"),
            record::Field::from(single(
                "b",
                record::Field::from(single("c", record::Field::from(string("v")))),
            )),
        )],
        Default::default(),
    )
    .into();
    assert_eq!(built, expected);
    let flat: RichTerm = build_record(
        vec![(ident("a"), record::Field::from(string("v")))],
        Default::default(),
    )
    .into();
    assert_ne!(built, flat);
}

#[test]
fn field_names_reach_the_built_term() {
    let a = Record::new().field("a").value(string("v")).build();
    let b = Record::new().field("b").value(string("v")).build();
    assert_ne!(a, b);
    let expected: RichTerm = build_record(
        vec![(ident("a"), record::Field::from(string("v")))],
        Default::default(),
    )
    .into();
    assert_eq!(a, expected);
}

#[test]
fn complete_field_attaches_to_a_record_with_fields() {
    let record = Record::new().field("first").no_value();
    let pairs = Field::name("second")
        .doc("d")
        .value(string("v"))
        .with_record(record)
        .elaborate();
    assert_eq!(names(&pairs), vec!["first", "second"]);
    assert_eq!(pairs[1].1.value, Some(string("v")));
    assert_eq!(pairs[1].1.metadata.doc, Some("d".to_owned()));
}

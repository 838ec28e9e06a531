use codespan::Files;
use nickel_builder::{is_clean_within, is_mergeable, Field, Record};
use nickel_lang_core::identifier::LocIdent;
use nickel_lang_core::parser::utils::{build_record, FieldPathElem};
use nickel_lang_core::position::{RawSpan, TermPos};
use nickel_lang_core::term::record::RecordData;
use nickel_lang_core::term::{record, RichTerm, RuntimeContract, Term};

fn placeholder(name: &str) -> LocIdent {
    LocIdent::new_with_pos(
        name,
        TermPos::Original(RawSpan {
            src_id: Files::default().add("<fake>", ""),
            start: 0.into(),
            end: 0.into(),
        }),
    )
}

fn string(s: &str) -> RichTerm {
    Term::Str(s.into()).into()
}

fn static_record(fields: Vec<(&str, record::Field)>) -> RichTerm {
    RichTerm::from(Term::Record(RecordData {
        fields: fields
            .into_iter()
            .map(|(name, field)| (placeholder(name), field))
            .collect(),
        ..Default::default()
    }))
}

fn with_pending_contract(value: RichTerm) -> record::Field {
    record::Field {
        value: Some(value),
        pending_contracts: vec![RuntimeContract::new(Term::Null.into(), Default::default())],
        ..Default::default()
    }
}

fn clean_record() -> RichTerm {
    static_record(vec![
        ("x", record::Field::from(string("1"))),
        ("y", record::Field::default()),
    ])
}

fn dirty_record() -> RichTerm {
    static_record(vec![
        ("w", record::Field::from(string("0"))),
        ("x", with_pending_contract(string("1"))),
    ])
}

#[test]
fn scalars_can_be_merged() {
    assert!(is_mergeable(&Term::Null.into()));
    assert!(is_mergeable(&string("v")));
    assert!(is_clean_within(&string("v"), 0));
}

#[test]
fn static_record_without_pending_contracts_can_be_merged() {
    assert!(is_mergeable(&clean_record()));
    assert!(is_mergeable(&static_record(vec![])));
}

#[test]
fn static_record_with_a_pending_contract_cannot_be_merged() {
    assert!(!is_mergeable(&dirty_record()));
    assert!(!is_mergeable(&static_record(vec![(
        "only",
        record::Field {
            value: None,
            pending_contracts: vec![RuntimeContract::new(Term::Null.into(), Default::default())],
            ..Default::default()
        }
    )])));
}

#[test]
fn pending_contract_in_a_nested_record_is_found() {
    let nested = static_record(vec![
        ("a", record::Field::from(clean_record())),
        (
            "b",
            record::Field::from(static_record(vec![("c", record::Field::from(dirty_record()))])),
        ),
    ]);
    assert!(!is_mergeable(&nested));
    let clean = static_record(vec![
        ("a", record::Field::from(clean_record())),
        (
            "b",
            record::Field::from(static_record(vec![("c", record::Field::from(clean_record()))])),
        ),
    ]);
    assert!(is_mergeable(&clean));
}

#[test]
fn depth_counts_the_nesting_of_static_records() {
    let one = static_record(vec![("a", record::Field::from(string("v")))]);
    let two = static_record(vec![("b", record::Field::from(one.clone()))]);
    assert!(is_clean_within(&string("v"), 0));
    assert!(!is_clean_within(&one, 0));
    assert!(is_clean_within(&one, 1));
    assert!(!is_clean_within(&two, 1));
    assert!(is_clean_within(&two, 2));
    assert!(is_clean_within(&two, 3));
    let no_values = static_record(vec![("a", record::Field::default())]);
    assert!(is_clean_within(&no_values, 0));
}

#[test]
fn built_record_can_be_merged() {
    let built = Record::new()
        .field("foo")
        .value(string("bar"))
        .path(vec!["a", "b"])
        .value(clean_record())
        .build();
    assert!(is_mergeable(&built));
    assert!(is_mergeable(&Record::new().build()));
}

#[test]
fn try_value_takes_a_value_that_can_be_merged() {
    let record = match Record::new().field("a").try_value(clean_record()) {
        Ok(record) => record,
        Err(_) => panic!("a clean record was refused"),
    };
    let pairs = record.elaborate();
    assert_eq!(pairs.len(), 1);
    assert_eq!(pairs[0].0, "a");
    assert_eq!(pairs[0].1.value, Some(clean_record()));

    let field = match Field::name("b").doc("d").try_value(string("v")) {
        Ok(field) => field,
        Err(_) => panic!("a string was refused"),
    };
    let pairs = Record::from(vec![field]).elaborate();
    assert_eq!(pairs.len(), 1);
    assert_eq!(pairs[0].0, "b");
    assert_eq!(pairs[0].1.value, Some(string("v")));
    assert_eq!(pairs[0].1.metadata.doc, Some("d".to_owned()));
}

#[test]
fn try_value_hands_back_a_value_that_cannot_be_merged() {
    let record = Record::new().field("first").value(string("1"));
    match record.field("a").optional().try_value(dirty_record()) {
        Ok(_) => panic!("a record with a pending contract was taken"),
        Err((field, value)) => {
            assert_eq!(value, dirty_record());
            let pairs = field.no_value().elaborate();
            assert_eq!(pairs.len(), 2);
            assert_eq!(pairs[0].0, "first");
            assert_eq!(pairs[1].0, "a");
            assert_eq!(pairs[1].1.value, None);
            assert!(pairs[1].1.metadata.optional);
        }
    }
    match Field::name("b").doc("d").try_value(dirty_record()) {
        Ok(_) => panic!("a record with a pending contract was taken"),
        Err((field, value)) => {
            assert_eq!(value, dirty_record());
            let pairs = Record::from(vec![field.no_value()]).elaborate();
            assert_eq!(pairs[0].0, "b");
            assert_eq!(pairs[0].1.metadata.doc, Some("d".to_owned()));
        }
    }
}

#[test]
fn two_tested_records_under_one_name_are_merged() {
    let second = static_record(vec![
        ("x", record::Field::from(string("2"))),
        ("z", record::Field::from(string("3"))),
    ]);
    let record = match Record::new().field("a").try_value(clean_record()) {
        Ok(record) => record,
        Err(_) => panic!("a clean record was refused"),
    };
    let record = match record.field("a").try_value(second.clone()) {
        Ok(record) => record,
        Err(_) => panic!("a clean record was refused"),
    };
    let built = record.build();
    let expected: RichTerm = build_record(
        vec![
            (
                FieldPathElem::Ident(placeholder("a")),
                record::Field::from(clean_record()),
            ),
            (
                FieldPathElem::Ident(placeholder("a")),
                record::Field::from(second),
            ),
        ],
        Default::default(),
    )
    .into();
    assert_eq!(built, expected);
}

#[test]
fn overlapping_nested_paths_with_tested_records_are_merged() {
    let second = static_record(vec![("x", record::Field::from(string("2")))]);
    let record = match Record::new().path(vec!["a", "b"]).try_value(clean_record()) {
        Ok(record) => record,
        Err(_) => panic!("a clean record was refused"),
    };
    let record = match record.path(vec!["a", "b"]).try_value(second.clone()) {
        Ok(record) => record,
        Err(_) => panic!("a clean record was refused"),
    };
    let built = record.build();
    let under_b = |value: RichTerm| {
        record::Field::from(static_record(vec![("b", record::Field::from(value))]))
    };
    let expected: RichTerm = build_record(
        vec![
            (FieldPathElem::Ident(placeholder("a")), under_b(clean_record())),
            (FieldPathElem::Ident(placeholder("a")), under_b(second)),
        ],
        Default::default(),
    )
    .into();
    assert_eq!(built, expected);
}

use tagged_union::datum::{Datum, Kind};
use tagged_union::error::ModelError;
use tagged_union::optional::{Optional, UnwrapFailure};
use tagged_union::pattern::{FieldPattern, Pattern};
use tagged_union::schema::{Enumeration, VariantDecl};
use tagged_union::shape::Shape;

/// V4(text), V6(text), V4Tuple(n, n, n, n): tags 0 to 2.
fn address() -> Enumeration {
    let variants = vec![
        VariantDecl { name: String::from("V4"), shape: Shape::Single(Kind::Text) },
        VariantDecl { name: String::from("V6"), shape: Shape::Single(Kind::Text) },
        VariantDecl {
            name: String::from("V4Tuple"),
            shape: Shape::Tuple(vec![Kind::Int, Kind::Int, Kind::Int, Kind::Int]),
        },
    ];
    Enumeration::new(variants).unwrap()
}

fn octets(a: i64, b: i64, c: i64, d: i64) -> Vec<Datum> {
    vec![Datum::number(a), Datum::number(b), Datum::number(c), Datum::number(d)]
}

#[test]
fn field_pattern_accepts() {
    assert!(FieldPattern::Any.accepts(&Datum::number(1)));
    assert!(FieldPattern::Bind.accepts(&Datum::text("x")));
    assert!(FieldPattern::Literal(Datum::number(3)).accepts(&Datum::number(3)));
    assert!(!FieldPattern::Literal(Datum::number(3)).accepts(&Datum::number(4)));
    assert!(!FieldPattern::Literal(Datum::number(3)).accepts(&Datum::text("3")));
}

#[test]
fn wildcard_accepts_every_instance_and_binds_nothing() {
    let schema = address();
    let home = schema.single(0, Datum::text("127.0.0.1")).unwrap();
    let tuple = schema.tuple(2, octets(127, 0, 0, 1)).unwrap();
    assert!(Pattern::Wildcard.accepts(&home));
    assert!(Pattern::Wildcard.accepts(&tuple));
    assert_eq!(Pattern::Wildcard.extract(&tuple), Optional::Present(vec![]));
}

#[test]
fn variant_pattern_accepts_its_own_tag_only() {
    let schema = address();
    let home = schema.single(0, Datum::text("127.0.0.1")).unwrap();
    let loopback = schema.single(1, Datum::text("::1")).unwrap();
    let v4 = Pattern::Variant { tag: 0, fields: vec![FieldPattern::Bind] };
    assert!(v4.accepts(&home));
    assert!(!v4.accepts(&loopback));
    assert_eq!(v4.extract(&loopback), Optional::Absent);
}

#[test]
fn variant_pattern_with_the_wrong_number_of_fields_accepts_nothing() {
    let schema = address();
    let home = schema.single(0, Datum::text("127.0.0.1")).unwrap();
    let none = Pattern::Variant { tag: 0, fields: vec![] };
    let two = Pattern::Variant { tag: 0, fields: vec![FieldPattern::Any, FieldPattern::Any] };
    assert!(!none.accepts(&home));
    assert!(!two.accepts(&home));
}

#[test]
fn literal_sub_pattern_asks_for_its_value() {
    let schema = address();
    let tuple = schema.tuple(2, octets(127, 0, 0, 1)).unwrap();
    let local = Pattern::Variant {
        tag: 2,
        fields: vec![
            FieldPattern::Literal(Datum::number(127)),
            FieldPattern::Any,
            FieldPattern::Any,
            FieldPattern::Bind,
        ],
    };
    let private = Pattern::Variant {
        tag: 2,
        fields: vec![
            FieldPattern::Literal(Datum::number(10)),
            FieldPattern::Any,
            FieldPattern::Any,
            FieldPattern::Bind,
        ],
    };
    assert!(local.accepts(&tuple));
    assert!(!private.accepts(&tuple));
    assert_eq!(local.extract(&tuple), Optional::Present(vec![Datum::number(1)]));
    assert_eq!(private.extract(&tuple), Optional::Absent);
}

#[test]
fn extract_gives_the_bound_fields_in_payload_order() {
    let schema = address();
    let tuple = schema.tuple(2, octets(192, 168, 7, 9)).unwrap();
    let all = Pattern::Variant {
        tag: 2,
        fields: vec![FieldPattern::Bind, FieldPattern::Bind, FieldPattern::Bind, FieldPattern::Bind],
    };
    assert_eq!(all.extract(&tuple), Optional::Present(octets(192, 168, 7, 9)));
    let outer = Pattern::Variant {
        tag: 2,
        fields: vec![FieldPattern::Bind, FieldPattern::Any, FieldPattern::Any, FieldPattern::Bind],
    };
    assert_eq!(outer.extract(&tuple), Optional::Present(vec![Datum::number(192), Datum::number(9)]));
    let nothing = Pattern::Variant {
        tag: 2,
        fields: vec![FieldPattern::Any, FieldPattern::Any, FieldPattern::Any, FieldPattern::Any],
    };
    assert_eq!(nothing.extract(&tuple), Optional::Present(vec![]));
}

#[test]
fn covers_holds_for_wildcard_and_for_patterns_without_literal() {
    assert!(Pattern::Wildcard.covers(0));
    assert!(Pattern::Wildcard.covers(17));
    let v4 = Pattern::Variant { tag: 0, fields: vec![FieldPattern::Bind] };
    assert!(v4.covers(0));
    assert!(!v4.covers(1));
    let any = Pattern::Variant { tag: 1, fields: vec![FieldPattern::Any] };
    assert!(any.covers(1));
    let literal = Pattern::Variant { tag: 0, fields: vec![FieldPattern::Literal(Datum::text("::1"))] };
    assert!(!literal.covers(0));
    let late_literal = Pattern::Variant {
        tag: 2,
        fields: vec![
            FieldPattern::Any,
            FieldPattern::Bind,
            FieldPattern::Any,
            FieldPattern::Literal(Datum::number(1)),
        ],
    };
    assert!(!late_literal.covers(2));
}

#[test]
fn check_accepts_well_typed_patterns() {
    let schema = address();
    assert_eq!(Pattern::Wildcard.check(&schema), Ok(()));
    assert_eq!(Pattern::Variant { tag: 0, fields: vec![FieldPattern::Bind] }.check(&schema), Ok(()));
    assert_eq!(
        Pattern::Variant { tag: 1, fields: vec![FieldPattern::Literal(Datum::text("::1"))] }.check(&schema),
        Ok(())
    );
    assert_eq!(
        Pattern::Variant {
            tag: 2,
            fields: vec![
                FieldPattern::Literal(Datum::number(127)),
                FieldPattern::Any,
                FieldPattern::Any,
                FieldPattern::Bind
            ]
        }
        .check(&schema),
        Ok(())
    );
}

#[test]
fn check_refuses_an_undeclared_variant() {
    let schema = address();
    let stray = Pattern::Variant { tag: 3, fields: vec![] };
    assert_eq!(stray.check(&schema), Err(ModelError::UnknownVariant));
}

#[test]
fn check_refuses_a_wrong_field_count_and_a_literal_of_another_type() {
    let schema = address();
    let short = Pattern::Variant { tag: 2, fields: vec![FieldPattern::Bind] };
    assert_eq!(short.check(&schema), Err(ModelError::TypeMismatch));
    let long = Pattern::Variant { tag: 0, fields: vec![FieldPattern::Bind, FieldPattern::Bind] };
    assert_eq!(long.check(&schema), Err(ModelError::TypeMismatch));
    let number_for_text = Pattern::Variant { tag: 0, fields: vec![FieldPattern::Literal(Datum::number(127))] };
    assert_eq!(number_for_text.check(&schema), Err(ModelError::TypeMismatch));
    let text_for_number = Pattern::Variant {
        tag: 2,
        fields: vec![
            FieldPattern::Any,
            FieldPattern::Any,
            FieldPattern::Any,
            FieldPattern::Literal(Datum::text("1")),
        ],
    };
    assert_eq!(text_for_number.check(&schema), Err(ModelError::TypeMismatch));
}

#[test]
fn extract_of_a_non_matching_instance_fails_when_unwrapped() {
    let schema = address();
    let loopback = schema.single(1, Datum::text("::1")).unwrap();
    let v4 = Pattern::Variant { tag: 0, fields: vec![FieldPattern::Bind] };
    let v6 = Pattern::Variant { tag: 1, fields: vec![FieldPattern::Bind] };
    assert_eq!(v4.extract(&loopback).unwrap_or_fail("not a V4 address"), Err(UnwrapFailure { error: "not a V4 address" }));
    assert_eq!(v6.extract(&loopback).unwrap_or_fail("not a V6 address"), Ok(vec![Datum::text("::1")]));
    assert_eq!(v4.extract(&loopback).unwrap_or(vec![]), vec![]);
}

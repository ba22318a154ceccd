use bschema::array::BArray;
use bschema::boolean::BBoolean;
use bschema::common::get_btype_base;
use bschema::common::parse_btype;
use bschema::error::ErrorKind;
use bschema::null::BNull;
use bschema::number::BNumber;
use bschema::object::BObject;
use bschema::string::BString;
use bschema::tuple::BTuple;
use bschema::undefined::BUndefined;
use bschema::union::BUnion;
use bschema::value::Value;
use bschema::BValueBase;

fn s(text: &str) -> Value {
    Value::String(text.to_string())
}

fn record(entries: Vec<(&str, Value)>) -> Value {
    Value::Record(entries.into_iter().map(|(k, v)| (k.to_string(), v)).collect())
}

#[test]
fn primitive_parse_is_idempotent_on_accepted_values() {
    let number = BNumber::default().min(0);
    let once = number.parse(&Value::Number(7)).unwrap();
    let twice = number.parse(&once).unwrap();
    assert_eq!(once, Value::Number(7));
    assert_eq!(twice, once);

    let string = BString::default().max(10);
    let once = string.parse(&s("hey")).unwrap();
    let twice = string.parse(&once).unwrap();
    assert_eq!(twice, once);

    let boolean = BBoolean::default().is_true();
    let once = boolean.parse(&Value::Boolean(true)).unwrap();
    let twice = boolean.parse(&once).unwrap();
    assert_eq!(twice, once);
}

#[test]
fn optional_accepts_absent_before_any_constraint() {
    let number = BNumber::default().min(10).optional();
    assert_eq!(number.parse(&Value::Undefined).unwrap(), Value::Undefined);
    // The same schema still rejects a number below the bound.
    let err = number.parse(&Value::Number(3)).unwrap_err();
    assert_eq!(err.kind, ErrorKind::InvalidArgument);
    assert_eq!(err.reason, "Number is lower than minimum");
}

#[test]
fn nullable_accepts_null_before_any_constraint() {
    let string = BString::default().length(5).nullable();
    assert_eq!(string.parse(&Value::Null).unwrap(), Value::Null);
    let required = BString::default().length(5);
    let err = required.parse(&Value::Null).unwrap_err();
    assert_eq!(err.kind, ErrorKind::InvalidArgument);
    assert_eq!(err.reason, "Got Null for non nullable value");
}

#[test]
fn required_value_cannot_be_absent() {
    let number = BNumber::default();
    let err = number.parse(&Value::Undefined).unwrap_err();
    assert_eq!(err.kind, ErrorKind::InvalidArgument);
    assert_eq!(err.reason, "Got undefined for required value");
}

#[test]
fn string_exact_length_overrides_bounds() {
    let schema = BString::default().length(5).min(1);
    let err = schema.parse(&s("a")).unwrap_err();
    assert_eq!(err.kind, ErrorKind::InvalidArgument);
    assert_eq!(err.reason, "String length (1) does not equal expected length (5)");
    // A five-character string passes even though another bound would fail it.
    let tight = BString::default().length(5).max(2);
    assert_eq!(tight.parse(&s("hello")).unwrap(), s("hello"));
}

#[test]
fn string_length_counts_utf8_bytes() {
    // U+00E9 is one character but two bytes of UTF-8.
    let two = BString::default().length(2);
    assert_eq!(two.parse(&s("\u{e9}")).unwrap(), s("\u{e9}"));
    let one = BString::default().length(1);
    assert_eq!(
        one.parse(&s("\u{e9}")).unwrap_err().reason,
        "String length (2) does not equal expected length (1)"
    );
    // Bounds use the same unit: one two-byte character plus one ASCII byte
    // exceeds a maximum of 2.
    let capped = BString::default().max(2);
    assert_eq!(
        capped.parse(&s("\u{e9}a")).unwrap_err().reason,
        "String length is higher than maximum"
    );
    let floor = BString::default().min(2);
    assert_eq!(floor.parse(&s("\u{e9}")).unwrap(), s("\u{e9}"));
}

#[test]
fn string_bounds_apply_without_exact_length() {
    let schema = BString::default().min(2).max(4);
    assert_eq!(
        schema.parse(&s("a")).unwrap_err().reason,
        "String length is lower than minimum"
    );
    assert_eq!(
        schema.parse(&s("hello")).unwrap_err().reason,
        "String length is higher than maximum"
    );
    assert_eq!(schema.parse(&s("hey")).unwrap(), s("hey"));
}

#[test]
fn array_exact_length_overrides_bounds() {
    let schema = BArray::from_wrapped(&BNumber::default().to_wrapped())
        .length(5)
        .min(1);
    let err = schema
        .parse(&Value::Sequence(vec![Value::Number(1)]))
        .unwrap_err();
    assert_eq!(err.kind, ErrorKind::InvalidArgument);
    assert_eq!(err.reason, "Array length (1) does not equal expected length (5)");
}

#[test]
fn array_validates_every_element_in_order() {
    let schema = BArray::from_wrapped(&BNumber::default().min(0).to_wrapped());
    let ok = schema
        .parse(&Value::Sequence(vec![Value::Number(1), Value::Number(2)]))
        .unwrap();
    assert_eq!(ok, Value::Sequence(vec![Value::Number(1), Value::Number(2)]));
    let err = schema
        .parse(&Value::Sequence(vec![Value::Number(1), Value::Number(-2)]))
        .unwrap_err();
    assert_eq!(err.kind, ErrorKind::InvalidArgument);
    assert_eq!(err.reason, "Number is lower than minimum");
    let err = schema.parse(&Value::Boolean(true)).unwrap_err();
    assert_eq!(err.kind, ErrorKind::TypeMismatch);
    assert_eq!(err.reason, "Array expected");
}

#[test]
fn empty_array_passes_without_bounds() {
    let schema = BArray::from_wrapped(&BNumber::default().to_wrapped());
    assert_eq!(schema.parse(&Value::Sequence(vec![])).unwrap(), Value::Sequence(vec![]));
}

#[test]
fn tuple_requires_exact_length() {
    let schema = BTuple::from_wrapped(&vec![
        BNumber::default().to_wrapped(),
        BString::default().to_wrapped(),
    ]);
    let err = schema
        .parse(&Value::Sequence(vec![
            Value::Number(1),
            s("two"),
            Value::Boolean(true),
        ]))
        .unwrap_err();
    assert_eq!(err.kind, ErrorKind::InvalidArgument);
    assert_eq!(err.reason, "Tuple length (3) does not equal expected length (2)");
    let ok = schema
        .parse(&Value::Sequence(vec![Value::Number(1), s("two")]))
        .unwrap();
    assert_eq!(ok, Value::Sequence(vec![Value::Number(1), s("two")]));
}

#[test]
fn tuple_checks_positions_in_order() {
    let schema = BTuple::from_wrapped(&vec![
        BNumber::default().to_wrapped(),
        BString::default().to_wrapped(),
    ]);
    let err = schema
        .parse(&Value::Sequence(vec![s("one"), Value::Number(2)]))
        .unwrap_err();
    assert_eq!(err.kind, ErrorKind::TypeMismatch);
    assert_eq!(err.reason, "Number expected");
}

#[test]
fn union_first_match_wins() {
    let schema = BUnion::from_wrapped(&vec![
        BNumber::default().min(0).to_wrapped(),
        BNumber::default().max(100).to_wrapped(),
    ]);
    // Both alternatives accept 50; the first one answers.
    assert_eq!(schema.parse(&Value::Number(50)).unwrap(), Value::Number(50));
    // Only the second accepts a negative number.
    assert_eq!(schema.parse(&Value::Number(-3)).unwrap(), Value::Number(-3));
    // Neither accepts a value above both bounds when reversed.
    let none = BUnion::from_wrapped(&vec![
        BNumber::default().min(200).to_wrapped(),
        BNumber::default().max(100).to_wrapped(),
    ]);
    let err = none.parse(&Value::Number(150)).unwrap_err();
    assert_eq!(err.kind, ErrorKind::InvalidArgument);
    assert_eq!(err.reason, "Value did not match any of the Union types");
}

#[test]
fn union_tries_next_alternative_after_type_mismatch() {
    let schema = BUnion::from_wrapped(&vec![
        BString::default().to_wrapped(),
        BNumber::default().to_wrapped(),
    ]);
    assert_eq!(schema.parse(&Value::Number(5)).unwrap(), Value::Number(5));
    assert_eq!(schema.parse(&s("five")).unwrap(), s("five"));
}

#[test]
fn union_order_decides_observable_output() {
    let narrow = BObject::new(&vec![("a".to_string(), BNumber::default().to_wrapped())]);
    let wide = BObject::new(&vec![
        ("a".to_string(), BNumber::default().to_wrapped()),
        ("b".to_string(), BNumber::default().to_wrapped()),
    ]);
    let input = record(vec![("a", Value::Number(1)), ("b", Value::Number(2))]);
    // The narrow alternative first: it accepts and drops the undeclared key.
    let narrow_first = BUnion::from_wrapped(&vec![narrow.to_wrapped(), wide.to_wrapped()]);
    assert_eq!(
        narrow_first.parse(&input).unwrap(),
        record(vec![("a", Value::Number(1))])
    );
    // The wide alternative first: both keys survive.
    let wide_first = BUnion::from_wrapped(&vec![wide.to_wrapped(), narrow.to_wrapped()]);
    assert_eq!(
        wide_first.parse(&input).unwrap(),
        record(vec![("a", Value::Number(1)), ("b", Value::Number(2))])
    );
}

#[test]
fn empty_union_matches_nothing() {
    let schema = BUnion::from_wrapped(&vec![]);
    let err = schema.parse(&Value::Number(1)).unwrap_err();
    assert_eq!(err.reason, "Value did not match any of the Union types");
}

#[test]
fn strict_object_rejects_unknown_keys() {
    let schema = BObject::new(&vec![("a".to_string(), BNumber::default().to_wrapped())]);
    let input = record(vec![("a", Value::Number(1)), ("b", Value::Number(2))]);
    let err = schema.strict().parse(&input).unwrap_err();
    assert_eq!(err.kind, ErrorKind::InvalidArgument);
    assert_eq!(err.reason, "Unknown key(s) [b] in strict object");
    // The same schema without strict drops the unknown key from the output.
    let ok = schema.parse(&input).unwrap();
    assert_eq!(ok, record(vec![("a", Value::Number(1))]));
}

#[test]
fn strict_object_lists_every_unknown_key() {
    let schema = BObject::new(&vec![("a".to_string(), BNumber::default().to_wrapped())]).strict();
    let input = record(vec![
        ("a", Value::Number(1)),
        ("b", Value::Number(2)),
        ("c", Value::Number(3)),
    ]);
    let err = schema.parse(&input).unwrap_err();
    assert_eq!(err.reason, "Unknown key(s) [b, c] in strict object");
}

#[test]
fn object_missing_optional_field_is_skipped() {
    let schema = BObject::new(&vec![
        ("a".to_string(), BNumber::default().to_wrapped()),
        ("b".to_string(), BNumber::default().optional().to_wrapped()),
    ]);
    let ok = schema.parse(&record(vec![("a", Value::Number(1))])).unwrap();
    assert_eq!(ok, record(vec![("a", Value::Number(1))]));
}

#[test]
fn object_missing_required_field_fails() {
    let schema = BObject::new(&vec![
        ("a".to_string(), BNumber::default().to_wrapped()),
        ("b".to_string(), BNumber::default().to_wrapped()),
    ]);
    let err = schema.parse(&record(vec![("a", Value::Number(1))])).unwrap_err();
    assert_eq!(err.kind, ErrorKind::InvalidArgument);
    assert_eq!(err.reason, "Object missing required key 'b'");
}

#[test]
fn object_rejects_non_record_values() {
    let schema = BObject::new(&vec![("a".to_string(), BNumber::default().to_wrapped())]);
    let err = schema.parse(&Value::Number(1)).unwrap_err();
    assert_eq!(err.kind, ErrorKind::TypeMismatch);
    assert_eq!(err.reason, "Object expected");
}

#[test]
fn nested_object_failure_propagates() {
    let address = BObject::new(&vec![("zip".to_string(), BString::default().to_wrapped())]);
    let person = BObject::new(&vec![
        ("name".to_string(), BString::default().to_wrapped()),
        ("address".to_string(), address.to_wrapped()),
    ]);
    let input = record(vec![
        ("name", s("ada")),
        ("address", record(vec![("zip", Value::Number(12))])),
    ]);
    let err = person.parse(&input).unwrap_err();
    assert_eq!(err.kind, ErrorKind::TypeMismatch);
    assert_eq!(err.reason, "String expected");
}

#[test]
fn undefined_and_null_schemas() {
    let undefined = BUndefined::default();
    assert_eq!(undefined.parse(&Value::Undefined).unwrap(), Value::Undefined);
    let err = undefined.parse(&Value::Number(1)).unwrap_err();
    assert_eq!(err.kind, ErrorKind::TypeMismatch);

    let null = BNull::default();
    assert_eq!(null.parse(&Value::Null).unwrap(), Value::Null);
    let err = null.parse(&s("null")).unwrap_err();
    assert_eq!(err.kind, ErrorKind::TypeMismatch);
    assert_eq!(err.reason, "Null expected");
}

#[test]
fn boolean_literal_constraints() {
    let yes = BBoolean::default().is_true();
    assert_eq!(yes.parse(&Value::Boolean(true)).unwrap(), Value::Boolean(true));
    let err = yes.parse(&Value::Boolean(false)).unwrap_err();
    assert_eq!(err.kind, ErrorKind::InvalidArgument);
    assert_eq!(err.reason, "Boolean did not match expected value 'true'");

    let no = BBoolean::default().is_false();
    let err = no.parse(&Value::Boolean(true)).unwrap_err();
    assert_eq!(err.reason, "Boolean did not match expected value 'false'");
    let err = no.parse(&Value::Number(0)).unwrap_err();
    assert_eq!(err.kind, ErrorKind::TypeMismatch);
    assert_eq!(err.reason, "Boolean expected");
}

#[test]
fn number_bounds_and_sugar() {
    let positive = BNumber::default().positive();
    assert_eq!(positive.parse(&Value::Number(0)).unwrap(), Value::Number(0));
    assert_eq!(
        positive.parse(&Value::Number(-1)).unwrap_err().reason,
        "Number is lower than minimum"
    );
    let negative = BNumber::default().negative();
    assert_eq!(negative.parse(&Value::Number(0)).unwrap(), Value::Number(0));
    assert_eq!(
        negative.parse(&Value::Number(1)).unwrap_err().reason,
        "Number is higher than maximum"
    );
}

#[test]
fn dispatch_routes_every_variant() {
    let schemas = vec![
        BUndefined::default().to_wrapped(),
        BNull::default().to_wrapped(),
        BBoolean::default().to_wrapped(),
        BNumber::default().to_wrapped(),
        BString::default().to_wrapped(),
    ];
    let values = vec![
        Value::Undefined,
        Value::Null,
        Value::Boolean(true),
        Value::Number(9),
        s("x"),
    ];
    for (w, v) in schemas.iter().zip(values.iter()) {
        assert_eq!(&parse_btype(&w.inner, v).unwrap(), v);
    }
}

#[test]
fn base_defaults_by_variant() {
    assert_eq!(BValueBase::default(), BValueBase { optional: false, nullable: false });
    assert!(BUndefined::default().get_base().optional);
    assert!(!BUndefined::default().get_base().nullable);
    assert!(BNull::default().get_base().nullable);
    assert!(!BNull::default().get_base().optional);
    let w = BNumber::default().to_wrapped();
    assert_eq!(*get_btype_base(&w.inner), BValueBase { optional: false, nullable: false });
}

use bschema::boolean::BBoolean;
use bschema::number::BNumber;
use bschema::object::BObject;
use bschema::string::BString;
use bschema::union::BUnion;
use bschema::value::Value;

fn s(text: &str) -> Value {
    Value::String(text.to_string())
}

fn record(entries: Vec<(&str, Value)>) -> Value {
    Value::Record(entries.into_iter().map(|(k, v)| (k.to_string(), v)).collect())
}

#[test]
fn builders_never_mutate_the_receiver() {
    let base = BNumber::default();
    let bounded = base.min(10);
    // The receiver still accepts what the refined schema rejects.
    assert!(base.parse(&Value::Number(1)).is_ok());
    assert!(bounded.parse(&Value::Number(1)).is_err());

    let strictless = BObject::new(&vec![("a".to_string(), BNumber::default().to_wrapped())]);
    let strict = strictless.strict();
    let input = record(vec![("a", Value::Number(1)), ("b", Value::Number(2))]);
    assert!(strictless.parse(&input).is_ok());
    assert!(strict.parse(&input).is_err());
    assert!(strict.un_strict().parse(&input).is_ok());
}

#[test]
fn nullish_required_non_nullable_flags() {
    let schema = BNumber::default().nullish();
    assert!(schema.parse(&Value::Undefined).is_ok());
    assert!(schema.parse(&Value::Null).is_ok());
    let required = schema.required();
    assert!(required.parse(&Value::Undefined).is_err());
    assert!(required.parse(&Value::Null).is_ok());
    let neither = required.non_nullable();
    assert!(neither.parse(&Value::Null).is_err());
    assert!(neither.parse(&Value::Number(1)).is_ok());
}

#[test]
fn merge_right_operand_wins_field_collisions() {
    let left = BObject::new(&vec![("x".to_string(), BNumber::default().to_wrapped())]);
    let right = BObject::new(&vec![("x".to_string(), BString::default().to_wrapped())]);
    let merged = left.merge(&right);
    assert!(merged.parse(&record(vec![("x", s("word"))])).is_ok());
    assert!(merged.parse(&record(vec![("x", Value::Number(1))])).is_err());
    // The left operand keeps fields the right one does not mention.
    let wide = BObject::new(&vec![
        ("x".to_string(), BNumber::default().to_wrapped()),
        ("y".to_string(), BBoolean::default().to_wrapped()),
    ]);
    let merged = wide.merge(&right);
    let ok = merged
        .parse(&record(vec![("x", s("w")), ("y", Value::Boolean(true))]))
        .unwrap();
    assert_eq!(ok, record(vec![("x", s("w")), ("y", Value::Boolean(true))]));
}

#[test]
fn merge_resets_modifiers_to_required_non_nullable() {
    let left = BObject::new(&vec![("x".to_string(), BNumber::default().to_wrapped())]);
    let merged = left.optional().nullable().merge(&BObject::new(&vec![]));
    assert!(merged.parse(&Value::Undefined).is_err());
    assert!(merged.parse(&Value::Null).is_err());
    assert!(merged.parse(&record(vec![("x", Value::Number(1))])).is_ok());
}

#[test]
fn object_new_keeps_last_schema_for_repeated_name() {
    let schema = BObject::new(&vec![
        ("x".to_string(), BNumber::default().to_wrapped()),
        ("x".to_string(), BString::default().to_wrapped()),
    ]);
    assert!(schema.parse(&record(vec![("x", s("later"))])).is_ok());
    assert!(schema.parse(&record(vec![("x", Value::Number(1))])).is_err());
}

#[test]
fn union_merge_appends_alternatives_in_order() {
    let left = BUnion::from_wrapped(&vec![BNumber::default().min(0).to_wrapped()]);
    let right = BUnion::from_wrapped(&vec![BNumber::default().max(100).to_wrapped()]);
    let merged = left.merge(&right);
    assert!(merged.parse(&Value::Number(-5)).is_ok());
    assert!(merged.parse(&Value::Number(50)).is_ok());
    assert!(left.parse(&Value::Number(-5)).is_err());
}

#[test]
fn parse_safe_success_shape() {
    let schema = BNumber::default().min(0);
    let res = schema.parse_safe(&Value::Number(4));
    assert!(res.success);
    assert_eq!(res.data, Some(Value::Number(4)));
    assert!(res.reason.is_none());
}

#[test]
fn parse_safe_failure_shape() {
    let schema = BNumber::default().min(0);
    let res = schema.parse_safe(&Value::Number(-4));
    assert!(!res.success);
    assert!(res.data.is_none());
    let reason = res.reason.expect("failure carries a reason");
    assert!(!reason.is_empty());
    assert_eq!(reason, "Number is lower than minimum");
}

#[test]
fn parse_safe_never_panics_across_variants() {
    let values = vec![
        Value::Undefined,
        Value::Null,
        Value::Boolean(false),
        Value::Number(0),
        s(""),
        Value::Sequence(vec![Value::Null]),
        record(vec![("k", Value::Null)]),
    ];
    let object = BObject::new(&vec![("k".to_string(), BNumber::default().to_wrapped())]);
    let union = BUnion::from_wrapped(&vec![
        BNumber::default().to_wrapped(),
        BString::default().to_wrapped(),
    ]);
    for v in &values {
        for res in [
            BNumber::default().parse_safe(v),
            BString::default().parse_safe(v),
            object.parse_safe(v),
            union.parse_safe(v),
        ] {
            if res.success {
                assert!(res.data.is_some());
                assert!(res.reason.is_none());
            } else {
                assert!(res.data.is_none());
                assert!(!res.reason.unwrap().is_empty());
            }
        }
    }
}

#[test]
fn empty_string_and_zero_length() {
    let schema = BString::default().length(0);
    assert!(schema.parse(&s("")).is_ok());
    assert_eq!(
        schema.parse(&s("x")).unwrap_err().reason,
        "String length (1) does not equal expected length (0)"
    );
}

#[test]
fn empty_tuple_accepts_only_empty_sequences() {
    let schema = bschema::tuple::BTuple::from_wrapped(&vec![]);
    assert!(schema.parse(&Value::Sequence(vec![])).is_ok());
    assert_eq!(
        schema.parse(&Value::Sequence(vec![Value::Null])).unwrap_err().reason,
        "Tuple length (1) does not equal expected length (0)"
    );
}

#[test]
fn optional_elements_inside_composites() {
    // An array whose element schema allows null lets null elements through.
    let schema = bschema::array::BArray::from_wrapped(
        &BNumber::default().nullable().to_wrapped(),
    );
    let input = Value::Sequence(vec![Value::Number(1), Value::Null]);
    assert_eq!(schema.parse(&input).unwrap(), input);
}

#[test]
fn union_of_unions_nests() {
    let inner = BUnion::from_wrapped(&vec![BNumber::default().min(0).to_wrapped()]);
    let outer = BUnion::from_wrapped(&vec![
        inner.to_wrapped(),
        BString::default().to_wrapped(),
    ]);
    assert!(outer.parse(&Value::Number(3)).is_ok());
    assert!(outer.parse(&s("deep")).is_ok());
    assert!(outer.parse(&Value::Boolean(true)).is_err());
}

#[test]
fn skip_parse_reports_the_modifier_verdict() {
    let base = bschema::BValueBase::default();
    assert!(base.skip_parse(&Value::Undefined).is_err());
    assert!(base.skip_parse(&Value::Null).is_err());
    assert_eq!(base.skip_parse(&Value::Number(1)).unwrap(), false);
    let lax = BNumber::default().nullish();
    assert_eq!(lax.get_base().skip_parse(&Value::Undefined).unwrap(), true);
    assert_eq!(lax.get_base().skip_parse(&Value::Null).unwrap(), true);
}

#[test]
fn schemas_are_reusable_and_clonable() {
    let schema = BObject::new(&vec![("a".to_string(), BNumber::default().to_wrapped())]).strict();
    let copy = schema.clone();
    let input = record(vec![("a", Value::Number(1))]);
    assert_eq!(schema.parse(&input).unwrap(), copy.parse(&input).unwrap());
}

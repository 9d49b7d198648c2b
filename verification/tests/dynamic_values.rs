use cyclonedds::{
    DdsError, DynamicEnumLiteralSchema, DynamicFieldSchema, DynamicPrimitiveKind,
    DynamicTypeSchema, DynamicUnionCaseSchema, DynamicValue,
};

fn field(name: &str, value: DynamicTypeSchema, optional: bool) -> DynamicFieldSchema {
    DynamicFieldSchema {
        name: name.to_string(),
        member_id: 0,
        value,
        optional,
        key: false,
        external: false,
        must_understand: false,
        hash_id_name: None,
    }
}

fn int32() -> DynamicTypeSchema {
    DynamicTypeSchema::Primitive(DynamicPrimitiveKind::Int32)
}

fn point() -> DynamicTypeSchema {
    DynamicTypeSchema::Struct {
        name: "Point".to_string(),
        base: None,
        fields: vec![field("x", int32(), false), field("y", int32(), true)],
        extensibility: None,
        autoid: None,
        nested: false,
    }
}

fn color() -> DynamicTypeSchema {
    DynamicTypeSchema::Enum {
        name: "Color".to_string(),
        literals: vec![
            DynamicEnumLiteralSchema { name: "Red".to_string(), value: 3, default: false },
            DynamicEnumLiteralSchema { name: "Green".to_string(), value: 5, default: true },
        ],
        bit_bound: None,
    }
}

fn choice() -> DynamicTypeSchema {
    DynamicTypeSchema::Union {
        name: "Choice".to_string(),
        discriminator: Box::new(int32()),
        cases: vec![
            DynamicUnionCaseSchema {
                name: "a".to_string(),
                member_id: 0,
                value: int32(),
                labels: vec![1],
                default: false,
                external: false,
                hash_id_name: None,
            },
            DynamicUnionCaseSchema {
                name: "b".to_string(),
                member_id: 1,
                value: DynamicTypeSchema::String { bound: None },
                labels: vec![2, 3],
                default: false,
                external: false,
                hash_id_name: None,
            },
        ],
        autoid: None,
        nested: false,
    }
}

#[test]
fn primitives_must_match_their_kind() {
    assert!(DynamicValue::Int32(1).validate_against(&int32()).is_ok());
    assert!(matches!(
        DynamicValue::Int64(1).validate_against(&int32()),
        Err(DdsError::BadParameter(_))
    ));
    assert!(DynamicValue::Null.validate_against(&int32()).is_ok());
}

#[test]
fn string_bound_counts_bytes() {
    let s = DynamicTypeSchema::String { bound: Some(3) };
    assert!(DynamicValue::String("abc".into()).validate_against(&s).is_ok());
    assert!(DynamicValue::String("abcd".into()).validate_against(&s).is_err());
    // Two characters, four bytes.
    assert!(DynamicValue::String("éé".into()).validate_against(&s).is_err());
}

#[test]
fn arrays_need_the_flattened_length() {
    let a = DynamicTypeSchema::Array {
        name: "A".into(),
        bounds: vec![2, 3],
        element: Box::new(int32()),
    };
    let six = DynamicValue::Array((0..6).map(DynamicValue::Int32).collect());
    let five = DynamicValue::Array((0..5).map(DynamicValue::Int32).collect());
    assert!(six.validate_against(&a).is_ok());
    assert!(five.validate_against(&a).is_err());
    assert_eq!(a.default_value(), six_zeros());
}

fn six_zeros() -> DynamicValue {
    DynamicValue::Array(vec![DynamicValue::Int32(0); 6])
}

#[test]
fn structs_need_required_members() {
    let p = point();
    let ok = DynamicValue::Struct(vec![("x".into(), DynamicValue::Int32(1))]);
    assert!(ok.validate_against(&p).is_ok());
    let missing = DynamicValue::Struct(vec![("y".into(), DynamicValue::Int32(1))]);
    assert!(missing.validate_against(&p).is_err());
    let null_optional = DynamicValue::Struct(vec![
        ("x".into(), DynamicValue::Int32(1)),
        ("y".into(), DynamicValue::Null),
    ]);
    assert!(null_optional.validate_against(&p).is_ok());
}

#[test]
fn enums_need_a_declared_literal_within_the_bit_bound() {
    assert!(DynamicValue::Enum { value: 5 }.validate_against(&color()).is_ok());
    assert!(DynamicValue::Enum { value: 4 }.validate_against(&color()).is_err());
    let bounded = DynamicTypeSchema::Enum {
        name: "Small".into(),
        literals: vec![DynamicEnumLiteralSchema { name: "Big".into(), value: 9, default: false }],
        bit_bound: Some(3),
    };
    assert!(DynamicValue::Enum { value: 9 }.validate_against(&bounded).is_err());
    assert_eq!(color().default_value(), DynamicValue::Enum { value: 5 });
}

#[test]
fn bitmasks_respect_the_bit_bound() {
    let m = DynamicTypeSchema::Bitmask { name: "M".into(), fields: vec![], bit_bound: Some(4) };
    assert!(DynamicValue::Bitmask(15).validate_against(&m).is_ok());
    assert!(DynamicValue::Bitmask(16).validate_against(&m).is_err());
}

#[test]
fn unions_check_label_and_member() {
    let u = choice();
    assert!(DynamicValue::union(&u, 1, "a", DynamicValue::Int32(7)).is_ok());
    assert!(DynamicValue::union(&u, 2, "a", DynamicValue::Int32(7)).is_err());
    assert!(DynamicValue::union(&u, 3, "b", DynamicValue::String("s".into())).is_ok());
    assert!(DynamicValue::union(&u, 3, "c", DynamicValue::Int32(7)).is_err());
    let v = DynamicValue::union(&u, 1, "a", DynamicValue::Int32(7)).unwrap();
    assert_eq!(v.union_discriminator(), Some(1));
    assert_eq!(v.union_field_name(), Some("a"));
    assert_eq!(v.union_field_value(), Some(&DynamicValue::Int32(7)));
    assert_eq!(
        u.default_value(),
        DynamicValue::Union {
            discriminator: 1,
            field: "a".into(),
            value: Box::new(DynamicValue::Int32(0))
        }
    );
}

#[test]
fn aliases_are_looked_through() {
    let alias = DynamicTypeSchema::Alias { name: "Id".into(), target: Box::new(int32()) };
    assert!(DynamicValue::Int32(3).validate_against(&alias).is_ok());
    assert!(DynamicValue::Bool(true).validate_against(&alias).is_err());
    assert_eq!(alias.default_value(), DynamicValue::Int32(0));
}

#[test]
fn maps_check_bound_keys_and_values() {
    let m = DynamicTypeSchema::Mapping {
        name: "M".into(),
        bound: Some(1),
        key: Box::new(DynamicTypeSchema::String { bound: None }),
        value: Box::new(int32()),
    };
    let one = DynamicValue::Mapping(vec![(DynamicValue::String("k".into()), DynamicValue::Int32(1))]);
    assert!(one.validate_against(&m).is_ok());
    let two = DynamicValue::Mapping(vec![
        (DynamicValue::String("k".into()), DynamicValue::Int32(1)),
        (DynamicValue::String("l".into()), DynamicValue::Int32(2)),
    ]);
    assert!(two.validate_against(&m).is_err());
    let bad_key = DynamicValue::Mapping(vec![(DynamicValue::Int32(0), DynamicValue::Int32(1))]);
    assert!(bad_key.validate_against(&m).is_err());
}

#[test]
fn struct_defaults_include_base_members_and_null_optionals() {
    let derived = DynamicTypeSchema::Struct {
        name: "Derived".into(),
        base: Some(Box::new(point())),
        fields: vec![field("z", DynamicTypeSchema::String { bound: None }, false)],
        extensibility: None,
        autoid: None,
        nested: false,
    };
    assert_eq!(
        derived.default_value(),
        DynamicValue::Struct(vec![
            ("x".into(), DynamicValue::Int32(0)),
            ("y".into(), DynamicValue::Null),
            ("z".into(), DynamicValue::String(String::new())),
        ])
    );
    assert_eq!(derived.field("x").map(|f| f.name.as_str()), Some("x"));
    assert!(derived.field("w").is_none());
    assert_eq!(DynamicValue::new(&derived), derived.default_value());
}

#[test]
fn set_field_checks_and_replaces_in_place() {
    let p = point();
    let mut v = p.default_value();
    assert!(v.set_field(&p, "x", DynamicValue::Int32(4)).is_ok());
    assert_eq!(v.field("x"), Some(&DynamicValue::Int32(4)));
    assert!(v.set_field(&p, "x", DynamicValue::Bool(true)).is_err());
    assert_eq!(v.field("x"), Some(&DynamicValue::Int32(4)));
    assert!(v.set_field(&p, "q", DynamicValue::Int32(1)).is_err());
    // The other member is kept.
    assert_eq!(v.field("y"), Some(&DynamicValue::Null));
    assert_eq!(v.as_struct().unwrap().len(), 2);
}

#[test]
fn struct_members_come_in_name_order() {
    let s = DynamicTypeSchema::Struct {
        name: "Unordered".into(),
        base: None,
        fields: vec![
            field("zeta", int32(), false),
            field("alpha", int32(), false),
            field("Mid", int32(), true),
        ],
        extensibility: None,
        autoid: None,
        nested: false,
    };
    assert_eq!(
        s.default_value(),
        DynamicValue::Struct(vec![
            ("Mid".into(), DynamicValue::Null),
            ("alpha".into(), DynamicValue::Int32(0)),
            ("zeta".into(), DynamicValue::Int32(0)),
        ])
    );
}

#[test]
fn struct_values_do_not_depend_on_the_order_members_were_set() {
    let s = DynamicTypeSchema::Struct {
        name: "Pair".into(),
        base: None,
        fields: vec![field("b", int32(), false), field("a", int32(), false)],
        extensibility: None,
        autoid: None,
        nested: false,
    };
    let mut first = DynamicValue::Struct(Vec::new());
    assert!(first.set_field(&s, "b", DynamicValue::Int32(2)).is_ok());
    assert!(first.set_field(&s, "a", DynamicValue::Int32(1)).is_ok());
    let mut second = DynamicValue::Struct(Vec::new());
    assert!(second.set_field(&s, "a", DynamicValue::Int32(1)).is_ok());
    assert!(second.set_field(&s, "b", DynamicValue::Int32(2)).is_ok());
    assert_eq!(first, second);
    assert_eq!(
        first,
        DynamicValue::Struct(vec![("a".into(), DynamicValue::Int32(1)), ("b".into(), DynamicValue::Int32(2))])
    );
}

#[test]
fn push_respects_the_sequence_bound() {
    let s = DynamicTypeSchema::Sequence { name: "S".into(), bound: Some(2), element: Box::new(int32()) };
    let mut v = s.default_value();
    assert!(v.push(&s, DynamicValue::Int32(1)).is_ok());
    assert!(v.push(&s, DynamicValue::Bool(false)).is_err());
    assert!(v.push(&s, DynamicValue::Int32(2)).is_ok());
    assert!(v.push(&s, DynamicValue::Int32(3)).is_err());
    assert_eq!(v.as_sequence().unwrap().len(), 2);
    assert!(v.push(&int32(), DynamicValue::Int32(3)).is_err());
}

fn derived() -> DynamicTypeSchema {
    DynamicTypeSchema::Struct {
        name: "Derived".to_string(),
        base: Some(Box::new(point())),
        fields: vec![
            field("c", color(), false),
            field("u", choice(), false),
            field("tags", DynamicTypeSchema::Sequence {
                name: "Tags".into(),
                bound: Some(2),
                element: Box::new(int32()),
            }, false),
        ],
        extensibility: None,
        autoid: None,
        nested: false,
    }
}

#[test]
fn default_values_pass_validation() {
    for s in [int32(), point(), color(), choice(), derived()] {
        assert!(s.default_value().validate_against(&s).is_ok());
    }
}

#[test]
fn default_of_enum_without_literals_is_refused() {
    let empty = DynamicTypeSchema::Enum { name: "E".into(), literals: vec![], bit_bound: None };
    assert_eq!(empty.default_value(), DynamicValue::Enum { value: 0 });
    assert!(empty.default_value().validate_against(&empty).is_err());
}

#[test]
fn accepted_member_writes_keep_the_value_valid() {
    let s = derived();
    let mut v = s.default_value();
    v.set_field(&s, "x", DynamicValue::Int32(9)).unwrap();
    v.set_field(&s, "c", DynamicValue::Enum { value: 3 }).unwrap();
    assert!(v.set_field(&s, "c", DynamicValue::Enum { value: 4 }).is_err());
    v.set_field(&s, "y", DynamicValue::Null).unwrap();
    assert!(v.validate_against(&s).is_ok());
}

#[test]
fn accepted_pushes_keep_the_sequence_valid() {
    let s = DynamicTypeSchema::Sequence { name: "Q".into(), bound: Some(2), element: Box::new(int32()) };
    let mut v = s.default_value();
    v.push(&s, DynamicValue::Int32(1)).unwrap();
    v.push(&s, DynamicValue::Int32(2)).unwrap();
    assert!(v.validate_against(&s).is_ok());
    assert!(v.push(&s, DynamicValue::Int32(3)).is_err());
    assert!(v.validate_against(&s).is_ok());
}

#[test]
fn members_and_elements_can_be_changed_in_place() {
    let mut v = DynamicValue::Struct(vec![("x".into(), DynamicValue::Int32(1))]);
    v.as_struct_mut().unwrap()[0].1 = DynamicValue::Int32(7);
    assert_eq!(v.field("x"), Some(&DynamicValue::Int32(7)));
    assert!(DynamicValue::Int32(0).as_struct_mut().is_none());
    let mut a = DynamicValue::Array(vec![DynamicValue::Int32(1)]);
    a.as_sequence_mut().unwrap().push(DynamicValue::Int32(2));
    assert_eq!(a, DynamicValue::Array(vec![DynamicValue::Int32(1), DynamicValue::Int32(2)]));
    assert!(DynamicValue::Null.as_sequence_mut().is_none());
}

fn refusal(v: DynamicValue, s: &DynamicTypeSchema) -> String {
    match v.validate_against(s) {
        Err(DdsError::BadParameter(m)) => m,
        other => panic!("unexpected {other:?}"),
    }
}

#[test]
fn validation_refusals_say_why() {
    let s = DynamicTypeSchema::String { bound: Some(3) };
    assert_eq!(refusal(DynamicValue::String("abcd".into()), &s), "string length 4 exceeds bound 3");
    let q = DynamicTypeSchema::Sequence { name: "Q".into(), bound: Some(1), element: Box::new(int32()) };
    assert_eq!(
        refusal(DynamicValue::Sequence(vec![DynamicValue::Int32(1), DynamicValue::Int32(2)]), &q),
        "sequence length 2 exceeds bound 1"
    );
    let a = DynamicTypeSchema::Array { name: "A".into(), bounds: vec![2, 3], element: Box::new(int32()) };
    assert_eq!(
        refusal(DynamicValue::Array(vec![]), &a),
        "array value length 0 does not match expected flattened length 6"
    );
    assert_eq!(refusal(DynamicValue::Enum { value: -4 }, &color()), "enum value -4 not defined in schema");
    let bounded = DynamicTypeSchema::Enum {
        name: "B".into(),
        literals: vec![DynamicEnumLiteralSchema { name: "Big".into(), value: 300, default: false }],
        bit_bound: Some(8),
    };
    assert_eq!(refusal(DynamicValue::Enum { value: 300 }, &bounded), "enum value 300 exceeds bit bound 8");
    let m = DynamicTypeSchema::Bitmask { name: "M".into(), fields: vec![], bit_bound: Some(4) };
    assert_eq!(refusal(DynamicValue::Bitmask(16), &m), "bitmask value 16 exceeds bit bound 4");
    let u = choice();
    assert_eq!(
        refusal(
            DynamicValue::Union { discriminator: 1, field: "z".into(), value: Box::new(DynamicValue::Null) },
            &u
        ),
        "union field 'z' not defined in schema"
    );
    assert_eq!(
        refusal(
            DynamicValue::Union { discriminator: 9, field: "a".into(), value: Box::new(DynamicValue::Int32(1)) },
            &u
        ),
        "union discriminator 9 does not match field 'a'"
    );
}

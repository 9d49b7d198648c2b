use cyclonedds::dynamic_builder::{
    DynamicMemberBuilder, DynamicType, DynamicTypeBuilder, DynamicTypeSpec, DYNAMIC_MEMBER_ID_AUTO,
};
use cyclonedds::{
    DdsError, DynamicBitmaskFieldSchema, DynamicEnumLiteralSchema, DynamicEnumLiteralValue,
    DynamicPrimitiveKind, DynamicTypeExtensibility, DynamicTypeSchema,
};

#[test]
fn struct_builder_makes_an_empty_struct_schema() {
    let t = DynamicType::create(DynamicTypeBuilder::structure("Point").appendable().nested(true)).unwrap();
    assert_eq!(
        t.schema(),
        &DynamicTypeSchema::Struct {
            name: "Point".into(),
            base: None,
            fields: vec![],
            extensibility: Some(DynamicTypeExtensibility::Appendable),
            autoid: None,
            nested: true,
        }
    );
}

#[test]
fn members_are_appended_with_their_properties() {
    let mut t = DynamicType::create(DynamicTypeBuilder::structure("S")).unwrap();
    t.add_member(DynamicMemberBuilder::primitive("x", DynamicPrimitiveKind::Int32).id(1).key())
        .unwrap();
    t.add_member(DynamicMemberBuilder::primitive("y", DynamicPrimitiveKind::Int64)).unwrap();
    match t.schema() {
        DynamicTypeSchema::Struct { fields, .. } => {
            assert_eq!(fields.len(), 2);
            assert!(fields[0].key);
            assert_eq!(fields[0].member_id, 1);
            assert_eq!(fields[1].member_id, DYNAMIC_MEMBER_ID_AUTO);
        }
        other => panic!("unexpected {other:?}"),
    }
    // Properties need an explicit id.
    let r = t.add_member(DynamicMemberBuilder::primitive("z", DynamicPrimitiveKind::Int8).optional());
    assert!(matches!(r, Err(DdsError::BadParameter(_))));
    t.set_member_optional(1, true).unwrap();
    t.set_member_hash_id(1, "h").unwrap();
    match t.schema() {
        DynamicTypeSchema::Struct { fields, .. } => {
            assert_eq!(fields.len(), 2);
            assert!(fields[0].optional);
            assert_eq!(fields[0].hash_id_name.as_deref(), Some("h"));
        }
        other => panic!("unexpected {other:?}"),
    }
}

#[test]
fn enum_literals_take_the_next_value() {
    let mut t = DynamicType::create(DynamicTypeBuilder::enumeration("E")).unwrap();
    t.add_enum_literal("A", DynamicEnumLiteralValue::NextAvailable, false).unwrap();
    t.add_enum_literal("B", DynamicEnumLiteralValue::Explicit(10), true).unwrap();
    t.add_enum_literal("C", DynamicEnumLiteralValue::NextAvailable, false).unwrap();
    assert_eq!(
        t.schema(),
        &DynamicTypeSchema::Enum {
            name: "E".into(),
            literals: vec![
                DynamicEnumLiteralSchema { name: "A".into(), value: 0, default: false },
                DynamicEnumLiteralSchema { name: "B".into(), value: 10, default: true },
                DynamicEnumLiteralSchema { name: "C".into(), value: 11, default: false },
            ],
            bit_bound: None,
        }
    );
}

#[test]
fn bitmask_fields_take_the_next_position() {
    let mut t = DynamicType::create(DynamicTypeBuilder::bitmask("M").bit_bound(8)).unwrap();
    t.add_bitmask_field("a", None).unwrap();
    t.add_bitmask_field("b", Some(5)).unwrap();
    t.add_bitmask_field("c", None).unwrap();
    assert_eq!(
        t.schema(),
        &DynamicTypeSchema::Bitmask {
            name: "M".into(),
            fields: vec![
                DynamicBitmaskFieldSchema { name: "a".into(), position: 0 },
                DynamicBitmaskFieldSchema { name: "b".into(), position: 5 },
                DynamicBitmaskFieldSchema { name: "c".into(), position: 6 },
            ],
            bit_bound: Some(8),
        }
    );
}

#[test]
fn sequences_and_strings_take_their_first_bound() {
    let s = DynamicTypeBuilder::bounded_sequence(
        "S",
        DynamicTypeSpec::primitive(DynamicPrimitiveKind::UInt8),
        4,
    )
    .to_schema();
    assert_eq!(
        s,
        DynamicTypeSchema::Sequence {
            name: "S".into(),
            bound: Some(4),
            element: Box::new(DynamicTypeSchema::Primitive(DynamicPrimitiveKind::UInt8)),
        }
    );
    assert_eq!(
        DynamicTypeBuilder::unbounded_string8().to_schema(),
        DynamicTypeSchema::String { bound: None }
    );
    let inner = DynamicType::create(DynamicTypeBuilder::structure("Inner")).unwrap();
    let alias = DynamicTypeBuilder::alias("A", inner.as_spec()).to_schema();
    assert!(matches!(alias, DynamicTypeSchema::Alias { .. }));
}

#[test]
fn names_with_a_zero_byte_are_refused() {
    match DynamicType::create(DynamicTypeBuilder::structure("bad\0name")) {
        Err(DdsError::BadParameter(m)) => assert_eq!(m, "dynamic type name contains null"),
        _ => panic!("expected a refusal"),
    }
    let mut t = DynamicType::create(DynamicTypeBuilder::structure("S")).unwrap();
    let before = t.schema().clone();
    match t.add_member(DynamicMemberBuilder::primitive("a\0", DynamicPrimitiveKind::Int32)) {
        Err(DdsError::BadParameter(m)) => assert_eq!(m, "dynamic member name contains null"),
        other => panic!("unexpected {other:?}"),
    }
    assert_eq!(t.schema(), &before);
    match t.set_member_hash_id(1, "h\0") {
        Err(DdsError::BadParameter(m)) => assert_eq!(m, "hash member name contains null"),
        other => panic!("unexpected {other:?}"),
    }
    // A hashed-id name with a zero byte: the member is added, the call fails.
    let r = t.add_member(
        DynamicMemberBuilder::primitive("x", DynamicPrimitiveKind::Int32).id(4).hash_id("h\0"),
    );
    assert!(matches!(r, Err(DdsError::BadParameter(_))));
    match t.schema() {
        DynamicTypeSchema::Struct { fields, .. } => assert_eq!(fields.len(), 1),
        other => panic!("unexpected {other:?}"),
    }
    let mut e = DynamicType::create(DynamicTypeBuilder::enumeration("E")).unwrap();
    assert!(e.add_enum_literal("A\0", DynamicEnumLiteralValue::NextAvailable, false).is_err());
    let mut m = DynamicType::create(DynamicTypeBuilder::bitmask("M")).unwrap();
    assert!(m.add_bitmask_field("b\0", None).is_err());
}

use cyclonedds::type_discovery::{
    bounded_string_capacity, decode_bounded_string, parse_ops_to_fields,
    validate_data_for_native,
};
use cyclonedds::native_layout::{
    native_loads, native_stores, native_value, native_value_or_invalid, NativeLoad, NativeLoadAt,
    NativeRaw, NativeStore, NativeWrite,
};
use cyclonedds::{
    DdsError, DynamicData, DynamicFieldSchema, DynamicPrimitiveKind, DynamicTypeExtensibility,
    DynamicTypeSchema, DynamicValue, OP_ADR, OP_FLAG_FP, OP_FLAG_SGN, TYPE_4BY, TYPE_8BY,
    TYPE_BST, TYPE_STR,
};

fn dynamic_field(name: &str, member_id: u32, kind: DynamicPrimitiveKind) -> DynamicFieldSchema {
    DynamicFieldSchema {
        name: name.to_string(),
        member_id,
        value: DynamicTypeSchema::Primitive(kind),
        optional: false,
        key: false,
        external: false,
        must_understand: false,
        hash_id_name: None,
    }
}

fn bounded_string_schema(bound: u32) -> DynamicTypeSchema {
    DynamicTypeSchema::Struct {
        name: "BoundedString".to_string(),
        base: None,
        fields: vec![DynamicFieldSchema {
            name: "field_0".to_string(),
            member_id: 0,
            value: DynamicTypeSchema::String { bound: Some(bound) },
            optional: false,
            key: false,
            external: false,
            must_understand: false,
            hash_id_name: None,
        }],
        extensibility: None,
        autoid: None,
        nested: false,
    }
}

#[test]
fn public_dynamic_data_accepts_string_at_declared_bound() {
    let mut data = DynamicData::new(&bounded_string_schema(4));
    let result = data.set_string("field_0", "four");
    assert!(result.is_ok());
    assert_eq!(data.get_string("field_0").unwrap(), "four");
}

#[test]
fn descriptor_capacity_maps_to_idl_string_bound() {
    let ops = [OP_ADR | TYPE_BST, 0, 5];
    let fields = parse_ops_to_fields(&ops, 5).unwrap();
    assert_eq!(fields[0].value, DynamicTypeSchema::String { bound: Some(4) });
}

#[test]
fn descriptor_bound_rejects_five_byte_public_value() {
    let ops = [OP_ADR | TYPE_BST, 0, 5];
    let fields = parse_ops_to_fields(&ops, 5).unwrap();
    let schema = DynamicTypeSchema::Struct {
        name: "BoundedString".to_string(),
        base: None,
        fields,
        extensibility: None,
        autoid: None,
        nested: false,
    };
    let mut data = DynamicData::new(&schema);
    let result = data.set_string("field_0", "12345");
    assert!(matches!(result, Err(DdsError::BadParameter(_))));
}

#[test]
fn zero_capacity_bounded_string_descriptor_is_rejected() {
    let ops = [OP_ADR | TYPE_BST, 0, 0];
    let result = parse_ops_to_fields(&ops, 0);
    assert!(matches!(result, Err(DdsError::BadParameter(_))));
}

#[test]
fn bounded_native_read_rejects_missing_terminator() {
    let native = [b'a', b'b', b'c', b'd'];
    let result = decode_bounded_string(&native);
    assert!(matches!(result, Err(DdsError::BadParameter(_))));
}

#[test]
fn native_mapping_rejects_duplicate_schema_names() {
    let schema = DynamicTypeSchema::Struct {
        name: "DuplicateNames".to_string(),
        base: None,
        fields: vec![
            dynamic_field("same", 3, DynamicPrimitiveKind::Int32),
            dynamic_field("same", 9, DynamicPrimitiveKind::Int32),
        ],
        extensibility: Some(DynamicTypeExtensibility::Final),
        autoid: None,
        nested: false,
    };
    let data = DynamicData::new(&schema);
    let ops = [OP_ADR | TYPE_4BY, 0, OP_ADR | TYPE_4BY, 4];
    let result = validate_data_for_native(&data, &ops);
    assert!(matches!(result, Err(DdsError::BadParameter(_))));
}

#[test]
fn native_mapping_rejects_duplicate_member_ids() {
    let schema = DynamicTypeSchema::Struct {
        name: "DuplicateIds".to_string(),
        base: None,
        fields: vec![
            dynamic_field("left", 7, DynamicPrimitiveKind::Int32),
            dynamic_field("right", 7, DynamicPrimitiveKind::Int32),
        ],
        extensibility: Some(DynamicTypeExtensibility::Final),
        autoid: None,
        nested: false,
    };
    let data = DynamicData::new(&schema);
    let ops = [OP_ADR | TYPE_4BY, 0, OP_ADR | TYPE_4BY, 4];
    let result = validate_data_for_native(&data, &ops);
    assert!(matches!(result, Err(DdsError::BadParameter(_))));
}

#[test]
fn native_mapping_accepts_matching_layout() {
    let schema = DynamicTypeSchema::Struct {
        name: "CustomNames".to_string(),
        base: None,
        fields: vec![
            dynamic_field("telemetry_code", 31, DynamicPrimitiveKind::Int32),
            dynamic_field("voltage", 7, DynamicPrimitiveKind::Float64),
        ],
        extensibility: Some(DynamicTypeExtensibility::Final),
        autoid: None,
        nested: false,
    };
    let mut data = DynamicData::new(&schema);
    data.set_i32("telemetry_code", 41_337).unwrap();
    data.set_f64_bits("voltage", 12.75f64.to_bits()).unwrap();
    let ops = [OP_ADR | TYPE_4BY | OP_FLAG_SGN, 0, OP_ADR | TYPE_8BY | OP_FLAG_FP, 8];
    assert!(validate_data_for_native(&data, &ops).is_ok());
    // One ADR too many for the schema.
    let longer = [OP_ADR | TYPE_4BY, 0, OP_ADR | TYPE_8BY, 8, OP_ADR | TYPE_4BY, 16];
    assert!(validate_data_for_native(&data, &longer).is_err());
    // One ADR too few.
    let shorter = [OP_ADR | TYPE_4BY, 0];
    assert!(validate_data_for_native(&data, &shorter).is_err());
}

#[test]
fn native_string_members_are_checked() {
    let mut data = DynamicData::new(&bounded_string_schema(8));
    data.set_string("field_0", "abc").unwrap();
    assert!(validate_data_for_native(&data, &[OP_ADR | TYPE_BST, 0, 4]).is_ok());
    assert!(validate_data_for_native(&data, &[OP_ADR | TYPE_BST, 0, 3]).is_err());
    assert!(validate_data_for_native(&data, &[OP_ADR | TYPE_STR, 0]).is_ok());
    data.set_string("field_0", "a\0b").unwrap();
    assert!(validate_data_for_native(&data, &[OP_ADR | TYPE_STR, 0]).is_err());
    assert!(validate_data_for_native(&data, &[OP_ADR | TYPE_4BY, 0]).is_ok());
}

#[test]
fn bounded_string_capacity_reads_the_third_word() {
    assert_eq!(bounded_string_capacity(&[OP_ADR | TYPE_BST, 0, 5], 0).unwrap(), 5);
    assert!(bounded_string_capacity(&[OP_ADR | TYPE_BST, 0], 0).is_err());
    assert!(bounded_string_capacity(&[OP_ADR | TYPE_BST, 0, 0], 0).is_err());
}

#[test]
fn decoded_string_stops_at_the_terminator() {
    assert_eq!(decode_bounded_string(b"ab\0cd").unwrap(), "ab");
    assert_eq!(decode_bounded_string(b"\0").unwrap(), "");
    assert_eq!(decode_bounded_string(&[0xff, 0]).unwrap(), "\u{fffd}");
}

#[test]
fn parsed_fields_follow_the_ops() {
    let ops = [
        OP_ADR | TYPE_4BY | OP_FLAG_SGN,
        0,
        OP_ADR | TYPE_8BY | OP_FLAG_FP,
        8,
        OP_ADR | TYPE_STR,
        16,
        0,
    ];
    let fields = parse_ops_to_fields(&ops, 24).unwrap();
    assert_eq!(fields.len(), 3);
    assert_eq!(fields[0].name, "field_0");
    assert_eq!(fields[0].value, DynamicTypeSchema::Primitive(DynamicPrimitiveKind::Int32));
    assert_eq!(fields[1].name, "field_1");
    assert_eq!(fields[1].member_id, 1);
    assert_eq!(fields[1].value, DynamicTypeSchema::Primitive(DynamicPrimitiveKind::Float64));
    assert_eq!(fields[2].value, DynamicTypeSchema::String { bound: None });
}

#[test]
fn dynamic_data_get_set_primitives() {
    let schema = DynamicTypeSchema::Struct {
        name: "TestStruct".to_string(),
        base: None,
        fields: vec![
            DynamicFieldSchema {
                name: "x".to_string(),
                member_id: 0,
                value: DynamicTypeSchema::Primitive(DynamicPrimitiveKind::Int32),
                optional: false,
                key: false,
                external: false,
                must_understand: false,
                hash_id_name: None,
            },
            DynamicFieldSchema {
                name: "y".to_string(),
                member_id: 1,
                value: DynamicTypeSchema::Primitive(DynamicPrimitiveKind::Float64),
                optional: false,
                key: false,
                external: false,
                must_understand: false,
                hash_id_name: None,
            },
            DynamicFieldSchema {
                name: "label".to_string(),
                member_id: 2,
                value: DynamicTypeSchema::String { bound: None },
                optional: false,
                key: false,
                external: false,
                must_understand: false,
                hash_id_name: None,
            },
            DynamicFieldSchema {
                name: "flag".to_string(),
                member_id: 3,
                value: DynamicTypeSchema::Primitive(DynamicPrimitiveKind::Boolean),
                optional: true,
                key: false,
                external: false,
                must_understand: false,
                hash_id_name: None,
            },
        ],
        extensibility: None,
        autoid: None,
        nested: false,
    };

    let mut data = DynamicData::new(&schema);

    assert_eq!(data.get_i32("x").unwrap(), 0);
    assert_eq!(f64::from_bits(data.get_f64_bits("y").unwrap()), 0.0);
    assert_eq!(data.get_string("label").unwrap(), "");

    data.set_i32("x", 42).unwrap();
    assert_eq!(data.get_i32("x").unwrap(), 42);

    data.set_f64_bits("y", std::f64::consts::PI.to_bits()).unwrap();
    assert!(f64::from_bits(data.get_f64_bits("y").unwrap()).abs() - std::f64::consts::PI < 0.001);

    data.set_string("label", "hello").unwrap();
    assert_eq!(data.get_string("label").unwrap(), "hello");

    data.set_bool("flag", true).unwrap();
    assert!(data.get_bool("flag").unwrap());

    assert!(data.validate().is_ok());

    let names = data.field_names();
    assert_eq!(names, vec!["x", "y", "label", "flag"]);

    data.set_null("flag").unwrap();
    assert!(!data.is_set("flag"));

    assert!(data.set_null("x").is_err());

    assert!(data.get_bool("x").is_err());
    assert!(data.get_i32("label").is_err());
}

#[test]
fn dynamic_data_from_value_validates() {
    let schema = DynamicTypeSchema::Struct {
        name: "S".to_string(),
        base: None,
        fields: vec![DynamicFieldSchema {
            name: "v".to_string(),
            member_id: 0,
            value: DynamicTypeSchema::Primitive(DynamicPrimitiveKind::Int32),
            optional: false,
            key: false,
            external: false,
            must_understand: false,
            hash_id_name: None,
        }],
        extensibility: None,
        autoid: None,
        nested: false,
    };

    let val = DynamicValue::Struct(vec![("v".to_string(), DynamicValue::Int32(99))]);
    let data = DynamicData::from_value(&schema, val).unwrap();
    assert_eq!(data.get_i32("v").unwrap(), 99);

    let bad_val = DynamicValue::Struct(vec![(
        "v".to_string(),
        DynamicValue::String("not an i32".into()),
    )]);
    assert!(DynamicData::from_value(&schema, bad_val).is_err());
}

#[test]
fn bounded_native_write_accepts_exact_bound_without_overflow() {
    // A string<4> descriptor: the exact-bound value is stored with its
    // in-capacity terminator, five bytes at offset 0, so a guard byte after
    // the capacity is never touched.
    let ops = [OP_ADR | TYPE_BST, 0, 5];
    let schema = bounded_string_schema(4);
    let data = DynamicData::from_value(
        &schema,
        DynamicValue::Struct(vec![("field_0".to_string(), DynamicValue::String("four".to_string()))]),
    )
    .unwrap();
    let stores = native_stores(&data, &ops).unwrap();
    assert_eq!(
        stores,
        vec![NativeStore { offset: 0, write: NativeWrite::Inline(b"four\0".to_vec()) }]
    );
}

#[test]
fn bounded_native_write_rejects_overlength_before_writing() {
    // A string<4> descriptor and an overlength value: a typed error, and no
    // store at all.
    let ops = [OP_ADR | TYPE_BST, 0, 5];
    let schema = bounded_string_schema(5);
    let data = DynamicData::from_value(
        &schema,
        DynamicValue::Struct(vec![("field_0".to_string(), DynamicValue::String("12345".to_string()))]),
    )
    .unwrap();
    assert!(matches!(native_stores(&data, &ops), Err(DdsError::BadParameter(_))));
}

#[test]
fn native_mapping_uses_schema_names_and_declaration_order() {
    let schema = DynamicTypeSchema::Struct {
        name: "CustomNames".to_string(),
        base: None,
        fields: vec![
            dynamic_field("telemetry_code", 31, DynamicPrimitiveKind::Int32),
            dynamic_field("voltage", 7, DynamicPrimitiveKind::Float64),
        ],
        extensibility: Some(DynamicTypeExtensibility::Final),
        autoid: None,
        nested: false,
    };
    let mut data = DynamicData::new(&schema);
    data.set_i32("telemetry_code", 41_337).unwrap();
    data.set_f64_bits("voltage", 12.75f64.to_bits()).unwrap();
    let ops = [OP_ADR | TYPE_4BY | OP_FLAG_SGN, 0, OP_ADR | TYPE_8BY | OP_FLAG_FP, 8];
    let stores = native_stores(&data, &ops).unwrap();
    assert_eq!(
        stores,
        vec![
            NativeStore { offset: 0, write: NativeWrite::Int32(41_337) },
            NativeStore { offset: 8, write: NativeWrite::Float64Bits(12.75f64.to_bits()) },
        ]
    );
    assert_eq!(f64::from_bits(12.75f64.to_bits()), 12.75);
}

#[test]
fn unbounded_strings_are_stored_by_pointer_to_terminated_bytes() {
    let schema = DynamicTypeSchema::Struct {
        name: "S".to_string(),
        base: None,
        fields: vec![DynamicFieldSchema {
            name: "text".to_string(),
            member_id: 0,
            value: DynamicTypeSchema::String { bound: None },
            optional: false,
            key: false,
            external: false,
            must_understand: false,
            hash_id_name: None,
        }],
        extensibility: None,
        autoid: None,
        nested: false,
    };
    let mut data = DynamicData::new(&schema);
    data.set_string("text", "hi").unwrap();
    let stores = native_stores(&data, &[OP_ADR | TYPE_STR, 16]).unwrap();
    assert_eq!(stores, vec![NativeStore { offset: 16, write: NativeWrite::Text(b"hi\0".to_vec()) }]);
}

#[test]
fn malformed_bounded_native_value_is_not_replaced_with_valid_default() {
    // A non-terminated native string and its string<3> public schema.
    let native = [b'a', b'b', b'c', b'd'];
    let ops = [OP_ADR | TYPE_BST, 0, 4];
    let schema = bounded_string_schema(3);
    let loads = native_loads(&schema, &ops, 0).unwrap();
    assert_eq!(loads, vec![NativeLoadAt { offset: 0, load: NativeLoad::Inline(4) }]);
    // The subscription-facing reader gets an invalid value, which cannot
    // pass DynamicData construction.
    let value = native_value_or_invalid(&schema, &ops, 0, &[NativeRaw::Inline(native.to_vec())]);
    assert_eq!(value, DynamicValue::Bool(false));
    assert!(DynamicData::from_value(&schema, value).is_err());
}

#[test]
fn native_reads_follow_schema_names_and_flags() {
    let schema = DynamicTypeSchema::Struct {
        name: "R".to_string(),
        base: None,
        fields: vec![
            dynamic_field("flag", 0, DynamicPrimitiveKind::Boolean),
            dynamic_field("count", 1, DynamicPrimitiveKind::Int32),
        ],
        extensibility: None,
        autoid: None,
        nested: false,
    };
    let ops = [
        OP_ADR | cyclonedds::TYPE_1BY,
        0,
        OP_ADR | TYPE_4BY | OP_FLAG_SGN,
        4,
        OP_ADR | TYPE_8BY | OP_FLAG_FP,
        8,
        OP_ADR | TYPE_STR,
        16,
    ];
    let loads = native_loads(&schema, &ops, 0).unwrap();
    assert_eq!(
        loads,
        vec![
            NativeLoadAt { offset: 0, load: NativeLoad::Bits8 },
            NativeLoadAt { offset: 4, load: NativeLoad::Bits32 },
            NativeLoadAt { offset: 8, load: NativeLoad::Bits64 },
            NativeLoadAt { offset: 16, load: NativeLoad::Text },
        ]
    );
    let raws = [
        NativeRaw::Bits8(1),
        NativeRaw::Bits32((-5i32) as u32),
        NativeRaw::Bits64(2.5f64.to_bits()),
        NativeRaw::Text(Some(b"hey".to_vec())),
    ];
    let v = native_value(&schema, &ops, 0, &raws).unwrap();
    assert_eq!(
        v,
        DynamicValue::Struct(vec![
            ("count".to_string(), DynamicValue::Int32(-5)),
            ("field_2".to_string(), DynamicValue::Float64(2.5f64.to_bits())),
            ("field_3".to_string(), DynamicValue::String("hey".to_string())),
            ("flag".to_string(), DynamicValue::Bool(true)),
        ])
    );
    // A null string pointer reads as the empty string.
    let mut raws2 = raws.to_vec();
    raws2[3] = NativeRaw::Text(None);
    let v2 = native_value(&schema, &ops, 0, &raws2).unwrap();
    assert_eq!(v2.field("field_3"), Some(&DynamicValue::String(String::new())));
    // What was read must answer the loads.
    assert!(matches!(
        native_value(&schema, &ops, 0, &raws[..3]),
        Err(DdsError::BadParameter(_))
    ));
    let mut wrong = raws.to_vec();
    wrong[0] = NativeRaw::Bits16(1);
    assert!(matches!(native_value(&schema, &ops, 0, &wrong), Err(DdsError::BadParameter(_))));
}

#[test]
fn non_struct_native_samples_read_as_the_default() {
    let schema = DynamicTypeSchema::Primitive(DynamicPrimitiveKind::Int32);
    assert_eq!(native_loads(&schema, &[OP_ADR | TYPE_4BY, 0], 0).unwrap(), vec![]);
    assert_eq!(native_value(&schema, &[OP_ADR | TYPE_4BY, 0], 0, &[]).unwrap(), DynamicValue::Int32(0));
}

#[test]
fn native_reads_keep_one_member_per_name() {
    let schema = DynamicTypeSchema::Struct {
        name: "Dup".to_string(),
        base: None,
        fields: vec![
            dynamic_field("a", 0, DynamicPrimitiveKind::Int32),
            dynamic_field("a", 1, DynamicPrimitiveKind::Int32),
        ],
        extensibility: None,
        autoid: None,
        nested: false,
    };
    let ops = [OP_ADR | TYPE_4BY | OP_FLAG_SGN, 0, OP_ADR | TYPE_4BY | OP_FLAG_SGN, 4];
    let v = native_value(&schema, &ops, 0, &[NativeRaw::Bits32(1), NativeRaw::Bits32(2)]).unwrap();
    assert_eq!(v, DynamicValue::Struct(vec![("a".to_string(), DynamicValue::Int32(2))]));
}

fn native_msg(data: &DynamicData, ops: &[u32]) -> String {
    match validate_data_for_native(data, ops) {
        Err(DdsError::BadParameter(m)) => m,
        other => panic!("unexpected {other:?}"),
    }
}

#[test]
fn native_refusals_say_why() {
    let schema = bounded_string_schema(5);
    let data = DynamicData::from_value(
        &schema,
        DynamicValue::Struct(vec![("field_0".to_string(), DynamicValue::String("12345".to_string()))]),
    )
    .unwrap();
    assert_eq!(native_msg(&data, &[OP_ADR | TYPE_BST, 0, 5]), "string length 5 exceeds bound 4");
    assert_eq!(
        native_msg(&data, &[OP_ADR | TYPE_BST, 0]),
        "bounded string descriptor is missing its capacity"
    );
    assert_eq!(
        native_msg(&data, &[OP_ADR | TYPE_BST, 0, 0]),
        "bounded string capacity must include a terminator"
    );
    assert_eq!(
        native_msg(&data, &[OP_ADR | TYPE_BST, 0, 9, OP_ADR | TYPE_4BY, 16]),
        "native descriptor has more fields than the dynamic schema"
    );
    assert_eq!(native_msg(&data, &[]), "dynamic schema has more fields than the native descriptor");
    let dup = DynamicTypeSchema::Struct {
        name: "D".to_string(),
        base: None,
        fields: vec![
            dynamic_field("a", 3, DynamicPrimitiveKind::Int32),
            dynamic_field("b", 3, DynamicPrimitiveKind::Int32),
        ],
        extensibility: None,
        autoid: None,
        nested: false,
    };
    assert_eq!(native_msg(&DynamicData::new(&dup), &[]), "duplicate dynamic member id 3");
    // A field whose name and id are both taken is refused for its name.
    let both = DynamicTypeSchema::Struct {
        name: "B".to_string(),
        base: None,
        fields: vec![
            dynamic_field("a", 5, DynamicPrimitiveKind::Int32),
            dynamic_field("b", 6, DynamicPrimitiveKind::Int32),
            dynamic_field("b", 5, DynamicPrimitiveKind::Int32),
        ],
        extensibility: None,
        autoid: None,
        nested: false,
    };
    assert_eq!(native_msg(&DynamicData::new(&both), &[]), "duplicate dynamic field name 'b'");
}

#[test]
fn op_parser_refusals_say_why() {
    match parse_ops_to_fields(&[OP_ADR | TYPE_BST, 0, 0], 0) {
        Err(DdsError::BadParameter(m)) => {
            assert_eq!(m, "bounded string descriptor capacity must include a terminator")
        }
        other => panic!("unexpected {other:?}"),
    }
    match parse_ops_to_fields(&[OP_ADR | TYPE_4BY, 0, OP_ADR | TYPE_BST, 4], 0) {
        Err(DdsError::BadParameter(m)) => assert_eq!(m, "bounded string descriptor is missing its capacity"),
        other => panic!("unexpected {other:?}"),
    }
}

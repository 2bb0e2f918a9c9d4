use icelake::arrow_schema::{
    arrow_field_from, arrow_primitive_from, arrow_schema_from, arrow_type_from,
    list_element_name_from, schema_type_from, struct_field_from,
    struct_fields_from, PLACEHOLDER_FIELD_ID,
};
use icelake::arrow_types::{ArrowDataType, ArrowField, ArrowIntervalUnit, ArrowSchema, ArrowTimeUnit};
use icelake::error::{ConversionError, IcebergError};
use icelake::schema::{ListType, MapType, PrimitiveType, Schema, SchemaField, SchemaType, StructField, StructType};

fn int_field(id: i32, name: &str, required: bool) -> StructField {
    StructField::new(id, name, required, SchemaType::Primitive(PrimitiveType::Int))
}

#[test]
fn iceberg_to_arrow_struct() {
    let field = StructField::new(
        0,
        "user",
        false,
        SchemaType::Struct(StructType::new(vec![
            StructField::new(1, "id", true, SchemaType::Primitive(PrimitiveType::Int)),
            StructField::new(1, "name", true, SchemaType::Primitive(PrimitiveType::String)),
        ])),
    );

    let arrow_field = arrow_field_from(&field).unwrap();

    assert_eq!(
        arrow_field,
        ArrowField::new(
            "user",
            ArrowDataType::Struct(vec![
                ArrowField::new("id", ArrowDataType::Int32, false),
                ArrowField::new("name", ArrowDataType::Utf8, false),
            ]),
            true
        )
    );
}

#[test]
fn iceberg_to_arrow_list() {
    let field = StructField::new(
        0,
        "users",
        false,
        SchemaType::List(ListType::new(1, false, SchemaType::Primitive(PrimitiveType::String))),
    );

    let arrow_field = arrow_field_from(&field).unwrap();

    assert_eq!(
        arrow_field,
        ArrowField::new(
            "users",
            ArrowDataType::List(Box::new(ArrowField::new("field_1", ArrowDataType::Utf8, true))),
            true
        )
    );
}

#[test]
fn iceberg_to_arrow_schema() {
    let schema = Schema::new(
        0,
        vec![
            SchemaField::new(1, "id", true, SchemaType::Primitive(PrimitiveType::Int)),
            SchemaField::new(1, "name", true, SchemaType::Primitive(PrimitiveType::String)),
        ],
    );

    let arrow_schema = arrow_schema_from(&schema).unwrap();

    assert_eq!(
        arrow_schema,
        ArrowSchema::new(vec![
            ArrowField::new("id", ArrowDataType::Int32, false),
            ArrowField::new("name", ArrowDataType::Utf8, false),
        ])
    );
}

#[test]
fn entry_point_converts_schema() {
    let schema = Schema::new(
        0,
        vec![
            SchemaField::new(1, "id", true, SchemaType::Primitive(PrimitiveType::Int)),
            SchemaField::new(2, "name", true, SchemaType::Primitive(PrimitiveType::String)),
        ],
    );
    assert_eq!(
        icelake::arrow_schema::iceberg_to_arrow_schema(&schema),
        Ok(ArrowSchema::new(vec![
            ArrowField::new("id", ArrowDataType::Int32, false),
            ArrowField::new("name", ArrowDataType::Utf8, false),
        ]))
    );
}

#[test]
fn entry_point_wraps_first_failure() {
    let schema = Schema::new(
        0,
        vec![
            int_field(1, "id", true),
            SchemaField::new(2, "blob", true, SchemaType::Primitive(PrimitiveType::Fixed(1 << 40))),
            SchemaField::new(
                3,
                "price",
                true,
                SchemaType::Primitive(PrimitiveType::Decimal { precision: 10, scale: 200 }),
            ),
        ],
    );
    assert_eq!(
        icelake::arrow_schema::iceberg_to_arrow_schema(&schema),
        Err(IcebergError::SchemaError(ConversionError::FixedSizeOutOfRange(1 << 40)))
    );
}

#[test]
fn every_primitive_maps_to_its_arrow_type() {
    let table = vec![
        (PrimitiveType::Boolean, ArrowDataType::Boolean),
        (PrimitiveType::Int, ArrowDataType::Int32),
        (PrimitiveType::Long, ArrowDataType::Int64),
        (PrimitiveType::Float, ArrowDataType::Float32),
        (PrimitiveType::Double, ArrowDataType::Float64),
        (PrimitiveType::Decimal { precision: 38, scale: 10 }, ArrowDataType::Decimal128(38, 10)),
        (PrimitiveType::Date, ArrowDataType::Date32),
        (PrimitiveType::Time, ArrowDataType::Time64(ArrowTimeUnit::Microsecond)),
        (PrimitiveType::Timestamp, ArrowDataType::Timestamp(ArrowTimeUnit::Microsecond, None)),
        (
            PrimitiveType::Timestamptz,
            ArrowDataType::Timestamp(ArrowTimeUnit::Microsecond, Some("UTC".to_string())),
        ),
        (PrimitiveType::String, ArrowDataType::Utf8),
        (PrimitiveType::Uuid, ArrowDataType::FixedSizeBinary(16)),
        (PrimitiveType::Fixed(7), ArrowDataType::FixedSizeBinary(7)),
        (PrimitiveType::Binary, ArrowDataType::Binary),
    ];
    for (p, expected) in table {
        assert_eq!(arrow_primitive_from(p), Ok(expected));
    }
}

#[test]
fn decimal_scale_range() {
    for scale in [0u8, 1, 64, 127] {
        let d = arrow_primitive_from(PrimitiveType::Decimal { precision: 9, scale }).unwrap();
        assert_eq!(d, ArrowDataType::Decimal128(9, scale as i8));
        assert_eq!(
            schema_type_from(&d),
            Ok(SchemaType::Primitive(PrimitiveType::Decimal { precision: 9, scale }))
        );
    }
    assert_eq!(
        arrow_primitive_from(PrimitiveType::Decimal { precision: 9, scale: 128 }),
        Err(ConversionError::DecimalScaleOutOfRange(128))
    );
    assert_eq!(
        arrow_primitive_from(PrimitiveType::Decimal { precision: 9, scale: 200 }),
        Err(ConversionError::DecimalScaleOutOfRange(200))
    );
}

#[test]
fn fixed_size_range() {
    let largest = i32::MAX as u64;
    assert_eq!(
        arrow_primitive_from(PrimitiveType::Fixed(largest)),
        Ok(ArrowDataType::FixedSizeBinary(i32::MAX))
    );
    assert_eq!(
        schema_type_from(&ArrowDataType::FixedSizeBinary(i32::MAX)),
        Ok(SchemaType::Primitive(PrimitiveType::Fixed(largest)))
    );
    assert_eq!(arrow_primitive_from(PrimitiveType::Fixed(0)), Ok(ArrowDataType::FixedSizeBinary(0)));
    assert_eq!(
        arrow_primitive_from(PrimitiveType::Fixed(largest + 1)),
        Err(ConversionError::FixedSizeOutOfRange(largest + 1))
    );
    assert_eq!(
        arrow_primitive_from(PrimitiveType::Fixed(u64::MAX)),
        Err(ConversionError::FixedSizeOutOfRange(u64::MAX))
    );
}

#[test]
fn reverse_primitives_collapse() {
    let table = vec![
        (ArrowDataType::Boolean, PrimitiveType::Boolean),
        (ArrowDataType::Int8, PrimitiveType::Int),
        (ArrowDataType::Int16, PrimitiveType::Int),
        (ArrowDataType::Int32, PrimitiveType::Int),
        (ArrowDataType::UInt8, PrimitiveType::Int),
        (ArrowDataType::UInt16, PrimitiveType::Int),
        (ArrowDataType::Int64, PrimitiveType::Long),
        (ArrowDataType::UInt32, PrimitiveType::Long),
        (ArrowDataType::Float16, PrimitiveType::Float),
        (ArrowDataType::Float32, PrimitiveType::Float),
        (ArrowDataType::Float64, PrimitiveType::Double),
        (ArrowDataType::Timestamp(ArrowTimeUnit::Second, None), PrimitiveType::Timestamp),
        (ArrowDataType::Timestamp(ArrowTimeUnit::Nanosecond, None), PrimitiveType::Timestamp),
        (
            ArrowDataType::Timestamp(ArrowTimeUnit::Millisecond, Some("Europe/Paris".to_string())),
            PrimitiveType::Timestamptz,
        ),
        (ArrowDataType::Date32, PrimitiveType::Date),
        (ArrowDataType::Date64, PrimitiveType::Date),
        (ArrowDataType::Time32(ArrowTimeUnit::Second), PrimitiveType::Time),
        (ArrowDataType::Time32(ArrowTimeUnit::Millisecond), PrimitiveType::Time),
        (ArrowDataType::Time64(ArrowTimeUnit::Microsecond), PrimitiveType::Time),
        (ArrowDataType::Utf8, PrimitiveType::String),
        (ArrowDataType::Binary, PrimitiveType::Binary),
        (ArrowDataType::FixedSizeBinary(16), PrimitiveType::Fixed(16)),
        (ArrowDataType::Decimal128(12, 3), PrimitiveType::Decimal { precision: 12, scale: 3 }),
    ];
    for (d, expected) in table {
        assert_eq!(schema_type_from(&d), Ok(SchemaType::Primitive(expected)));
    }
}

#[test]
fn reverse_negative_parameters_fail() {
    assert_eq!(
        schema_type_from(&ArrowDataType::Decimal128(10, -2)),
        Err(ConversionError::NegativeDecimalScale(-2))
    );
    assert_eq!(
        schema_type_from(&ArrowDataType::FixedSizeBinary(-1)),
        Err(ConversionError::NegativeFixedSize(-1))
    );
}

fn unsupported_types() -> Vec<ArrowDataType> {
    vec![
        ArrowDataType::Null,
        ArrowDataType::Decimal256(40, 2),
        ArrowDataType::Dictionary(Box::new(ArrowDataType::Int32), Box::new(ArrowDataType::Utf8)),
        ArrowDataType::Mapping(
            Box::new(ArrowField::new(
                "entries",
                ArrowDataType::Struct(vec![
                    ArrowField::new("key", ArrowDataType::Utf8, false),
                    ArrowField::new("value", ArrowDataType::Int64, true),
                ]),
                false,
            )),
            false,
        ),
        ArrowDataType::LargeBinary,
        ArrowDataType::Duration(ArrowTimeUnit::Second),
        ArrowDataType::Interval(ArrowIntervalUnit::DayTime),
        ArrowDataType::UInt64,
        ArrowDataType::LargeUtf8,
        ArrowDataType::Time32(ArrowTimeUnit::Nanosecond),
        ArrowDataType::Time64(ArrowTimeUnit::Nanosecond),
    ]
}

#[test]
fn reverse_unsupported_types_are_named() {
    let originals = unsupported_types();
    let copies = unsupported_types();
    for (d, named) in originals.iter().zip(copies) {
        assert_eq!(schema_type_from(d), Err(ConversionError::UnsupportedType(named)));
    }
}

#[test]
fn unsupported_type_inside_struct_stops_conversion() {
    let d = ArrowDataType::Struct(vec![
        ArrowField::new("a", ArrowDataType::Int32, true),
        ArrowField::new("b", ArrowDataType::Null, true),
        ArrowField::new("c", ArrowDataType::Decimal128(3, -1), true),
    ]);
    assert_eq!(schema_type_from(&d), Err(ConversionError::UnsupportedType(ArrowDataType::Null)));
}

#[test]
fn reverse_struct_keeps_order_and_inverts_nullability() {
    let fields = vec![
        ArrowField::new("z", ArrowDataType::Int64, true),
        ArrowField::new("a", ArrowDataType::Utf8, false),
        ArrowField::new(
            "m",
            ArrowDataType::Struct(vec![ArrowField::new("inner", ArrowDataType::Boolean, false)]),
            true,
        ),
    ];
    let converted = struct_fields_from(&fields).unwrap();
    assert_eq!(
        converted,
        vec![
            StructField::new(PLACEHOLDER_FIELD_ID, "z", false, SchemaType::Primitive(PrimitiveType::Long)),
            StructField::new(PLACEHOLDER_FIELD_ID, "a", true, SchemaType::Primitive(PrimitiveType::String)),
            StructField::new(
                PLACEHOLDER_FIELD_ID,
                "m",
                false,
                SchemaType::Struct(StructType::new(vec![StructField::new(
                    PLACEHOLDER_FIELD_ID,
                    "inner",
                    true,
                    SchemaType::Primitive(PrimitiveType::Boolean),
                )])),
            ),
        ]
    );
}

#[test]
fn reverse_lists_of_every_kind() {
    let child = || ArrowField::new("item", ArrowDataType::Utf8, false);
    let expected = SchemaType::List(ListType::new(
        PLACEHOLDER_FIELD_ID,
        true,
        SchemaType::Primitive(PrimitiveType::String),
    ));
    assert_eq!(schema_type_from(&ArrowDataType::List(Box::new(child()))), Ok(expected));
    let expected = SchemaType::List(ListType::new(
        PLACEHOLDER_FIELD_ID,
        true,
        SchemaType::Primitive(PrimitiveType::String),
    ));
    assert_eq!(schema_type_from(&ArrowDataType::FixedSizeList(Box::new(child()), 4)), Ok(expected));
    let expected = SchemaType::List(ListType::new(
        PLACEHOLDER_FIELD_ID,
        true,
        SchemaType::Primitive(PrimitiveType::String),
    ));
    assert_eq!(schema_type_from(&ArrowDataType::LargeList(Box::new(child()))), Ok(expected));
}

#[test]
fn reverse_field_uses_placeholder_identifier() {
    let f = ArrowField::new("count", ArrowDataType::Int16, true);
    assert_eq!(
        struct_field_from(&f),
        Ok(StructField::new(0, "count", false, SchemaType::Primitive(PrimitiveType::Int)))
    );
}

#[test]
fn forward_map_has_entries_struct() {
    let t = SchemaType::Mapping(MapType::new(
        SchemaType::Primitive(PrimitiveType::String),
        SchemaType::Primitive(PrimitiveType::Long),
        false,
    ));
    assert_eq!(
        arrow_type_from(&t),
        Ok(ArrowDataType::Mapping(
            Box::new(ArrowField::new(
                "entries",
                ArrowDataType::Struct(vec![
                    ArrowField::new("key", ArrowDataType::Utf8, false),
                    ArrowField::new("value", ArrowDataType::Int64, true),
                ]),
                false,
            )),
            false,
        ))
    );
    let required = SchemaType::Mapping(MapType::new(
        SchemaType::Primitive(PrimitiveType::Int),
        SchemaType::Primitive(PrimitiveType::Int),
        true,
    ));
    match arrow_type_from(&required).unwrap() {
        ArrowDataType::Mapping(entries, sorted) => {
            assert!(!sorted);
            assert!(!entries.nullable);
            match entries.data_type {
                ArrowDataType::Struct(kv) => {
                    assert!(!kv[0].nullable);
                    assert!(!kv[1].nullable);
                }
                other => panic!("unexpected entries type {:?}", other),
            }
        }
        other => panic!("unexpected map type {:?}", other),
    }
}

#[test]
fn forward_map_value_failure_propagates() {
    let t = SchemaType::Mapping(MapType::new(
        SchemaType::Primitive(PrimitiveType::String),
        SchemaType::Primitive(PrimitiveType::Decimal { precision: 5, scale: 130 }),
        true,
    ));
    assert_eq!(arrow_type_from(&t), Err(ConversionError::DecimalScaleOutOfRange(130)));
}

#[test]
fn nested_nullability_is_inverted() {
    let t = SchemaType::List(ListType::new(
        7,
        true,
        SchemaType::Struct(StructType::new(vec![
            int_field(8, "a", false),
            StructField::new(
                9,
                "b",
                true,
                SchemaType::List(ListType::new(10, false, SchemaType::Primitive(PrimitiveType::Date))),
            ),
        ])),
    ));
    assert_eq!(
        arrow_type_from(&t),
        Ok(ArrowDataType::List(Box::new(ArrowField::new(
            "field_7",
            ArrowDataType::Struct(vec![
                ArrowField::new("a", ArrowDataType::Int32, true),
                ArrowField::new(
                    "b",
                    ArrowDataType::List(Box::new(ArrowField::new("field_10", ArrowDataType::Date32, true))),
                    false,
                ),
            ]),
            false,
        ))))
    );
}

#[test]
fn struct_failure_stops_at_first_field() {
    let t = SchemaType::Struct(StructType::new(vec![
        int_field(1, "ok", true),
        StructField::new(2, "bad", true, SchemaType::Primitive(PrimitiveType::Decimal { precision: 1, scale: 255 })),
        StructField::new(3, "worse", true, SchemaType::Primitive(PrimitiveType::Fixed(u64::MAX))),
    ]));
    assert_eq!(arrow_type_from(&t), Err(ConversionError::DecimalScaleOutOfRange(255)));
}

#[test]
fn empty_struct_and_schema() {
    assert_eq!(
        arrow_type_from(&SchemaType::Struct(StructType::new(vec![]))),
        Ok(ArrowDataType::Struct(vec![]))
    );
    assert_eq!(arrow_schema_from(&Schema::new(3, vec![])), Ok(ArrowSchema::new(vec![])));
    assert_eq!(
        schema_type_from(&ArrowDataType::Struct(vec![])),
        Ok(SchemaType::Struct(StructType::new(vec![])))
    );
}

#[test]
fn list_element_names() {
    assert_eq!(list_element_name_from(0), "field_0");
    assert_eq!(list_element_name_from(1), "field_1");
    assert_eq!(list_element_name_from(120), "field_120");
    assert_eq!(list_element_name_from(-3), "field_-3");
    assert_eq!(list_element_name_from(i32::MAX), "field_2147483647");
}

#[test]
fn forward_then_back_round_trip() {
    let schema_type = SchemaType::Struct(StructType::new(vec![
        StructField::new(0, "id", true, SchemaType::Primitive(PrimitiveType::Long)),
        StructField::new(0, "uuid", false, SchemaType::Primitive(PrimitiveType::Uuid)),
        StructField::new(0, "at", false, SchemaType::Primitive(PrimitiveType::Timestamptz)),
        StructField::new(
            0,
            "tags",
            false,
            SchemaType::List(ListType::new(0, true, SchemaType::Primitive(PrimitiveType::String))),
        ),
    ]));
    let arrow = arrow_type_from(&schema_type).unwrap();
    let back = schema_type_from(&arrow).unwrap();
    assert_eq!(arrow_type_from(&back), Ok(arrow));
}

#[test]
fn duplicate_is_equal() {
    for d in unsupported_types() {
        assert_eq!(d.duplicate(), d);
    }
    let f = ArrowField::new(
        "s",
        ArrowDataType::Struct(vec![ArrowField::new(
            "t",
            ArrowDataType::Timestamp(ArrowTimeUnit::Nanosecond, Some("UTC".to_string())),
            true,
        )]),
        false,
    );
    assert_eq!(f.duplicate(), f);
}

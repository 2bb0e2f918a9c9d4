//! Conversion of table-format schemas to Arrow schemas, and of Arrow data types
//! back to table-format types.
use vstd::prelude::*;
use vstd::string::*;

use crate::arrow_types::{
    arrow_fields_model, lemma_arrow_fields_model, ArrowDataType, ArrowField, ArrowFieldModel,
    ArrowSchema, ArrowTimeUnit, ArrowTypeModel,
};
use crate::error::{ConversionError, ErrorModel, IcebergError};
use crate::schema::{
    fields_model, lemma_fields_model, FieldModel, ListType, PrimitiveType, Schema, SchemaModel,
    SchemaType, StructField, StructType, TypeModel,
};

verus! {

/// The largest decimal scale that Arrow can hold.
pub const MAX_ARROW_DECIMAL_SCALE: u8 = 127;

/// The largest fixed size that Arrow can hold.
pub const MAX_ARROW_FIXED_SIZE: u64 = 0x7fff_ffff;

/// The identifier given to fields and list elements read from Arrow, which
/// carries no identifiers.
pub const PLACEHOLDER_FIELD_ID: i32 = 0;

/// The character of a decimal digit.
pub open spec fn digit_char(d: nat) -> char
    recommends
        d < 10,
{
    seq!['0', '1', '2', '3', '4', '5', '6', '7', '8', '9'][d as int]
}

/// The decimal digits of a natural number, without leading zeros.
pub open spec fn natural_digits(n: nat) -> Seq<char>
    decreases n,
{
    if n < 10 {
        seq![digit_char(n)]
    } else {
        natural_digits(n / 10).push(digit_char(n % 10))
    }
}

/// An integer written in decimal, with a leading minus sign when it is negative.
pub open spec fn decimal_text(n: int) -> Seq<char> {
    if n < 0 {
        seq!['-'] + natural_digits((-n) as nat)
    } else {
        natural_digits(n as nat)
    }
}

/// The name given to the Arrow field of a list's element, which has none of its own.
pub open spec fn list_element_name(element_id: i32) -> Seq<char> {
    "field_"@ + decimal_text(element_id as int)
}

/// The Arrow counterpart of a scalar type.
pub open spec fn arrow_primitive_of(p: PrimitiveType) -> Result<ArrowTypeModel, ErrorModel> {
    match p {
        PrimitiveType::Boolean => Ok(ArrowTypeModel::Boolean),
        PrimitiveType::Int => Ok(ArrowTypeModel::Int32),
        PrimitiveType::Long => Ok(ArrowTypeModel::Int64),
        PrimitiveType::Float => Ok(ArrowTypeModel::Float32),
        PrimitiveType::Double => Ok(ArrowTypeModel::Float64),
        PrimitiveType::Decimal { precision, scale } => {
            if scale <= MAX_ARROW_DECIMAL_SCALE {
                Ok(ArrowTypeModel::Decimal128(precision, scale as i8))
            } else {
                Err(ErrorModel::DecimalScaleOutOfRange(scale))
            }
        },
        PrimitiveType::Date => Ok(ArrowTypeModel::Date32),
        PrimitiveType::Time => Ok(ArrowTypeModel::Time64(ArrowTimeUnit::Microsecond)),
        PrimitiveType::Timestamp => Ok(ArrowTypeModel::Timestamp(ArrowTimeUnit::Microsecond, None)),
        PrimitiveType::Timestamptz => Ok(
            ArrowTypeModel::Timestamp(ArrowTimeUnit::Microsecond, Some("UTC"@)),
        ),
        PrimitiveType::String => Ok(ArrowTypeModel::Utf8),
        PrimitiveType::Uuid => Ok(ArrowTypeModel::FixedSizeBinary(16)),
        PrimitiveType::Fixed(size) => {
            if size <= MAX_ARROW_FIXED_SIZE {
                Ok(ArrowTypeModel::FixedSizeBinary(size as i32))
            } else {
                Err(ErrorModel::FixedSizeOutOfRange(size))
            }
        },
        PrimitiveType::Binary => Ok(ArrowTypeModel::Binary),
    }
}

/// Arrow's map type over converted key and value types: a non-nullable struct
/// of entries with a non-nullable `key` and a `value`, keys not sorted.
pub open spec fn arrow_map_of(key: ArrowTypeModel, value: ArrowTypeModel, value_required: bool) -> ArrowTypeModel {
    ArrowTypeModel::Mapping(
        Box::new(
            ArrowFieldModel {
                name: "entries"@,
                data_type: ArrowTypeModel::Struct(
                    seq![
                        ArrowFieldModel { name: "key"@, data_type: key, nullable: false },
                        ArrowFieldModel { name: "value"@, data_type: value, nullable: !value_required },
                    ],
                ),
                nullable: false,
            },
        ),
        false,
    )
}

/// The Arrow counterpart of a table-format type, or the first error met in
/// converting it.
pub open spec fn arrow_type_of(t: TypeModel) -> Result<ArrowTypeModel, ErrorModel>
    decreases t,
{
    match t {
        TypeModel::Primitive(p) => arrow_primitive_of(p),
        TypeModel::Struct(fields) => match arrow_fields_of(fields) {
            Ok(converted) => Ok(ArrowTypeModel::Struct(converted)),
            Err(e) => Err(e),
        },
        TypeModel::List { element_id, element_required, element } => match arrow_type_of(*element) {
            Ok(d) => Ok(
                ArrowTypeModel::List(
                    Box::new(
                        ArrowFieldModel {
                            name: list_element_name(element_id),
                            data_type: d,
                            nullable: !element_required,
                        },
                    ),
                ),
            ),
            Err(e) => Err(e),
        },
        TypeModel::Mapping { key, value, value_required } => match arrow_type_of(*key) {
            Err(e) => Err(e),
            Ok(k) => match arrow_type_of(*value) {
                Err(e) => Err(e),
                Ok(v) => Ok(arrow_map_of(k, v, value_required)),
            },
        },
    }
}

/// The Arrow field of a table-format field: same name, converted type, and
/// nullable exactly when the field is not required.
pub open spec fn arrow_field_of(f: FieldModel) -> Result<ArrowFieldModel, ErrorModel>
    decreases f,
{
    match arrow_type_of(f.field_type) {
        Ok(d) => Ok(ArrowFieldModel { name: f.name, data_type: d, nullable: !f.required }),
        Err(e) => Err(e),
    }
}

/// The Arrow fields of a sequence of fields, in order, or the error of the
/// first field that fails.
pub open spec fn arrow_fields_of(fields: Seq<FieldModel>) -> Result<Seq<ArrowFieldModel>, ErrorModel>
    decreases fields,
{
    if fields.len() == 0 {
        Ok(Seq::empty())
    } else {
        let last = fields.len() - 1;
        match arrow_fields_of(fields.subrange(0, last)) {
            Err(e) => Err(e),
            Ok(prefix) => match arrow_field_of(fields[last]) {
                Err(e) => Err(e),
                Ok(f) => Ok(prefix.push(f)),
            },
        }
    }
}

/// The fields of the Arrow schema of a table schema.
pub open spec fn arrow_schema_of(s: SchemaModel) -> Result<Seq<ArrowFieldModel>, ErrorModel> {
    arrow_fields_of(s.fields)
}

/// Once a prefix of the fields fails, so do all of them, with its error.
proof fn lemma_arrow_fields_of_prefix_error(fields: Seq<FieldModel>, k: int)
    requires
        0 <= k <= fields.len(),
        arrow_fields_of(fields.subrange(0, k)) is Err,
    ensures
        arrow_fields_of(fields) == arrow_fields_of(fields.subrange(0, k)),
    decreases fields.len(),
{
    if k < fields.len() {
        let init = fields.subrange(0, fields.len() - 1);
        assert(init.subrange(0, k) =~= fields.subrange(0, k));
        lemma_arrow_fields_of_prefix_error(init, k);
    } else {
        assert(fields.subrange(0, k) =~= fields);
    }
}

/// The table-format type of an Arrow data type, or the first error met in
/// converting it.
pub open spec fn schema_type_of(d: ArrowTypeModel) -> Result<TypeModel, ErrorModel>
    decreases d,
{
    match d {
        ArrowTypeModel::Boolean => Ok(TypeModel::Primitive(PrimitiveType::Boolean)),
        ArrowTypeModel::Int8
        | ArrowTypeModel::Int16
        | ArrowTypeModel::Int32
        | ArrowTypeModel::UInt8
        | ArrowTypeModel::UInt16 => Ok(TypeModel::Primitive(PrimitiveType::Int)),
        ArrowTypeModel::Int64 | ArrowTypeModel::UInt32 => Ok(TypeModel::Primitive(PrimitiveType::Long)),
        ArrowTypeModel::Float16 | ArrowTypeModel::Float32 => Ok(
            TypeModel::Primitive(PrimitiveType::Float),
        ),
        ArrowTypeModel::Float64 => Ok(TypeModel::Primitive(PrimitiveType::Double)),
        ArrowTypeModel::Timestamp(_, None) => Ok(TypeModel::Primitive(PrimitiveType::Timestamp)),
        ArrowTypeModel::Timestamp(_, Some(_)) => Ok(TypeModel::Primitive(PrimitiveType::Timestamptz)),
        ArrowTypeModel::Date32 | ArrowTypeModel::Date64 => Ok(TypeModel::Primitive(PrimitiveType::Date)),
        ArrowTypeModel::Time32(unit) | ArrowTypeModel::Time64(unit) => {
            if unit is Nanosecond {
                Err(ErrorModel::UnsupportedType(d))
            } else {
                Ok(TypeModel::Primitive(PrimitiveType::Time))
            }
        },
        ArrowTypeModel::Utf8 => Ok(TypeModel::Primitive(PrimitiveType::String)),
        ArrowTypeModel::Binary => Ok(TypeModel::Primitive(PrimitiveType::Binary)),
        ArrowTypeModel::FixedSizeBinary(size) => {
            if size >= 0 {
                Ok(TypeModel::Primitive(PrimitiveType::Fixed(size as u64)))
            } else {
                Err(ErrorModel::NegativeFixedSize(size))
            }
        },
        ArrowTypeModel::Decimal128(precision, scale) => {
            if scale >= 0 {
                Ok(TypeModel::Primitive(PrimitiveType::Decimal { precision, scale: scale as u8 }))
            } else {
                Err(ErrorModel::NegativeDecimalScale(scale))
            }
        },
        ArrowTypeModel::List(f) => list_type_of(*f),
        ArrowTypeModel::FixedSizeList(f, _) => list_type_of(*f),
        ArrowTypeModel::LargeList(f) => list_type_of(*f),
        ArrowTypeModel::Struct(fields) => match struct_fields_of(fields) {
            Ok(converted) => Ok(TypeModel::Struct(converted)),
            Err(e) => Err(e),
        },
        _ => Err(ErrorModel::UnsupportedType(d)),
    }
}

/// The table-format list whose element is described by an Arrow list's child
/// field: a placeholder identifier, required exactly when the child is not
/// nullable.
pub open spec fn list_type_of(element: ArrowFieldModel) -> Result<TypeModel, ErrorModel>
    decreases element,
{
    match schema_type_of(element.data_type) {
        Ok(t) => Ok(
            TypeModel::List {
                element_id: PLACEHOLDER_FIELD_ID,
                element_required: !element.nullable,
                element: Box::new(t),
            },
        ),
        Err(e) => Err(e),
    }
}

/// The table-format field of an Arrow field: a placeholder identifier, the
/// same name, converted type, and required exactly when it is not nullable.
pub open spec fn struct_field_of(f: ArrowFieldModel) -> Result<FieldModel, ErrorModel>
    decreases f,
{
    match schema_type_of(f.data_type) {
        Ok(t) => Ok(
            FieldModel { id: PLACEHOLDER_FIELD_ID, name: f.name, required: !f.nullable, field_type: t },
        ),
        Err(e) => Err(e),
    }
}

/// The table-format fields of a sequence of Arrow fields, in order, or the
/// error of the first field that fails.
pub open spec fn struct_fields_of(fields: Seq<ArrowFieldModel>) -> Result<Seq<FieldModel>, ErrorModel>
    decreases fields,
{
    if fields.len() == 0 {
        Ok(Seq::empty())
    } else {
        let last = fields.len() - 1;
        match struct_fields_of(fields.subrange(0, last)) {
            Err(e) => Err(e),
            Ok(prefix) => match struct_field_of(fields[last]) {
                Err(e) => Err(e),
                Ok(f) => Ok(prefix.push(f)),
            },
        }
    }
}

/// Once a prefix of the Arrow fields fails, so do all of them, with its error.
proof fn lemma_struct_fields_of_prefix_error(fields: Seq<ArrowFieldModel>, k: int)
    requires
        0 <= k <= fields.len(),
        struct_fields_of(fields.subrange(0, k)) is Err,
    ensures
        struct_fields_of(fields) == struct_fields_of(fields.subrange(0, k)),
    decreases fields.len(),
{
    if k < fields.len() {
        let init = fields.subrange(0, fields.len() - 1);
        assert(init.subrange(0, k) =~= fields.subrange(0, k));
        lemma_struct_fields_of_prefix_error(init, k);
    } else {
        assert(fields.subrange(0, k) =~= fields);
    }
}

/// Relies on the standard library's `ToString` for `i32`, which writes the
/// number in decimal: a minus sign when it is negative, then its digits
/// without leading zeros.
#[verifier::external_body]
fn format_decimal(n: i32) -> (r: String)
    ensures
        r@ == decimal_text(n as int),
{
    n.to_string()
}

/// The name of the Arrow field that holds a list's element.
pub fn list_element_name_from(element_id: i32) -> (r: String)
    ensures
        r@ == list_element_name(element_id),
{
    let mut name = String::from_str("field_");
    let digits = format_decimal(element_id);
    name.append(digits.as_str());
    name
}

/// Converts a scalar type to its Arrow counterpart.
pub fn arrow_primitive_from(p: PrimitiveType) -> (r: Result<ArrowDataType, ConversionError>)
    ensures
        match r {
            Ok(d) => arrow_primitive_of(p) == Ok::<_, ErrorModel>(d.model()),
            Err(e) => arrow_primitive_of(p) == Err::<ArrowTypeModel, _>(e.model()),
        },
{
    match p {
        PrimitiveType::Boolean => Ok(ArrowDataType::Boolean),
        PrimitiveType::Int => Ok(ArrowDataType::Int32),
        PrimitiveType::Long => Ok(ArrowDataType::Int64),
        PrimitiveType::Float => Ok(ArrowDataType::Float32),
        PrimitiveType::Double => Ok(ArrowDataType::Float64),
        PrimitiveType::Decimal { precision, scale } => {
            if scale <= MAX_ARROW_DECIMAL_SCALE {
                Ok(ArrowDataType::Decimal128(precision, scale as i8))
            } else {
                Err(ConversionError::DecimalScaleOutOfRange(scale))
            }
        },
        PrimitiveType::Date => Ok(ArrowDataType::Date32),
        PrimitiveType::Time => Ok(ArrowDataType::Time64(ArrowTimeUnit::Microsecond)),
        PrimitiveType::Timestamp => Ok(ArrowDataType::Timestamp(ArrowTimeUnit::Microsecond, None)),
        PrimitiveType::Timestamptz => Ok(
            ArrowDataType::Timestamp(ArrowTimeUnit::Microsecond, Some(String::from_str("UTC"))),
        ),
        PrimitiveType::String => Ok(ArrowDataType::Utf8),
        PrimitiveType::Uuid => Ok(ArrowDataType::FixedSizeBinary(16)),
        PrimitiveType::Fixed(size) => {
            if size <= MAX_ARROW_FIXED_SIZE {
                Ok(ArrowDataType::FixedSizeBinary(size as i32))
            } else {
                Err(ConversionError::FixedSizeOutOfRange(size))
            }
        },
        PrimitiveType::Binary => Ok(ArrowDataType::Binary),
    }
}

/// Converts a table-format type to an Arrow data type.
pub fn arrow_type_from(t: &SchemaType) -> (r: Result<ArrowDataType, ConversionError>)
    ensures
        match r {
            Ok(d) => arrow_type_of(t.model()) == Ok::<_, ErrorModel>(d.model()),
            Err(e) => arrow_type_of(t.model()) == Err::<ArrowTypeModel, _>(e.model()),
        },
    decreases t,
{
    match t {
        SchemaType::Primitive(p) => arrow_primitive_from(*p),
        SchemaType::Struct(st) => match arrow_fields_from(&st.fields) {
            Ok(fields) => Ok(ArrowDataType::Struct(fields)),
            Err(e) => Err(e),
        },
        SchemaType::List(l) => match arrow_type_from(&l.element) {
            Ok(d) => {
                let element = ArrowField {
                    name: list_element_name_from(l.element_id),
                    data_type: d,
                    nullable: !l.element_required,
                };
                let r = ArrowDataType::List(Box::new(element));
                assert(r.model() == ArrowTypeModel::List(Box::new(element.model())));
                Ok(r)
            },
            Err(e) => Err(e),
        },
        SchemaType::Mapping(m) => match arrow_type_from(&m.key) {
            Err(e) => Err(e),
            Ok(k) => match arrow_type_from(&m.value) {
                Err(e) => Err(e),
                Ok(v) => {
                    let key = ArrowField { name: String::from_str("key"), data_type: k, nullable: false };
                    let value = ArrowField {
                        name: String::from_str("value"),
                        data_type: v,
                        nullable: !m.value_required,
                    };
                    let ghost pair = seq![key.model(), value.model()];
                    let mut children: Vec<ArrowField> = Vec::new();
                    children.push(key);
                    children.push(value);
                    proof {
                        lemma_arrow_fields_model(children@);
                        assert(arrow_fields_model(children@) =~= pair);
                    }
                    let entries = ArrowField {
                        name: String::from_str("entries"),
                        data_type: ArrowDataType::Struct(children),
                        nullable: false,
                    };
                    let r = ArrowDataType::Mapping(Box::new(entries), false);
                    assert(r.model() == ArrowTypeModel::Mapping(Box::new(entries.model()), false));
                    assert(entries.model().data_type == ArrowTypeModel::Struct(pair));
                    Ok(r)
                },
            },
        },
    }
}

/// Converts a table-format field to an Arrow field.
pub fn arrow_field_from(f: &StructField) -> (r: Result<ArrowField, ConversionError>)
    ensures
        match r {
            Ok(a) => arrow_field_of(f.model()) == Ok::<_, ErrorModel>(a.model()),
            Err(e) => arrow_field_of(f.model()) == Err::<ArrowFieldModel, _>(e.model()),
        },
    decreases f,
{
    match arrow_type_from(&f.field_type) {
        Ok(d) => Ok(ArrowField { name: f.name.clone(), data_type: d, nullable: !f.required }),
        Err(e) => Err(e),
    }
}

/// Converts a sequence of table-format fields to Arrow fields, in order; the
/// first field that fails stops the conversion.
pub fn arrow_fields_from(fields: &Vec<StructField>) -> (r: Result<Vec<ArrowField>, ConversionError>)
    ensures
        match r {
            Ok(v) => arrow_fields_of(fields_model(fields@)) == Ok::<_, ErrorModel>(
                arrow_fields_model(v@),
            ),
            Err(e) => arrow_fields_of(fields_model(fields@)) == Err::<Seq<ArrowFieldModel>, _>(
                e.model(),
            ),
        },
    decreases fields,
{
    let ghost models = fields_model(fields@);
    proof {
        lemma_fields_model(fields@);
    }
    let mut out: Vec<ArrowField> = Vec::new();
    let mut i: usize = 0;
    while i < fields.len()
        invariant
            i <= fields.len(),
            out.len() == i,
            models == fields_model(fields@),
            models.len() == fields.len(),
            forall|j: int| 0 <= j < fields.len() ==> #[trigger] models[j] == fields@[j].model(),
            arrow_fields_of(models.subrange(0, i as int)) == Ok::<_, ErrorModel>(
                arrow_fields_model(out@),
            ),
        decreases fields.len() - i,
    {
        let converted = arrow_field_from(&fields[i]);
        proof {
            let next = models.subrange(0, i + 1);
            assert(next.subrange(0, i as int) =~= models.subrange(0, i as int));
            assert(next[i as int] == fields@[i as int].model());
        }
        match converted {
            Ok(a) => {
                let ghost before = out@;
                out.push(a);
                proof {
                    assert(out@.subrange(0, i as int) =~= before);
                }
            },
            Err(e) => {
                proof {
                    lemma_arrow_fields_of_prefix_error(models, i + 1);
                }
                return Err(e);
            },
        }
        i += 1;
    }
    proof {
        assert(models.subrange(0, i as int) =~= models);
    }
    Ok(out)
}

/// Converts a table schema to an Arrow schema with the same fields, in order.
pub fn arrow_schema_from(s: &Schema) -> (r: Result<ArrowSchema, ConversionError>)
    ensures
        match r {
            Ok(a) => arrow_schema_of(s.model()) == Ok::<_, ErrorModel>(a.model()),
            Err(e) => arrow_schema_of(s.model()) == Err::<Seq<ArrowFieldModel>, _>(e.model()),
        },
{
    match arrow_fields_from(&s.fields) {
        Ok(fields) => Ok(ArrowSchema { fields }),
        Err(e) => Err(e),
    }
}

/// Converts a table schema to an Arrow schema; a failure is reported as a
/// schema error that holds its cause.
pub fn iceberg_to_arrow_schema(schema: &Schema) -> (r: Result<ArrowSchema, IcebergError>)
    ensures
        match r {
            Ok(a) => arrow_schema_of(schema.model()) == Ok::<_, ErrorModel>(a.model()),
            Err(IcebergError::SchemaError(e)) => arrow_schema_of(schema.model()) == Err::<
                Seq<ArrowFieldModel>,
                _,
            >(e.model()),
        },
{
    match arrow_schema_from(schema) {
        Ok(a) => Ok(a),
        Err(e) => Err(IcebergError::SchemaError(e)),
    }
}

/// Converts an Arrow data type to a table-format type.
pub fn schema_type_from(d: &ArrowDataType) -> (r: Result<SchemaType, ConversionError>)
    ensures
        match r {
            Ok(t) => schema_type_of(d.model()) == Ok::<_, ErrorModel>(t.model()),
            Err(e) => schema_type_of(d.model()) == Err::<TypeModel, _>(e.model()),
        },
    decreases d,
{
    match d {
        ArrowDataType::Boolean => Ok(SchemaType::Primitive(PrimitiveType::Boolean)),
        ArrowDataType::Int8
        | ArrowDataType::Int16
        | ArrowDataType::Int32
        | ArrowDataType::UInt8
        | ArrowDataType::UInt16 => Ok(SchemaType::Primitive(PrimitiveType::Int)),
        ArrowDataType::Int64 | ArrowDataType::UInt32 => Ok(SchemaType::Primitive(PrimitiveType::Long)),
        ArrowDataType::Float16 | ArrowDataType::Float32 => Ok(
            SchemaType::Primitive(PrimitiveType::Float),
        ),
        ArrowDataType::Float64 => Ok(SchemaType::Primitive(PrimitiveType::Double)),
        ArrowDataType::Timestamp(_, None) => Ok(SchemaType::Primitive(PrimitiveType::Timestamp)),
        ArrowDataType::Timestamp(_, Some(_)) => Ok(SchemaType::Primitive(PrimitiveType::Timestamptz)),
        ArrowDataType::Date32 | ArrowDataType::Date64 => Ok(SchemaType::Primitive(PrimitiveType::Date)),
        ArrowDataType::Time32(unit) | ArrowDataType::Time64(unit) => match unit {
            ArrowTimeUnit::Nanosecond => Err(ConversionError::UnsupportedType(d.duplicate())),
            _ => Ok(SchemaType::Primitive(PrimitiveType::Time)),
        },
        ArrowDataType::Utf8 => Ok(SchemaType::Primitive(PrimitiveType::String)),
        ArrowDataType::Binary => Ok(SchemaType::Primitive(PrimitiveType::Binary)),
        ArrowDataType::FixedSizeBinary(size) => {
            if *size >= 0 {
                Ok(SchemaType::Primitive(PrimitiveType::Fixed(*size as u64)))
            } else {
                Err(ConversionError::NegativeFixedSize(*size))
            }
        },
        ArrowDataType::Decimal128(precision, scale) => {
            if *scale >= 0 {
                Ok(
                    SchemaType::Primitive(
                        PrimitiveType::Decimal { precision: *precision, scale: *scale as u8 },
                    ),
                )
            } else {
                Err(ConversionError::NegativeDecimalScale(*scale))
            }
        },
        ArrowDataType::List(f) => list_type_from(f),
        ArrowDataType::FixedSizeList(f, _) => list_type_from(f),
        ArrowDataType::LargeList(f) => list_type_from(f),
        ArrowDataType::Struct(fields) => match struct_fields_from(fields) {
            Ok(converted) => Ok(SchemaType::Struct(StructType { fields: converted })),
            Err(e) => Err(e),
        },
        _ => Err(ConversionError::UnsupportedType(d.duplicate())),
    }
}

/// Converts the child field of an Arrow list to a table-format list.
pub fn list_type_from(element: &ArrowField) -> (r: Result<SchemaType, ConversionError>)
    ensures
        match r {
            Ok(t) => list_type_of(element.model()) == Ok::<_, ErrorModel>(t.model()),
            Err(e) => list_type_of(element.model()) == Err::<TypeModel, _>(e.model()),
        },
    decreases element,
{
    match schema_type_from(&element.data_type) {
        Ok(t) => {
            let ghost element_model = t.model();
            let r = SchemaType::List(
                ListType {
                    element_id: PLACEHOLDER_FIELD_ID,
                    element_required: !element.nullable,
                    element: Box::new(t),
                },
            );
            assert(r.model() == TypeModel::List {
                element_id: PLACEHOLDER_FIELD_ID,
                element_required: !element.nullable,
                element: Box::new(element_model),
            });
            Ok(r)
        },
        Err(e) => Err(e),
    }
}

/// Converts an Arrow field to a table-format field with the placeholder
/// identifier.
pub fn struct_field_from(f: &ArrowField) -> (r: Result<StructField, ConversionError>)
    ensures
        match r {
            Ok(sf) => struct_field_of(f.model()) == Ok::<_, ErrorModel>(sf.model()),
            Err(e) => struct_field_of(f.model()) == Err::<FieldModel, _>(e.model()),
        },
    decreases f,
{
    match schema_type_from(&f.data_type) {
        Ok(t) => Ok(
            StructField {
                id: PLACEHOLDER_FIELD_ID,
                name: f.name.clone(),
                required: !f.nullable,
                field_type: t,
            },
        ),
        Err(e) => Err(e),
    }
}

/// Converts a sequence of Arrow fields to table-format fields, in order; the
/// first field that fails stops the conversion.
pub fn struct_fields_from(fields: &Vec<ArrowField>) -> (r: Result<Vec<StructField>, ConversionError>)
    ensures
        match r {
            Ok(v) => struct_fields_of(arrow_fields_model(fields@)) == Ok::<_, ErrorModel>(
                fields_model(v@),
            ),
            Err(e) => struct_fields_of(arrow_fields_model(fields@)) == Err::<Seq<FieldModel>, _>(
                e.model(),
            ),
        },
    decreases fields,
{
    let ghost models = arrow_fields_model(fields@);
    proof {
        lemma_arrow_fields_model(fields@);
    }
    let mut out: Vec<StructField> = Vec::new();
    let mut i: usize = 0;
    while i < fields.len()
        invariant
            i <= fields.len(),
            out.len() == i,
            models == arrow_fields_model(fields@),
            models.len() == fields.len(),
            forall|j: int| 0 <= j < fields.len() ==> #[trigger] models[j] == fields@[j].model(),
            struct_fields_of(models.subrange(0, i as int)) == Ok::<_, ErrorModel>(fields_model(out@)),
        decreases fields.len() - i,
    {
        let converted = struct_field_from(&fields[i]);
        proof {
            let next = models.subrange(0, i + 1);
            assert(next.subrange(0, i as int) =~= models.subrange(0, i as int));
            assert(next[i as int] == fields@[i as int].model());
        }
        match converted {
            Ok(sf) => {
                let ghost before = out@;
                out.push(sf);
                proof {
                    assert(out@.subrange(0, i as int) =~= before);
                }
            },
            Err(e) => {
                proof {
                    lemma_struct_fields_of_prefix_error(models, i + 1);
                }
                return Err(e);
            },
        }
        i += 1;
    }
    proof {
        assert(models.subrange(0, i as int) =~= models);
    }
    Ok(out)
}

} // verus!

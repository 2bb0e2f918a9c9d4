//! What holds of every conversion, stated over the models and proved.
use vstd::prelude::*;

use crate::arrow_schema::{
    arrow_fields_of, arrow_field_of, arrow_primitive_of, arrow_schema_of, arrow_type_of, schema_type_of,
    struct_field_of, struct_fields_of, list_type_of, MAX_ARROW_DECIMAL_SCALE, MAX_ARROW_FIXED_SIZE,
};
use crate::arrow_types::{ArrowFieldModel, ArrowTypeModel};
use crate::error::ErrorModel;
use crate::schema::{FieldModel, PrimitiveType, SchemaModel, TypeModel};

verus! {

/// A table-format type and an Arrow data type have the same shape at every
/// depth: structs have as many fields, in the same order, with the same names;
/// each field, list element and map value is required exactly where its Arrow
/// counterpart is not nullable; a map key is never nullable.
pub open spec fn type_corresponds(t: TypeModel, d: ArrowTypeModel) -> bool
    decreases t,
{
    match t {
        TypeModel::Primitive(_) => true,
        TypeModel::Struct(fields) => d matches ArrowTypeModel::Struct(arrow_fields)
            && fields_correspond(fields, arrow_fields),
        TypeModel::List { element_required, element, .. } => match d {
            ArrowTypeModel::List(f) | ArrowTypeModel::FixedSizeList(f, _) | ArrowTypeModel::LargeList(f) => {
                &&& element_required == !f.nullable
                &&& type_corresponds(*element, f.data_type)
            },
            _ => false,
        },
        TypeModel::Mapping { key, value, value_required } => match d {
            ArrowTypeModel::Mapping(entries, _) => match entries.data_type {
                ArrowTypeModel::Struct(kv) => {
                    &&& kv.len() == 2
                    &&& !kv[0].nullable
                    &&& kv[1].nullable == !value_required
                    &&& type_corresponds(*key, kv[0].data_type)
                    &&& type_corresponds(*value, kv[1].data_type)
                },
                _ => false,
            },
            _ => false,
        },
    }
}

/// A field and an Arrow field have the same name, the field is required
/// exactly when the Arrow field is not nullable, and their types correspond.
pub open spec fn field_corresponds(f: FieldModel, a: ArrowFieldModel) -> bool
    decreases f,
{
    &&& f.name == a.name
    &&& f.required == !a.nullable
    &&& type_corresponds(f.field_type, a.data_type)
}

/// Two sequences of fields have the same length and correspond position by
/// position (see [`lemma_fields_correspond_positions`]).
pub open spec fn fields_correspond(fields: Seq<FieldModel>, arrow_fields: Seq<ArrowFieldModel>) -> bool
    decreases fields,
{
    if fields.len() != arrow_fields.len() {
        false
    } else if fields.len() == 0 {
        true
    } else {
        let last = fields.len() - 1;
        &&& fields_correspond(fields.subrange(0, last), arrow_fields.subrange(0, last))
        &&& field_corresponds(fields[last], arrow_fields[last])
    }
}

/// Two sequences of fields correspond exactly when they have the same length
/// and the fields at each position correspond.
pub proof fn lemma_fields_correspond_positions(
    fields: Seq<FieldModel>,
    arrow_fields: Seq<ArrowFieldModel>,
)
    ensures
        fields_correspond(fields, arrow_fields) <==> {
            &&& fields.len() == arrow_fields.len()
            &&& forall|i: int|
                0 <= i < fields.len() ==> #[trigger] field_corresponds(fields[i], arrow_fields[i])
        },
    decreases fields.len(),
{
    if fields.len() == arrow_fields.len() && fields.len() > 0 {
        let last = fields.len() - 1;
        let init = fields.subrange(0, last);
        let arrow_init = arrow_fields.subrange(0, last);
        lemma_fields_correspond_positions(init, arrow_init);
        if forall|i: int|
            0 <= i < fields.len() ==> #[trigger] field_corresponds(fields[i], arrow_fields[i]) {
            assert forall|i: int| 0 <= i < init.len() implies #[trigger] field_corresponds(
                init[i],
                arrow_init[i],
            ) by {
                assert(init[i] == fields[i] && arrow_init[i] == arrow_fields[i]);
                assert(field_corresponds(fields[i], arrow_fields[i]));
            }
            assert(field_corresponds(fields[last], arrow_fields[last]));
            assert(fields_correspond(fields, arrow_fields));
        }
        if fields_correspond(fields, arrow_fields) {
            assert forall|i: int| 0 <= i < fields.len() implies #[trigger] field_corresponds(
                fields[i],
                arrow_fields[i],
            ) by {
                if i < last {
                    assert(init[i] == fields[i] && arrow_init[i] == arrow_fields[i]);
                    assert(field_corresponds(init[i], arrow_init[i]));
                }
            }
        }
    }
}

/// A decimal whose scale fits in a signed byte converts to Arrow's 128-bit
/// decimal with the same precision and scale, and that converts back to the
/// same decimal; a decimal with a larger scale is refused, naming the scale.
pub proof fn law_decimal_scale(precision: u32, scale: u8)
    ensures
        scale <= MAX_ARROW_DECIMAL_SCALE ==> {
            &&& arrow_primitive_of(PrimitiveType::Decimal { precision, scale }) == Ok::<_, ErrorModel>(
                ArrowTypeModel::Decimal128(precision, scale as i8),
            )
            &&& schema_type_of(ArrowTypeModel::Decimal128(precision, scale as i8)) == Ok::<
                _,
                ErrorModel,
            >(TypeModel::Primitive(PrimitiveType::Decimal { precision, scale }))
        },
        scale > MAX_ARROW_DECIMAL_SCALE ==> arrow_primitive_of(
            PrimitiveType::Decimal { precision, scale },
        ) == Err::<ArrowTypeModel, _>(ErrorModel::DecimalScaleOutOfRange(scale)),
{
}

/// A fixed size that fits in Arrow's signed 32-bit size converts to a
/// fixed-size binary of that size, which converts back to the same fixed type;
/// a larger size is refused, naming the size.
pub proof fn law_fixed_size(size: u64)
    ensures
        size <= MAX_ARROW_FIXED_SIZE ==> {
            &&& arrow_primitive_of(PrimitiveType::Fixed(size)) == Ok::<_, ErrorModel>(
                ArrowTypeModel::FixedSizeBinary(size as i32),
            )
            &&& schema_type_of(ArrowTypeModel::FixedSizeBinary(size as i32)) == Ok::<_, ErrorModel>(
                TypeModel::Primitive(PrimitiveType::Fixed(size)),
            )
        },
        size > MAX_ARROW_FIXED_SIZE ==> arrow_primitive_of(PrimitiveType::Fixed(size)) == Err::<
            ArrowTypeModel,
            _,
        >(ErrorModel::FixedSizeOutOfRange(size)),
{
}

/// A scalar type that converts to Arrow converts back to a scalar type with
/// the same Arrow counterpart: forward, back and forward again gives the same
/// Arrow type.
pub proof fn law_primitive_round_trip(p: PrimitiveType)
    ensures
        arrow_primitive_of(p) is Ok ==> {
            let d = arrow_primitive_of(p)->Ok_0;
            &&& schema_type_of(d) matches Ok(TypeModel::Primitive(q))
            &&& arrow_primitive_of(q) == Ok::<_, ErrorModel>(d)
        },
{
}

/// The Arrow data types with no table-format counterpart (null, 256-bit
/// decimal, dictionary, map, large binary, duration, interval) are refused by
/// the conversion back, with an error that holds the data type itself.
pub proof fn law_unsupported_types(d: ArrowTypeModel)
    requires
        d is Null || d is Decimal256 || d is Dictionary || d is Mapping || d is LargeBinary
            || d is Duration || d is Interval,
    ensures
        schema_type_of(d) == Err::<TypeModel, _>(ErrorModel::UnsupportedType(d)),
{
}

/// Converting a type to Arrow keeps its shape: at every depth, nullability is
/// the negation of requiredness, and struct fields keep their count, order
/// and names.
pub proof fn law_arrow_type_corresponds(t: TypeModel)
    ensures
        arrow_type_of(t) is Ok ==> type_corresponds(t, arrow_type_of(t)->Ok_0),
    decreases t,
{
    match t {
        TypeModel::Primitive(_) => {},
        TypeModel::Struct(fields) => {
            law_arrow_fields_correspond(fields);
        },
        TypeModel::List { element, .. } => {
            law_arrow_type_corresponds(*element);
        },
        TypeModel::Mapping { key, value, .. } => {
            law_arrow_type_corresponds(*key);
            law_arrow_type_corresponds(*value);
        },
    }
}

/// Converting a field to Arrow keeps its name, makes it nullable exactly when
/// it is not required, and keeps the shape of its type.
pub proof fn law_arrow_field_corresponds(f: FieldModel)
    ensures
        arrow_field_of(f) is Ok ==> field_corresponds(f, arrow_field_of(f)->Ok_0),
    decreases f,
{
    law_arrow_type_corresponds(f.field_type);
}

/// Converting a sequence of fields to Arrow, as for the root of a schema,
/// keeps their count and order, and each field corresponds to its image.
pub proof fn law_arrow_fields_correspond(fields: Seq<FieldModel>)
    ensures
        arrow_fields_of(fields) is Ok ==> fields_correspond(fields, arrow_fields_of(fields)->Ok_0),
    decreases fields,
{
    if fields.len() > 0 {
        let last = fields.len() - 1;
        let init = fields.subrange(0, last);
        law_arrow_fields_correspond(init);
        law_arrow_field_corresponds(fields[last]);
        if arrow_fields_of(fields) is Ok {
            let out = arrow_fields_of(fields)->Ok_0;
            let prefix = arrow_fields_of(init)->Ok_0;
            assert(out == prefix.push(arrow_field_of(fields[last])->Ok_0));
            assert(out.subrange(0, last) =~= prefix);
        }
    }
}

/// Converting a table schema to Arrow keeps the count and order of its root
/// fields, and each root field corresponds to its image.
pub proof fn law_arrow_schema_corresponds(s: SchemaModel)
    ensures
        arrow_schema_of(s) is Ok ==> {
            let out = arrow_schema_of(s)->Ok_0;
            &&& fields_correspond(s.fields, out)
            &&& out.len() == s.fields.len()
            &&& forall|i: int|
                0 <= i < out.len() ==> #[trigger] field_corresponds(s.fields[i], out[i])
        },
{
    law_arrow_fields_correspond(s.fields);
    if arrow_schema_of(s) is Ok {
        lemma_fields_correspond_positions(s.fields, arrow_schema_of(s)->Ok_0);
    }
}

/// Converting an Arrow data type back keeps its shape: at every depth,
/// requiredness is the negation of nullability, and struct fields keep their
/// count, order and names.
pub proof fn law_schema_type_corresponds(d: ArrowTypeModel)
    ensures
        schema_type_of(d) is Ok ==> type_corresponds(schema_type_of(d)->Ok_0, d),
    decreases d,
{
    match d {
        ArrowTypeModel::List(f) => {
            law_list_type_corresponds(*f);
        },
        ArrowTypeModel::FixedSizeList(f, _) => {
            law_list_type_corresponds(*f);
        },
        ArrowTypeModel::LargeList(f) => {
            law_list_type_corresponds(*f);
        },
        ArrowTypeModel::Struct(fields) => {
            law_struct_fields_correspond(fields);
        },
        _ => {},
    }
}

/// The list read from an Arrow list's child field has the child's shape.
pub proof fn law_list_type_corresponds(element: ArrowFieldModel)
    ensures
        list_type_of(element) is Ok ==> type_corresponds(
            list_type_of(element)->Ok_0,
            ArrowTypeModel::List(Box::new(element)),
        ),
    decreases element,
{
    law_schema_type_corresponds(element.data_type);
}

/// Converting an Arrow field back keeps its name, makes it required exactly
/// when it is not nullable, and keeps the shape of its type.
pub proof fn law_struct_field_corresponds(a: ArrowFieldModel)
    ensures
        struct_field_of(a) is Ok ==> field_corresponds(struct_field_of(a)->Ok_0, a),
    decreases a,
{
    law_schema_type_corresponds(a.data_type);
}

/// Converting a sequence of Arrow fields back keeps their count and order,
/// and each field corresponds to its image.
pub proof fn law_struct_fields_correspond(arrow_fields: Seq<ArrowFieldModel>)
    ensures
        struct_fields_of(arrow_fields) is Ok ==> fields_correspond(
            struct_fields_of(arrow_fields)->Ok_0,
            arrow_fields,
        ),
    decreases arrow_fields,
{
    if arrow_fields.len() > 0 {
        let last = arrow_fields.len() - 1;
        let init = arrow_fields.subrange(0, last);
        law_struct_fields_correspond(init);
        law_struct_field_corresponds(arrow_fields[last]);
        if struct_fields_of(arrow_fields) is Ok {
            let out = struct_fields_of(arrow_fields)->Ok_0;
            let prefix = struct_fields_of(init)->Ok_0;
            assert(out == prefix.push(struct_field_of(arrow_fields[last])->Ok_0));
            assert(out.subrange(0, last) =~= prefix);
        }
    }
}

} // verus!

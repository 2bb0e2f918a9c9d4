//! The table format's schema types, and their mathematical models.
use vstd::prelude::*;
use vstd::string::*;

verus! {

/// A scalar type of the table format.
#[derive(Clone, Copy, Debug, PartialEq, Eq, Structural)]
pub enum PrimitiveType {
    Boolean,
    Int,
    Long,
    Float,
    Double,
    Decimal { precision: u32, scale: u8 },
    Date,
    Time,
    Timestamp,
    Timestamptz,
    String,
    Uuid,
    Fixed(u64),
    Binary,
}

/// A named, identified field of a struct or of a schema.
#[derive(Debug, PartialEq)]
pub struct StructField {
    pub id: i32,
    pub name: String,
    pub required: bool,
    pub field_type: SchemaType,
}

/// A field at the root of a schema.
pub type SchemaField = StructField;

/// An ordered sequence of fields.
#[derive(Debug, PartialEq)]
pub struct StructType {
    pub fields: Vec<StructField>,
}

/// A list; its element has an identifier but no name.
#[derive(Debug, PartialEq)]
pub struct ListType {
    pub element_id: i32,
    pub element_required: bool,
    pub element: Box<SchemaType>,
}

/// A map; its key is always required.
#[derive(Debug, PartialEq)]
pub struct MapType {
    pub key: Box<SchemaType>,
    pub value: Box<SchemaType>,
    pub value_required: bool,
}

/// A type of the table format.
#[derive(Debug, PartialEq)]
pub enum SchemaType {
    Primitive(PrimitiveType),
    Struct(StructType),
    List(ListType),
    Mapping(MapType),
}

/// A whole table schema: an identifier and its root fields, in order.
#[derive(Debug, PartialEq)]
pub struct Schema {
    pub id: i32,
    pub fields: Vec<SchemaField>,
}

/// The model of a [`SchemaType`].
pub enum TypeModel {
    Primitive(PrimitiveType),
    Struct(Seq<FieldModel>),
    List { element_id: i32, element_required: bool, element: Box<TypeModel> },
    Mapping { key: Box<TypeModel>, value: Box<TypeModel>, value_required: bool },
}

/// The model of a [`StructField`].
pub struct FieldModel {
    pub id: i32,
    pub name: Seq<char>,
    pub required: bool,
    pub field_type: TypeModel,
}

/// The model of a [`Schema`].
pub struct SchemaModel {
    pub id: i32,
    pub fields: Seq<FieldModel>,
}

/// The models of a sequence of fields, one for one.
pub open spec fn fields_model(fields: Seq<StructField>) -> Seq<FieldModel>
    decreases fields,
{
    if fields.len() == 0 {
        Seq::empty()
    } else {
        let last = fields.len() - 1;
        fields_model(fields.subrange(0, last)).push(fields[last].model())
    }
}

/// The model of a sequence of fields has one entry per field, each that field's model.
pub proof fn lemma_fields_model(fields: Seq<StructField>)
    ensures
        fields_model(fields).len() == fields.len(),
        forall|i: int| 0 <= i < fields.len() ==> #[trigger] fields_model(fields)[i] == fields[i].model(),
    decreases fields.len(),
{
    if fields.len() > 0 {
        lemma_fields_model(fields.subrange(0, fields.len() - 1));
    }
}

impl SchemaType {
    pub open spec fn model(&self) -> TypeModel
        decreases self,
    {
        match self {
            SchemaType::Primitive(p) => TypeModel::Primitive(*p),
            SchemaType::Struct(st) => TypeModel::Struct(fields_model(st.fields@)),
            SchemaType::List(l) => TypeModel::List {
                element_id: l.element_id,
                element_required: l.element_required,
                element: Box::new(l.element.model()),
            },
            SchemaType::Mapping(m) => TypeModel::Mapping {
                key: Box::new(m.key.model()),
                value: Box::new(m.value.model()),
                value_required: m.value_required,
            },
        }
    }
}

impl StructField {
    /// A field with the given identifier, name, requiredness and type.
    pub fn new(id: i32, name: &str, required: bool, field_type: SchemaType) -> (r: StructField)
        ensures
            r.id == id,
            r.name@ == name@,
            r.required == required,
            r.field_type == field_type,
    {
        StructField { id, name: String::from_str(name), required, field_type }
    }

    pub open spec fn model(&self) -> FieldModel
        decreases self,
    {
        FieldModel {
            id: self.id,
            name: self.name@,
            required: self.required,
            field_type: self.field_type.model(),
        }
    }
}

impl StructType {
    /// A struct of the given fields, in order.
    pub fn new(fields: Vec<StructField>) -> (r: StructType)
        ensures
            r.fields == fields,
    {
        StructType { fields }
    }
}

impl ListType {
    /// A list with the given element identifier, requiredness and type.
    pub fn new(element_id: i32, element_required: bool, element: SchemaType) -> (r: ListType)
        ensures
            r.element_id == element_id,
            r.element_required == element_required,
            *r.element == element,
    {
        ListType { element_id, element_required, element: Box::new(element) }
    }
}

impl MapType {
    /// A map with the given key type, value type and value requiredness.
    pub fn new(key: SchemaType, value: SchemaType, value_required: bool) -> (r: MapType)
        ensures
            *r.key == key,
            *r.value == value,
            r.value_required == value_required,
    {
        MapType { key: Box::new(key), value: Box::new(value), value_required }
    }
}

impl Schema {
    /// A schema with the given identifier and root fields, in order.
    pub fn new(id: i32, fields: Vec<SchemaField>) -> (r: Schema)
        ensures
            r.id == id,
            r.fields == fields,
    {
        Schema { id, fields }
    }

    pub open spec fn model(&self) -> SchemaModel {
        SchemaModel { id: self.id, fields: fields_model(self.fields@) }
    }
}

} // verus!

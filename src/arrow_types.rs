//! The Arrow schema types that the conversion produces and reads, and their
//! mathematical models.
use vstd::prelude::*;
use vstd::string::*;

verus! {

/// The unit of a time, timestamp or duration.
#[derive(Clone, Copy, Debug, PartialEq, Eq, Structural)]
pub enum ArrowTimeUnit {
    Second,
    Millisecond,
    Microsecond,
    Nanosecond,
}

/// The unit of an interval.
#[derive(Clone, Copy, Debug, PartialEq, Eq, Structural)]
pub enum ArrowIntervalUnit {
    YearMonth,
    DayTime,
    MonthDayNano,
}

/// An Arrow data type.
///
/// `Decimal128` holds its precision as the table format does; `Mapping` is
/// Arrow's map type, whose child is the struct of the entries and whose flag
/// says whether the keys are sorted.
#[derive(Debug, PartialEq)]
pub enum ArrowDataType {
    Null,
    Boolean,
    Int8,
    Int16,
    Int32,
    Int64,
    UInt8,
    UInt16,
    UInt32,
    UInt64,
    Float16,
    Float32,
    Float64,
    Timestamp(ArrowTimeUnit, Option<String>),
    Date32,
    Date64,
    Time32(ArrowTimeUnit),
    Time64(ArrowTimeUnit),
    Duration(ArrowTimeUnit),
    Interval(ArrowIntervalUnit),
    Binary,
    FixedSizeBinary(i32),
    LargeBinary,
    Utf8,
    LargeUtf8,
    List(Box<ArrowField>),
    FixedSizeList(Box<ArrowField>, i32),
    LargeList(Box<ArrowField>),
    Struct(Vec<ArrowField>),
    Dictionary(Box<ArrowDataType>, Box<ArrowDataType>),
    Decimal128(u32, i8),
    Decimal256(u8, i8),
    Mapping(Box<ArrowField>, bool),
}

/// A named Arrow field.
#[derive(Debug, PartialEq)]
pub struct ArrowField {
    pub name: String,
    pub data_type: ArrowDataType,
    pub nullable: bool,
}

/// An Arrow schema: its fields, in order.
#[derive(Debug, PartialEq)]
pub struct ArrowSchema {
    pub fields: Vec<ArrowField>,
}

/// The model of an [`ArrowDataType`].
pub enum ArrowTypeModel {
    Null,
    Boolean,
    Int8,
    Int16,
    Int32,
    Int64,
    UInt8,
    UInt16,
    UInt32,
    UInt64,
    Float16,
    Float32,
    Float64,
    Timestamp(ArrowTimeUnit, Option<Seq<char>>),
    Date32,
    Date64,
    Time32(ArrowTimeUnit),
    Time64(ArrowTimeUnit),
    Duration(ArrowTimeUnit),
    Interval(ArrowIntervalUnit),
    Binary,
    FixedSizeBinary(i32),
    LargeBinary,
    Utf8,
    LargeUtf8,
    List(Box<ArrowFieldModel>),
    FixedSizeList(Box<ArrowFieldModel>, i32),
    LargeList(Box<ArrowFieldModel>),
    Struct(Seq<ArrowFieldModel>),
    Dictionary(Box<ArrowTypeModel>, Box<ArrowTypeModel>),
    Decimal128(u32, i8),
    Decimal256(u8, i8),
    Mapping(Box<ArrowFieldModel>, bool),
}

/// The model of an [`ArrowField`].
pub struct ArrowFieldModel {
    pub name: Seq<char>,
    pub data_type: ArrowTypeModel,
    pub nullable: bool,
}

/// The models of a sequence of Arrow fields, one for one.
pub open spec fn arrow_fields_model(fields: Seq<ArrowField>) -> Seq<ArrowFieldModel>
    decreases fields,
{
    if fields.len() == 0 {
        Seq::empty()
    } else {
        let last = fields.len() - 1;
        arrow_fields_model(fields.subrange(0, last)).push(fields[last].model())
    }
}

/// The model of a sequence of Arrow fields has one entry per field, each that field's model.
pub proof fn lemma_arrow_fields_model(fields: Seq<ArrowField>)
    ensures
        arrow_fields_model(fields).len() == fields.len(),
        forall|i: int|
            0 <= i < fields.len() ==> #[trigger] arrow_fields_model(fields)[i] == fields[i].model(),
    decreases fields.len(),
{
    if fields.len() > 0 {
        lemma_arrow_fields_model(fields.subrange(0, fields.len() - 1));
    }
}

/// The model of an optional time zone.
pub open spec fn zone_model(tz: Option<String>) -> Option<Seq<char>> {
    match tz {
        Some(z) => Some(z@),
        None => None,
    }
}

impl ArrowDataType {
    pub open spec fn model(&self) -> ArrowTypeModel
        decreases self,
    {
        match self {
            ArrowDataType::Null => ArrowTypeModel::Null,
            ArrowDataType::Boolean => ArrowTypeModel::Boolean,
            ArrowDataType::Int8 => ArrowTypeModel::Int8,
            ArrowDataType::Int16 => ArrowTypeModel::Int16,
            ArrowDataType::Int32 => ArrowTypeModel::Int32,
            ArrowDataType::Int64 => ArrowTypeModel::Int64,
            ArrowDataType::UInt8 => ArrowTypeModel::UInt8,
            ArrowDataType::UInt16 => ArrowTypeModel::UInt16,
            ArrowDataType::UInt32 => ArrowTypeModel::UInt32,
            ArrowDataType::UInt64 => ArrowTypeModel::UInt64,
            ArrowDataType::Float16 => ArrowTypeModel::Float16,
            ArrowDataType::Float32 => ArrowTypeModel::Float32,
            ArrowDataType::Float64 => ArrowTypeModel::Float64,
            ArrowDataType::Timestamp(u, tz) => ArrowTypeModel::Timestamp(*u, zone_model(*tz)),
            ArrowDataType::Date32 => ArrowTypeModel::Date32,
            ArrowDataType::Date64 => ArrowTypeModel::Date64,
            ArrowDataType::Time32(u) => ArrowTypeModel::Time32(*u),
            ArrowDataType::Time64(u) => ArrowTypeModel::Time64(*u),
            ArrowDataType::Duration(u) => ArrowTypeModel::Duration(*u),
            ArrowDataType::Interval(u) => ArrowTypeModel::Interval(*u),
            ArrowDataType::Binary => ArrowTypeModel::Binary,
            ArrowDataType::FixedSizeBinary(n) => ArrowTypeModel::FixedSizeBinary(*n),
            ArrowDataType::LargeBinary => ArrowTypeModel::LargeBinary,
            ArrowDataType::Utf8 => ArrowTypeModel::Utf8,
            ArrowDataType::LargeUtf8 => ArrowTypeModel::LargeUtf8,
            ArrowDataType::List(f) => ArrowTypeModel::List(Box::new(f.model())),
            ArrowDataType::FixedSizeList(f, n) => ArrowTypeModel::FixedSizeList(
                Box::new(f.model()),
                *n,
            ),
            ArrowDataType::LargeList(f) => ArrowTypeModel::LargeList(Box::new(f.model())),
            ArrowDataType::Struct(fs) => ArrowTypeModel::Struct(arrow_fields_model(fs@)),
            ArrowDataType::Dictionary(k, v) => ArrowTypeModel::Dictionary(
                Box::new(k.model()),
                Box::new(v.model()),
            ),
            ArrowDataType::Decimal128(p, s) => ArrowTypeModel::Decimal128(*p, *s),
            ArrowDataType::Decimal256(p, s) => ArrowTypeModel::Decimal256(*p, *s),
            ArrowDataType::Mapping(f, sorted) => ArrowTypeModel::Mapping(
                Box::new(f.model()),
                *sorted,
            ),
        }
    }
}

impl ArrowField {
    /// A field with the given name, data type and nullability.
    pub fn new(name: &str, data_type: ArrowDataType, nullable: bool) -> (r: ArrowField)
        ensures
            r.name@ == name@,
            r.data_type == data_type,
            r.nullable == nullable,
    {
        ArrowField { name: String::from_str(name), data_type, nullable }
    }

    pub open spec fn model(&self) -> ArrowFieldModel
        decreases self,
    {
        ArrowFieldModel {
            name: self.name@,
            data_type: self.data_type.model(),
            nullable: self.nullable,
        }
    }
}

impl ArrowDataType {
    /// A copy of this data type.
    pub fn duplicate(&self) -> (r: ArrowDataType)
        ensures
            r.model() == self.model(),
        decreases self,
    {
        match self {
            ArrowDataType::Null => ArrowDataType::Null,
            ArrowDataType::Boolean => ArrowDataType::Boolean,
            ArrowDataType::Int8 => ArrowDataType::Int8,
            ArrowDataType::Int16 => ArrowDataType::Int16,
            ArrowDataType::Int32 => ArrowDataType::Int32,
            ArrowDataType::Int64 => ArrowDataType::Int64,
            ArrowDataType::UInt8 => ArrowDataType::UInt8,
            ArrowDataType::UInt16 => ArrowDataType::UInt16,
            ArrowDataType::UInt32 => ArrowDataType::UInt32,
            ArrowDataType::UInt64 => ArrowDataType::UInt64,
            ArrowDataType::Float16 => ArrowDataType::Float16,
            ArrowDataType::Float32 => ArrowDataType::Float32,
            ArrowDataType::Float64 => ArrowDataType::Float64,
            ArrowDataType::Date32 => ArrowDataType::Date32,
            ArrowDataType::Date64 => ArrowDataType::Date64,
            ArrowDataType::Binary => ArrowDataType::Binary,
            ArrowDataType::LargeBinary => ArrowDataType::LargeBinary,
            ArrowDataType::Utf8 => ArrowDataType::Utf8,
            ArrowDataType::LargeUtf8 => ArrowDataType::LargeUtf8,
            ArrowDataType::Timestamp(u, tz) => {
                let zone = match tz {
                    Some(z) => Some(z.clone()),
                    None => None,
                };
                ArrowDataType::Timestamp(*u, zone)
            },
            ArrowDataType::Time32(u) => ArrowDataType::Time32(*u),
            ArrowDataType::Time64(u) => ArrowDataType::Time64(*u),
            ArrowDataType::Duration(u) => ArrowDataType::Duration(*u),
            ArrowDataType::Interval(u) => ArrowDataType::Interval(*u),
            ArrowDataType::FixedSizeBinary(n) => ArrowDataType::FixedSizeBinary(*n),
            ArrowDataType::List(f) => ArrowDataType::List(Box::new(f.duplicate())),
            ArrowDataType::FixedSizeList(f, n) => ArrowDataType::FixedSizeList(
                Box::new(f.duplicate()),
                *n,
            ),
            ArrowDataType::LargeList(f) => ArrowDataType::LargeList(Box::new(f.duplicate())),
            ArrowDataType::Struct(fs) => ArrowDataType::Struct(duplicate_fields(fs)),
            ArrowDataType::Dictionary(k, v) => ArrowDataType::Dictionary(
                Box::new(k.duplicate()),
                Box::new(v.duplicate()),
            ),
            ArrowDataType::Decimal128(p, s) => ArrowDataType::Decimal128(*p, *s),
            ArrowDataType::Decimal256(p, s) => ArrowDataType::Decimal256(*p, *s),
            ArrowDataType::Mapping(f, sorted) => ArrowDataType::Mapping(
                Box::new(f.duplicate()),
                *sorted,
            ),
        }
    }
}

impl ArrowField {
    /// A copy of this field.
    pub fn duplicate(&self) -> (r: ArrowField)
        ensures
            r.model() == self.model(),
        decreases self,
    {
        ArrowField {
            name: self.name.clone(),
            data_type: self.data_type.duplicate(),
            nullable: self.nullable,
        }
    }
}

/// A copy of a sequence of Arrow fields.
pub fn duplicate_fields(fields: &Vec<ArrowField>) -> (r: Vec<ArrowField>)
    ensures
        arrow_fields_model(r@) == arrow_fields_model(fields@),
    decreases fields,
{
    let mut out: Vec<ArrowField> = Vec::new();
    let mut i: usize = 0;
    while i < fields.len()
        invariant
            i <= fields.len(),
            out.len() == i,
            forall|j: int| 0 <= j < i ==> #[trigger] out@[j].model() == fields@[j].model(),
        decreases fields.len() - i,
    {
        out.push(fields[i].duplicate());
        i += 1;
    }
    proof {
        lemma_arrow_fields_model(out@);
        lemma_arrow_fields_model(fields@);
        assert(arrow_fields_model(out@) =~= arrow_fields_model(fields@));
    }
    out
}

impl ArrowSchema {
    /// A schema of the given fields, in order.
    pub fn new(fields: Vec<ArrowField>) -> (r: ArrowSchema)
        ensures
            r.fields == fields,
    {
        ArrowSchema { fields }
    }

    pub open spec fn model(&self) -> Seq<ArrowFieldModel> {
        arrow_fields_model(self.fields@)
    }
}

} // verus!

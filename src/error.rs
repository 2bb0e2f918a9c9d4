//! The errors of a schema conversion.
use vstd::prelude::*;

use crate::arrow_types::{ArrowDataType, ArrowTypeModel};

verus! {

/// Why a type could not be converted.
#[derive(Debug, PartialEq)]
pub enum ConversionError {
    /// A decimal scale above the largest scale that Arrow can hold.
    DecimalScaleOutOfRange(u8),
    /// A fixed size above the largest size that Arrow can hold.
    FixedSizeOutOfRange(u64),
    /// An Arrow decimal with a negative scale.
    NegativeDecimalScale(i8),
    /// An Arrow fixed-size binary with a negative size.
    NegativeFixedSize(i32),
    /// An Arrow data type that has no table-format counterpart.
    UnsupportedType(ArrowDataType),
}

/// The model of a [`ConversionError`].
pub enum ErrorModel {
    DecimalScaleOutOfRange(u8),
    FixedSizeOutOfRange(u64),
    NegativeDecimalScale(i8),
    NegativeFixedSize(i32),
    UnsupportedType(ArrowTypeModel),
}

impl ConversionError {
    pub open spec fn model(&self) -> ErrorModel {
        match self {
            ConversionError::DecimalScaleOutOfRange(s) => ErrorModel::DecimalScaleOutOfRange(*s),
            ConversionError::FixedSizeOutOfRange(n) => ErrorModel::FixedSizeOutOfRange(*n),
            ConversionError::NegativeDecimalScale(s) => ErrorModel::NegativeDecimalScale(*s),
            ConversionError::NegativeFixedSize(n) => ErrorModel::NegativeFixedSize(*n),
            ConversionError::UnsupportedType(d) => ErrorModel::UnsupportedType(d.model()),
        }
    }
}

/// The error that the library's entry point reports.
#[derive(Debug, PartialEq)]
pub enum IcebergError {
    /// A schema could not be converted; the cause says why.
    SchemaError(ConversionError),
}

} // verus!

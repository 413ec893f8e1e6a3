//! Arrow types that the library carries, and the Arrow constructors it calls.
//!
//! Everything in this module is trusted: the contracts below are taken from
//! the source of `arrow-schema`, not proved.

use datafusion::arrow::datatypes::{DataType, Field, Schema};
use vstd::prelude::*;

verus! {

/// An Arrow data type; the library only carries it through.
#[verifier::external_type_specification]
#[verifier::external_body]
pub struct ExDataType(DataType);

/// An Arrow field (a named, typed column).
#[verifier::external_type_specification]
#[verifier::external_body]
pub struct ExField(Field);

/// An Arrow schema (a sequence of fields).
#[verifier::external_type_specification]
#[verifier::external_body]
pub struct ExSchema(Schema);

/// `DataType::clone` (a derived `Clone`) gives back an equal data type.
pub assume_specification[ <DataType as Clone>::clone ](t: &DataType) -> (r: DataType)
    ensures
        r == *t,
;

/// What `Field::name` returns for a field.
pub uninterp spec fn field_name(f: Field) -> Seq<char>;

/// What `Field::data_type` returns for a field.
pub uninterp spec fn field_data_type(f: Field) -> DataType;

/// What `Field::is_nullable` returns for a field.
pub uninterp spec fn field_is_nullable(f: Field) -> bool;

/// The fields that `Schema::fields` holds, in order.
pub uninterp spec fn schema_fields(s: Schema) -> Seq<Field>;

/// Calls `Field::new`, which stores the given name, data type and nullability
/// (and no metadata) in the new field.
#[verifier::external_body]
pub(crate) fn new_field(name: &str, data_type: DataType, nullable: bool) -> (f: Field)
    ensures
        field_name(f) == name@,
        field_data_type(f) == data_type,
        field_is_nullable(f) == nullable,
{
    Field::new(name, data_type, nullable)
}

/// Calls `Schema::new`, which keeps the given fields, in the given order
/// (and no metadata).
#[verifier::external_body]
pub(crate) fn new_schema(fields: Vec<Field>) -> (s: Schema)
    ensures
        schema_fields(s) == fields@,
{
    Schema::new(fields)
}

/// The text that `DataType`'s derived `Debug` gives for a data type.
pub uninterp spec fn data_type_text(t: DataType) -> Seq<char>;

/// Renders a data type with its (derived) `Debug` implementation.
#[verifier::external_body]
pub(crate) fn data_type_debug(t: &DataType) -> (s: String)
    ensures
        s@ == data_type_text(*t),
{
    format!("{:?}", t)
}

} // verus!

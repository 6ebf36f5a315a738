use vstd::prelude::*;

verus! {

/// `uuid::Uuid`, the 128-bit identifier of rows and sensors. Nothing is said
/// of what a value holds: the repository carries identifiers and compares
/// them, no more.
#[verifier::external_type_specification]
#[verifier::external_body]
pub struct ExUuid(uuid::Uuid);

/// `bigdecimal::BigDecimal`, the arbitrary-precision decimal of a reading.
/// Nothing is said of what a value holds: the repository hands values on as
/// they are.
#[verifier::external_type_specification]
#[verifier::external_body]
pub struct ExBigDecimal(bigdecimal::BigDecimal);

/// `chrono::NaiveDateTime`, the timestamp that the store gives a row. Nothing
/// is said of what a value holds.
#[verifier::external_type_specification]
#[verifier::external_body]
pub struct ExNaiveDateTime(chrono::NaiveDateTime);

/// `==` of `uuid::Uuid`, which `Uuid` derives over its sixteen bytes: it holds
/// of two identifiers exactly where they are the same identifier. Not proved
/// here; taken from the crate.
#[verifier::external_body]
pub(crate) fn same_id(a: &uuid::Uuid, b: &uuid::Uuid) -> (same: bool)
    ensures
        same == (*a == *b),
{
    a == b
}

/// `clone` of `bigdecimal::BigDecimal`, which `BigDecimal` derives over its
/// digits and its scale: the copy is the value it was taken from. Not proved
/// here; taken from the crate.
#[verifier::external_body]
pub(crate) fn copy_value(value: &bigdecimal::BigDecimal) -> (copy: bigdecimal::BigDecimal)
    ensures
        copy == *value,
{
    value.clone()
}

} // verus!

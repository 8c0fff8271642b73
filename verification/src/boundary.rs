//! The boundary to the `mysql` value domain.
//!
//! The mock model stores `mysql` values, columns and parameters without ever
//! looking inside them; the only things it needs from the `mysql` crate are a
//! column's name, exact copies of values and columns, and the two conversion
//! entry points. Each item here states exactly what is relied on.

use vstd::prelude::*;

verus! {

#[verifier::external_type_specification]
#[verifier::external_body]
pub struct ExValue(mysql::Value);

#[verifier::external_type_specification]
#[verifier::external_body]
pub struct ExColumn(mysql::Column);

#[verifier::external_type_specification]
#[verifier::external_body]
pub struct ExParams(mysql::Params);

#[verifier::external_type_specification]
#[verifier::external_body]
pub struct ExFromValueError(mysql::FromValueError);

/// The name of a column, as the characters that `Column::name_str` decodes
/// from the column's name bytes. A pure function of the column value alone.
pub uninterp spec fn column_name(c: mysql::Column) -> Seq<char>;

/// Relies on mysql's `Column::name_str`: it decodes the column's stored name
/// bytes, so the result depends on the column value alone.
#[verifier::external_body]
pub fn col_name(c: &mysql::Column) -> (r: String)
    ensures
        r@ == column_name(*c),
{
    c.name_str().into_owned()
}

/// Relies on mysql's derived `Clone` for `Column`: the clone is an exact copy.
#[verifier::external_body]
pub fn clone_column(c: &mysql::Column) -> (r: mysql::Column)
    ensures
        r == *c,
{
    c.clone()
}

/// Relies on mysql's derived `Clone` for `Value`: the clone is an exact copy.
#[verifier::external_body]
pub fn clone_value(v: &mysql::Value) -> (r: mysql::Value)
    ensures
        r == *v,
{
    v.clone()
}

/// Relies on mysql's `from_value`, the strict conversion of the value domain:
/// it aborts the process on a type mismatch, which is the documented fate of a
/// strict extraction from a mock row. Nothing can be promised of the typed
/// result, so callers state everything else and leave the converted value to
/// the conversion itself.
pub assume_specification<T: mysql::prelude::FromValue>[ mysql::from_value::<T> ](
    v: mysql::Value,
) -> (r: T);

/// Relies on mysql's `from_value_opt`, the fallible conversion of the value
/// domain: a type mismatch comes back as `Err` rather than aborting.
pub assume_specification<T: mysql::prelude::FromValue>[ mysql::from_value_opt::<T> ](
    v: mysql::Value,
) -> (r: Result<T, mysql::FromValueError>);

} // verus!

//! The generic numeric adapter: classifies a dynamically-typed decoded value
//! into an optional 64-bit native value. A value that is not a number, not
//! representable as a 64-bit signed integer, or negative all collapse to the
//! same absent outcome; that one-way loss is deliberate.

use vstd::prelude::*;

use crate::native::opt_entry_spec;
use crate::native::opt_negative2none;

verus! {

#[verifier::external_type_specification]
#[verifier::external_body]
pub struct ExNumber(serde_json::Number);

#[verifier::external_type_specification]
#[verifier::external_body]
pub struct ExValue(serde_json::Value);

pub uninterp spec fn number_as_i64_of(number: serde_json::Number) -> Option<i64>;

pub uninterp spec fn value_number_of(val: serde_json::Value) -> Option<serde_json::Number>;

/// Relies on serde_json's `Number::as_i64`: `Some` exactly when the number
/// is an integer representable as an `i64`, `None` otherwise — a function of
/// the number alone, named `number_as_i64_of`.
#[verifier::external_body]
fn number_as_i64(number: &serde_json::Number) -> (r: Option<i64>)
    ensures
        r == number_as_i64_of(*number),
{
    number.as_i64()
}

/// Relies on telling `serde_json::Value`'s variants apart: the number held
/// by the `Number` variant — a function of the value alone, named
/// `value_number_of` — nothing for any other variant.
#[verifier::external_body]
fn value_as_number(val: &serde_json::Value) -> (r: Option<&serde_json::Number>)
    ensures
        r matches Some(n) ==> value_number_of(*val) == Some(*n),
        r is None <==> value_number_of(*val) is None,
{
    match val {
        serde_json::Value::Number(n) => Some(n),
        _ => None,
    }
}

/// What the adapter yields for a decoded value: the classified 64-bit
/// reading of the number it holds, absent for every other variant.
pub open spec fn val2opt_spec(val: serde_json::Value) -> Option<i64> {
    match value_number_of(val) {
        Some(n) => opt_entry_spec(number_as_i64_of(n)),
        None => None,
    }
}

/// Classifies a decoded number: its 64-bit reading — `Some` exactly when the
/// number is an integer in `i64` range — is put through the sentinel
/// classification, so an unreadable or negative number comes out absent.
pub fn num2opt(number: &serde_json::Number) -> (r: Option<i64>)
    ensures
        r == opt_entry_spec(number_as_i64_of(*number)),
        r matches Some(v) ==> v >= 0,
{
    let oi: Option<i64> = number_as_i64(number);
    opt_negative2none(oi)
}

/// Classifies a decoded value: the number held by a `Number` value is
/// classified as `num2opt` does; every other variant comes out absent.
pub fn val2opt(val: &serde_json::Value) -> (r: Option<i64>)
    ensures
        r == val2opt_spec(*val),
        r matches Some(v) ==> v >= 0,
{
    match value_as_number(val) {
        Some(n) => num2opt(n),
        None => None,
    }
}

} // verus!

//! Reading the rows that the record store answers with. A row is a JSON
//! value of `serde_json`, opaque here: what it holds is known only through
//! `serde_json`'s own accessors.

use vstd::prelude::*;

verus! {

/// A JSON value of `serde_json`.
#[verifier::external_type_specification]
#[verifier::external_body]
pub struct ExValue(serde_json::Value);

/// The member that `serde_json::Value::get` finds in `value` under the string
/// key `key`: a member of that name if `value` is an object that has one,
/// none otherwise.
pub uninterp spec fn json_member(value: serde_json::Value, key: Seq<char>) -> Option<serde_json::Value>;

/// What `serde_json::Value::as_i64` reads from `value`: the number if `value`
/// is an integer that fits an `i64`, none otherwise.
pub uninterp spec fn json_as_i64(value: serde_json::Value) -> Option<i64>;

/// What `serde_json::Value::as_bool` reads from `value`: the flag if `value`
/// is a boolean, none otherwise.
pub uninterp spec fn json_as_bool(value: serde_json::Value) -> Option<bool>;

/// `serde_json::Value::get` with a string key. The contract names the member
/// that is found, and says that none is reported exactly when there is none.
#[verifier::external_body]
fn member<'a>(value: &'a serde_json::Value, key: &str) -> (found: Option<&'a serde_json::Value>)
    ensures
        match found {
            Some(m) => json_member(*value, key@) == Some(*m),
            None => json_member(*value, key@) is None,
        },
{
    value.get(key)
}

/// `serde_json::Value::as_i64`; the contract names its result.
pub assume_specification[ serde_json::Value::as_i64 ](value: &serde_json::Value) -> (n: Option<i64>)
    ensures
        n == json_as_i64(*value),
;

/// `serde_json::Value::as_bool`; the contract names its result.
pub assume_specification[ serde_json::Value::as_bool ](value: &serde_json::Value) -> (b: Option<bool>)
    ensures
        b == json_as_bool(*value),
;

/// The integer that `row` holds in the column `column`, if it holds one.
pub open spec fn integer_at(row: serde_json::Value, column: Seq<char>) -> Option<i64> {
    match json_member(row, column) {
        Some(cell) => json_as_i64(cell),
        None => None,
    }
}

/// The flag that `row` holds in the column `column`, if it holds one.
pub open spec fn flag_at(row: serde_json::Value, column: Seq<char>) -> Option<bool> {
    match json_member(row, column) {
        Some(cell) => json_as_bool(cell),
        None => None,
    }
}

/// Reads an integer column of a row.
pub fn read_integer(row: &serde_json::Value, column: &str) -> (n: Option<i64>)
    ensures
        n == integer_at(*row, column@),
{
    match member(row, column) {
        Some(cell) => cell.as_i64(),
        None => None,
    }
}

/// Reads a boolean column of a row.
pub fn read_flag(row: &serde_json::Value, column: &str) -> (b: Option<bool>)
    ensures
        b == flag_at(*row, column@),
{
    match member(row, column) {
        Some(cell) => cell.as_bool(),
        None => None,
    }
}

} // verus!

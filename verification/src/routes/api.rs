//! Input rules of the asset API.

use vstd::prelude::*;
use crate::error::{AppError, InsertOutcome, is_invalid_input};
use crate::text::{trim, trim_spec};

verus! {

/// The bits of the IEEE 754 exponent field of an `f64`.
pub const EXPONENT_MASK: u64 = 0x7ff0_0000_0000_0000;

/// The `f64` with only the sign bit set: negative zero.
pub const NEGATIVE_ZERO_BITS: u64 = 0x8000_0000_0000_0000;

/// The unit value of an asset: an `f64` held as its IEEE 754 bit pattern
/// (what `f64::to_bits` gives).
#[derive(Debug, Clone, Copy)]
pub struct UnitValue {
    pub bits: u64,
}

/// Whether the `f64` with these bits is finite: its exponent field is not all ones.
pub open spec fn is_finite_bits(bits: u64) -> bool {
    bits & EXPONENT_MASK != EXPONENT_MASK
}

/// Whether the `f64` with these bits, if it is a number, is below zero: the sign bit is
/// set and the rest is not all zero (negative zero is not below zero).
pub open spec fn is_below_zero_bits(bits: u64) -> bool {
    bits > NEGATIVE_ZERO_BITS
}

/// Whether a unit value is accepted: a finite number that is not below zero.
pub open spec fn acceptable_unit_value(v: UnitValue) -> bool {
    is_finite_bits(v.bits) && !is_below_zero_bits(v.bits)
}

/// The accepted unit values are exactly the finite `f64`s that are not below zero:
/// every bit pattern below that of positive infinity (positive zero, the positive
/// subnormals and the positive normal numbers, in increasing order), and negative
/// zero. Infinities, NaNs and negative numbers are refused.
pub proof fn lemma_acceptable_unit_values(v: UnitValue)
    ensures
        acceptable_unit_value(v) <==> (v.bits < 0x7ff0_0000_0000_0000 || v.bits
            == 0x8000_0000_0000_0000),
{
    let b = v.bits;
    assert((b & 0x7ff0_0000_0000_0000u64 != 0x7ff0_0000_0000_0000u64 && b
        <= 0x8000_0000_0000_0000u64) <==> (b < 0x7ff0_0000_0000_0000u64 || b
        == 0x8000_0000_0000_0000u64)) by (bit_vector);
}

/// The text of the error for an asset name that is empty or only white space.
pub open spec fn empty_asset_name_message() -> Seq<char> {
    "o nome do ativo não pode ser vazio"@
}

/// The text of the error for a unit value that is not accepted.
pub open spec fn invalid_unit_value_message() -> Seq<char> {
    "unit_value precisa ser um número válido e não-negativo"@
}

/// The text of the error for an asset name that is already in use.
pub open spec fn duplicate_asset_message(name: Seq<char>) -> Seq<char> {
    "já existe um ativo chamado '"@ + name + "'"@
}

impl UnitValue {
    /// The unit value whose `f64` has the given bits.
    pub fn from_bits(bits: u64) -> (v: UnitValue)
        ensures
            v.bits == bits,
    {
        UnitValue { bits }
    }

    /// Whether the value is accepted: finite and not below zero.
    pub fn is_acceptable(&self) -> (r: bool)
        ensures
            r == acceptable_unit_value(*self),
    {
        (self.bits & EXPONENT_MASK) != EXPONENT_MASK && self.bits <= NEGATIVE_ZERO_BITS
    }
}

fn invalid_input(message: &str) -> (r: AppError)
    ensures
        r matches AppError::InvalidInput(m) && m@ == message@,
{
    AppError::InvalidInput(String::from_str(message))
}

/// Checks the data of a new asset. A name that is empty once trimmed, then a unit value
/// that is not finite or is below zero, are refused in that order; otherwise the
/// result is the trimmed name, which is the name stored.
pub fn validate_new_asset(name: &str, unit_value: UnitValue) -> (r: Result<String, AppError>)
    ensures
        trim_spec(name@).len() == 0 ==> is_invalid_input(r, empty_asset_name_message()),
        trim_spec(name@).len() != 0 && !acceptable_unit_value(unit_value) ==> is_invalid_input(
            r,
            invalid_unit_value_message(),
        ),
        trim_spec(name@).len() != 0 && acceptable_unit_value(unit_value) ==> (r matches Ok(n)
            && n@ == trim_spec(name@)),
{
    let trimmed = trim(name);
    if trimmed.as_str().unicode_len() == 0 {
        return Err(invalid_input("o nome do ativo não pode ser vazio"));
    }
    if !unit_value.is_acceptable() {
        return Err(invalid_input("unit_value precisa ser um número válido e não-negativo"));
    }
    Ok(trimmed)
}

/// What storing a new asset named `name` gives: the stored asset, or an input error
/// that names the asset when the name is already in use.
pub fn created_asset<T>(name: &str, outcome: InsertOutcome<T>) -> (r: Result<T, AppError>)
    ensures
        match outcome {
            InsertOutcome::Inserted(a) => r == Ok::<T, AppError>(a),
            InsertOutcome::Duplicate => is_invalid_input(r, duplicate_asset_message(name@)),
        },
{
    match outcome {
        InsertOutcome::Inserted(a) => Ok(a),
        InsertOutcome::Duplicate => {
            let mut message = String::from_str("já existe um ativo chamado '");
            message.append(name);
            message.append("'");
            Err(AppError::InvalidInput(message))
        },
    }
}

/// Checks the data of an asset update, where each field is optional. A given name that
/// is empty once trimmed, then a given unit value that is not accepted, are refused in
/// that order. The name is stored as given, untrimmed.
pub fn validate_asset_update(name: Option<&str>, unit_value: Option<UnitValue>) -> (r: Result<
    (),
    AppError,
>)
    ensures
        (name matches Some(n) && trim_spec(n@).len() == 0) ==> is_invalid_input(
            r,
            empty_asset_name_message(),
        ),
        !(name matches Some(n) && trim_spec(n@).len() == 0) && (unit_value matches Some(v)
            && !acceptable_unit_value(v)) ==> is_invalid_input(r, invalid_unit_value_message()),
        !(name matches Some(n) && trim_spec(n@).len() == 0) && !(unit_value matches Some(v)
            && !acceptable_unit_value(v)) ==> r is Ok,
{
    if let Some(n) = name {
        let trimmed = trim(n);
        if trimmed.as_str().unicode_len() == 0 {
            return Err(invalid_input("o nome do ativo não pode ser vazio"));
        }
    }
    if let Some(v) = unit_value {
        if !v.is_acceptable() {
            return Err(invalid_input("unit_value precisa ser um número válido e não-negativo"));
        }
    }
    Ok(())
}

/// What updating an asset gives: the updated asset, or `AssetDoesNotExist` when no
/// asset has the id.
pub fn updated_asset<T>(found: Option<T>) -> (r: Result<T, AppError>)
    ensures
        match found {
            Some(a) => r == Ok::<T, AppError>(a),
            None => r matches Err(AppError::AssetDoesNotExist),
        },
{
    match found {
        Some(a) => Ok(a),
        None => Err(AppError::AssetDoesNotExist),
    }
}

} // verus!

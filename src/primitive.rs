//! Codecs for the fixed-width integers.
//!
//! Signed integers are written as `I64` and read back from `I64` or `U64`;
//! unsigned integers are written and read as `U64`. Reading narrows with a
//! truncating cast, so a value out of the target's range wraps silently.
//! Floating-point numbers travel as `F64` bit patterns.

use vstd::prelude::*;
use crate::error::{Kind, MarshalError};
use crate::json::{round_trips, FromJsonnable, ToJsonnable};
use crate::value::{Tree, Value};

verus! {

impl ToJsonnable for i8 {
    open spec fn encoded(m: i8) -> Tree {
        Tree::I64(m as i64)
    }

    fn to_json(&self) -> (r: Value) {
        Value::I64(*self as i64)
    }
}

impl FromJsonnable for i8 {
    open spec fn decoded(t: Tree) -> Result<i8, MarshalError> {
        match t {
            Tree::I64(x) => Ok(x as i8),
            Tree::U64(x) => Ok(x as i8),
            _ => Err(MarshalError::TypeMismatch(Kind::I64)),
        }
    }

    fn from_json(json: Value) -> (r: Result<i8, MarshalError>) {
        match json {
            Value::I64(x) => Ok(#[verifier::truncate] (x as i8)),
            Value::U64(x) => Ok(#[verifier::truncate] (x as i8)),
            _ => Err(MarshalError::TypeMismatch(Kind::I64)),
        }
    }
}

impl ToJsonnable for i16 {
    open spec fn encoded(m: i16) -> Tree {
        Tree::I64(m as i64)
    }

    fn to_json(&self) -> (r: Value) {
        Value::I64(*self as i64)
    }
}

impl FromJsonnable for i16 {
    open spec fn decoded(t: Tree) -> Result<i16, MarshalError> {
        match t {
            Tree::I64(x) => Ok(x as i16),
            Tree::U64(x) => Ok(x as i16),
            _ => Err(MarshalError::TypeMismatch(Kind::I64)),
        }
    }

    fn from_json(json: Value) -> (r: Result<i16, MarshalError>) {
        match json {
            Value::I64(x) => Ok(#[verifier::truncate] (x as i16)),
            Value::U64(x) => Ok(#[verifier::truncate] (x as i16)),
            _ => Err(MarshalError::TypeMismatch(Kind::I64)),
        }
    }
}

impl ToJsonnable for i32 {
    open spec fn encoded(m: i32) -> Tree {
        Tree::I64(m as i64)
    }

    fn to_json(&self) -> (r: Value) {
        Value::I64(*self as i64)
    }
}

impl FromJsonnable for i32 {
    open spec fn decoded(t: Tree) -> Result<i32, MarshalError> {
        match t {
            Tree::I64(x) => Ok(x as i32),
            Tree::U64(x) => Ok(x as i32),
            _ => Err(MarshalError::TypeMismatch(Kind::I64)),
        }
    }

    fn from_json(json: Value) -> (r: Result<i32, MarshalError>) {
        match json {
            Value::I64(x) => Ok(#[verifier::truncate] (x as i32)),
            Value::U64(x) => Ok(#[verifier::truncate] (x as i32)),
            _ => Err(MarshalError::TypeMismatch(Kind::I64)),
        }
    }
}

impl ToJsonnable for i64 {
    open spec fn encoded(m: i64) -> Tree {
        Tree::I64(m as i64)
    }

    fn to_json(&self) -> (r: Value) {
        Value::I64(*self as i64)
    }
}

impl FromJsonnable for i64 {
    open spec fn decoded(t: Tree) -> Result<i64, MarshalError> {
        match t {
            Tree::I64(x) => Ok(x as i64),
            Tree::U64(x) => Ok(x as i64),
            _ => Err(MarshalError::TypeMismatch(Kind::I64)),
        }
    }

    fn from_json(json: Value) -> (r: Result<i64, MarshalError>) {
        match json {
            Value::I64(x) => Ok(#[verifier::truncate] (x as i64)),
            Value::U64(x) => Ok(#[verifier::truncate] (x as i64)),
            _ => Err(MarshalError::TypeMismatch(Kind::I64)),
        }
    }
}

impl ToJsonnable for u8 {
    open spec fn encoded(m: u8) -> Tree {
        Tree::U64(m as u64)
    }

    fn to_json(&self) -> (r: Value) {
        Value::U64(*self as u64)
    }
}

impl FromJsonnable for u8 {
    open spec fn decoded(t: Tree) -> Result<u8, MarshalError> {
        match t {
            Tree::U64(x) => Ok(x as u8),
            _ => Err(MarshalError::TypeMismatch(Kind::U64)),
        }
    }

    fn from_json(json: Value) -> (r: Result<u8, MarshalError>) {
        match json {
            Value::U64(x) => Ok(#[verifier::truncate] (x as u8)),
            _ => Err(MarshalError::TypeMismatch(Kind::U64)),
        }
    }
}

impl ToJsonnable for u16 {
    open spec fn encoded(m: u16) -> Tree {
        Tree::U64(m as u64)
    }

    fn to_json(&self) -> (r: Value) {
        Value::U64(*self as u64)
    }
}

impl FromJsonnable for u16 {
    open spec fn decoded(t: Tree) -> Result<u16, MarshalError> {
        match t {
            Tree::U64(x) => Ok(x as u16),
            _ => Err(MarshalError::TypeMismatch(Kind::U64)),
        }
    }

    fn from_json(json: Value) -> (r: Result<u16, MarshalError>) {
        match json {
            Value::U64(x) => Ok(#[verifier::truncate] (x as u16)),
            _ => Err(MarshalError::TypeMismatch(Kind::U64)),
        }
    }
}

impl ToJsonnable for u32 {
    open spec fn encoded(m: u32) -> Tree {
        Tree::U64(m as u64)
    }

    fn to_json(&self) -> (r: Value) {
        Value::U64(*self as u64)
    }
}

impl FromJsonnable for u32 {
    open spec fn decoded(t: Tree) -> Result<u32, MarshalError> {
        match t {
            Tree::U64(x) => Ok(x as u32),
            _ => Err(MarshalError::TypeMismatch(Kind::U64)),
        }
    }

    fn from_json(json: Value) -> (r: Result<u32, MarshalError>) {
        match json {
            Value::U64(x) => Ok(#[verifier::truncate] (x as u32)),
            _ => Err(MarshalError::TypeMismatch(Kind::U64)),
        }
    }
}

impl ToJsonnable for u64 {
    open spec fn encoded(m: u64) -> Tree {
        Tree::U64(m as u64)
    }

    fn to_json(&self) -> (r: Value) {
        Value::U64(*self as u64)
    }
}

impl FromJsonnable for u64 {
    open spec fn decoded(t: Tree) -> Result<u64, MarshalError> {
        match t {
            Tree::U64(x) => Ok(x as u64),
            _ => Err(MarshalError::TypeMismatch(Kind::U64)),
        }
    }

    fn from_json(json: Value) -> (r: Result<u64, MarshalError>) {
        match json {
            Value::U64(x) => Ok(#[verifier::truncate] (x as u64)),
            _ => Err(MarshalError::TypeMismatch(Kind::U64)),
        }
    }
}

/// Reads the bit pattern of a floating-point number: only an `F64` value is one.
/// Turning the bits into a float, and narrowing it, is left to the caller.
pub fn float_bits_from_json(json: Value) -> (r: Result<u64, MarshalError>)
    ensures
        r == (match json@ {
            Tree::F64(bits) => Ok(bits),
            _ => Err(MarshalError::TypeMismatch(Kind::F64)),
        }),
{
    match json {
        Value::F64(bits) => Ok(bits),
        _ => Err(MarshalError::TypeMismatch(Kind::F64)),
    }
}

/// Writing a fixed-width integer and reading it back gives the same integer.
pub proof fn integers_round_trip()
    ensures
        forall|n: i8| round_trips::<i8>(n),
        forall|n: i16| round_trips::<i16>(n),
        forall|n: i32| round_trips::<i32>(n),
        forall|n: i64| round_trips::<i64>(n),
        forall|n: u8| round_trips::<u8>(n),
        forall|n: u16| round_trips::<u16>(n),
        forall|n: u32| round_trips::<u32>(n),
        forall|n: u64| round_trips::<u64>(n),
{
    assert forall|n: i8| round_trips::<i8>(n) by {
        assert(((n as i64) as i8) == n) by (bit_vector);
    }
    assert forall|n: i16| round_trips::<i16>(n) by {
        assert(((n as i64) as i16) == n) by (bit_vector);
    }
    assert forall|n: i32| round_trips::<i32>(n) by {
        assert(((n as i64) as i32) == n) by (bit_vector);
    }
    assert forall|n: i64| round_trips::<i64>(n) by {
        assert(((n as i64) as i64) == n) by (bit_vector);
    }
    assert forall|n: u8| round_trips::<u8>(n) by {
        assert(((n as u64) as u8) == n) by (bit_vector);
    }
    assert forall|n: u16| round_trips::<u16>(n) by {
        assert(((n as u64) as u16) == n) by (bit_vector);
    }
    assert forall|n: u32| round_trips::<u32>(n) by {
        assert(((n as u64) as u32) == n) by (bit_vector);
    }
    assert forall|n: u64| round_trips::<u64>(n) by {
        assert(((n as u64) as u64) == n) by (bit_vector);
    }
}

} // verus!

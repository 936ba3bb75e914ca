//! The wire forms of numbers, booleans, strings and untyped trees.

use vstd::prelude::*;
use crate::json::{Json, JsonView, Number, NumberView};
use crate::wire::{DecodeError, Wire};

verus! {

impl Wire for i64 {
    open spec fn spec_decode(v: JsonView) -> Result<i64, DecodeError> {
        match v {
            JsonView::Number(NumberView::Integer(n)) => if i64::MIN <= n <= i64::MAX {
                Ok(n as i64)
            } else {
                Err(DecodeError::TypeMismatch)
            },
            _ => Err(DecodeError::TypeMismatch),
        }
    }

    open spec fn spec_absent() -> Result<i64, DecodeError> {
        Err(DecodeError::MissingField)
    }

    open spec fn spec_encode(x: i64) -> JsonView {
        JsonView::Number(NumberView::Integer(x as int))
    }

    fn decode(v: &Json) -> (r: Result<i64, DecodeError>) {
        match v {
            Json::Number(Number::Int(i)) => Ok(*i),
            Json::Number(Number::UInt(u)) => if *u <= 0x7fff_ffff_ffff_ffff {
                Ok(*u as i64)
            } else {
                Err(DecodeError::TypeMismatch)
            },
            _ => Err(DecodeError::TypeMismatch),
        }
    }

    fn absent() -> (r: Result<i64, DecodeError>) {
        Err(DecodeError::MissingField)
    }

    fn encode(&self) -> (r: Json) {
        Json::Number(Number::Int(*self))
    }

    proof fn lemma_round_trip(v: JsonView) {
    }

    proof fn lemma_absent_round_trip() {
    }

    proof fn lemma_writable(v: JsonView) {
    }
}

impl Wire for u32 {
    open spec fn spec_decode(v: JsonView) -> Result<u32, DecodeError> {
        match v {
            JsonView::Number(NumberView::Integer(n)) => if 0 <= n <= u32::MAX {
                Ok(n as u32)
            } else {
                Err(DecodeError::TypeMismatch)
            },
            _ => Err(DecodeError::TypeMismatch),
        }
    }

    open spec fn spec_absent() -> Result<u32, DecodeError> {
        Err(DecodeError::MissingField)
    }

    open spec fn spec_encode(x: u32) -> JsonView {
        JsonView::Number(NumberView::Integer(x as int))
    }

    fn decode(v: &Json) -> (r: Result<u32, DecodeError>) {
        match v {
            Json::Number(Number::Int(i)) => if 0 <= *i && *i <= 0xffff_ffff {
                Ok(*i as u32)
            } else {
                Err(DecodeError::TypeMismatch)
            },
            Json::Number(Number::UInt(u)) => if *u <= 0xffff_ffff {
                Ok(*u as u32)
            } else {
                Err(DecodeError::TypeMismatch)
            },
            _ => Err(DecodeError::TypeMismatch),
        }
    }

    fn absent() -> (r: Result<u32, DecodeError>) {
        Err(DecodeError::MissingField)
    }

    fn encode(&self) -> (r: Json) {
        Json::Number(Number::Int(*self as i64))
    }

    proof fn lemma_round_trip(v: JsonView) {
    }

    proof fn lemma_absent_round_trip() {
    }

    proof fn lemma_writable(v: JsonView) {
    }
}

impl Wire for bool {
    open spec fn spec_decode(v: JsonView) -> Result<bool, DecodeError> {
        match v {
            JsonView::Bool(b) => Ok(b),
            _ => Err(DecodeError::TypeMismatch),
        }
    }

    open spec fn spec_absent() -> Result<bool, DecodeError> {
        Err(DecodeError::MissingField)
    }

    open spec fn spec_encode(x: bool) -> JsonView {
        JsonView::Bool(x)
    }

    fn decode(v: &Json) -> (r: Result<bool, DecodeError>) {
        match v {
            Json::Bool(b) => Ok(*b),
            _ => Err(DecodeError::TypeMismatch),
        }
    }

    fn absent() -> (r: Result<bool, DecodeError>) {
        Err(DecodeError::MissingField)
    }

    fn encode(&self) -> (r: Json) {
        Json::Bool(*self)
    }

    proof fn lemma_round_trip(v: JsonView) {
    }

    proof fn lemma_absent_round_trip() {
    }

    proof fn lemma_writable(v: JsonView) {
    }
}

impl Wire for String {
    open spec fn spec_decode(v: JsonView) -> Result<Seq<char>, DecodeError> {
        match v {
            JsonView::Str(s) => Ok(s),
            _ => Err(DecodeError::TypeMismatch),
        }
    }

    open spec fn spec_absent() -> Result<Seq<char>, DecodeError> {
        Err(DecodeError::MissingField)
    }

    open spec fn spec_encode(x: Seq<char>) -> JsonView {
        JsonView::Str(x)
    }

    fn decode(v: &Json) -> (r: Result<String, DecodeError>) {
        match v {
            Json::Str(s) => Ok(s.clone()),
            _ => Err(DecodeError::TypeMismatch),
        }
    }

    fn absent() -> (r: Result<String, DecodeError>) {
        Err(DecodeError::MissingField)
    }

    fn encode(&self) -> (r: Json) {
        Json::Str(self.clone())
    }

    proof fn lemma_round_trip(v: JsonView) {
    }

    proof fn lemma_absent_round_trip() {
    }

    proof fn lemma_writable(v: JsonView) {
    }
}

/// A number of any form, kept as written: the wire form of a field that
/// holds a fraction.
impl Wire for Number {
    open spec fn spec_decode(v: JsonView) -> Result<NumberView, DecodeError> {
        match v {
            JsonView::Number(n) => Ok(n),
            _ => Err(DecodeError::TypeMismatch),
        }
    }

    open spec fn spec_absent() -> Result<NumberView, DecodeError> {
        Err(DecodeError::MissingField)
    }

    open spec fn spec_encode(x: NumberView) -> JsonView {
        JsonView::Number(x)
    }

    fn decode(v: &Json) -> (r: Result<Number, DecodeError>) {
        match v {
            Json::Number(n) => Ok(n.duplicate()),
            _ => Err(DecodeError::TypeMismatch),
        }
    }

    fn absent() -> (r: Result<Number, DecodeError>) {
        Err(DecodeError::MissingField)
    }

    fn encode(&self) -> (r: Json) {
        Json::Number(self.duplicate())
    }

    proof fn lemma_round_trip(v: JsonView) {
    }

    proof fn lemma_absent_round_trip() {
    }

    proof fn lemma_writable(v: JsonView) {
    }
}

/// An untyped tree, kept as it is: the wire form of a substructure that the
/// schema does not look into.
impl Wire for Json {
    open spec fn spec_decode(v: JsonView) -> Result<JsonView, DecodeError> {
        Ok(v)
    }

    open spec fn spec_absent() -> Result<JsonView, DecodeError> {
        Err(DecodeError::MissingField)
    }

    open spec fn spec_encode(x: JsonView) -> JsonView {
        x
    }

    fn decode(v: &Json) -> (r: Result<Json, DecodeError>) {
        Ok(v.duplicate())
    }

    fn absent() -> (r: Result<Json, DecodeError>) {
        Err(DecodeError::MissingField)
    }

    fn encode(&self) -> (r: Json) {
        self.duplicate()
    }

    proof fn lemma_round_trip(v: JsonView) {
    }

    proof fn lemma_absent_round_trip() {
    }

    proof fn lemma_writable(v: JsonView) {
    }
}

} // verus!

use vstd::prelude::*;

use crate::error::expected_reason;
use crate::error::length_bound_reason;
use crate::error::length_mismatch_reason;
use crate::error::ErrorKind;
use crate::error::ValidationError;
use crate::semantics::eval;
use crate::semantics::obeys;
use crate::semantics::safe_obeys;
use crate::semantics::with_base;
use crate::value::clone_value;
use crate::value::Value;
use crate::BType;
use crate::BValueBase;
use crate::BWrapped;
use crate::ParseSafeRes;

verus! {

/// Schema accepting strings; lengths are measured in bytes of the UTF-8
/// encoding, and `len` is an exact length that overrides `min`/`max` when
/// present.
#[derive(Clone, Copy, PartialEq, Eq, Structural, Debug)]
pub struct BString {
    pub base: BValueBase,
    pub len: Option<u32>,
    pub min: Option<u32>,
    pub max: Option<u32>,
}

impl BString {
    pub fn default() -> (r: BString)
        ensures
            r.base == (BValueBase { optional: false, nullable: false }),
            r.len is None,
            r.min is None,
            r.max is None,
    {
        BString { base: BValueBase::default(), len: None, min: None, max: None }
    }

    pub fn parse(&self, value: &Value) -> (r: Result<Value, ValidationError>)
        ensures
            obeys(r, eval(self@, value@)),
    {
        match self.base.skip_parse(value) {
            Err(e) => Err(e),
            Ok(true) => Ok(clone_value(value)),
            Ok(false) => match value {
                Value::String(s) => {
                    let length = s.as_str().as_bytes().len();
                    if let Some(expected) = self.len {
                        if length as u64 != expected as u64 {
                            let reason = length_mismatch_reason(
                                "String",
                                length as u64,
                                expected as u64,
                            );
                            return Err(ValidationError { kind: ErrorKind::InvalidArgument, reason });
                        }
                    } else {
                        if let Some(min) = self.min {
                            if length < min as usize {
                                let reason = length_bound_reason("String", true);
                                return Err(
                                    ValidationError { kind: ErrorKind::InvalidArgument, reason },
                                );
                            }
                        }
                        if let Some(max) = self.max {
                            if length > max as usize {
                                let reason = length_bound_reason("String", false);
                                return Err(
                                    ValidationError { kind: ErrorKind::InvalidArgument, reason },
                                );
                            }
                        }
                    }
                    Ok(Value::String(s.clone()))
                },
                _ => Err(
                    ValidationError {
                        kind: ErrorKind::TypeMismatch,
                        reason: expected_reason("String"),
                    },
                ),
            },
        }
    }

    pub fn parse_safe(&self, value: &Value) -> (r: ParseSafeRes)
        ensures
            safe_obeys(r, eval(self@, value@)),
    {
        match self.parse(value) {
            Ok(data) => ParseSafeRes { success: true, data: Some(data), reason: None },
            Err(error) => ParseSafeRes { success: false, data: None, reason: Some(error.reason) },
        }
    }

    /// An exact length; it overrides `min`/`max` when present.
    pub fn length(&self, value: u32) -> (r: Self)
        ensures
            r == (BString { base: self.base, len: Some(value), min: self.min, max: self.max }),
    {
        BString { len: Some(value), ..*self }
    }

    pub fn min(&self, value: u32) -> (r: Self)
        ensures
            r == (BString { base: self.base, len: self.len, min: Some(value), max: self.max }),
    {
        BString { min: Some(value), ..*self }
    }

    pub fn max(&self, value: u32) -> (r: Self)
        ensures
            r == (BString { base: self.base, len: self.len, min: self.min, max: Some(value) }),
    {
        BString { max: Some(value), ..*self }
    }

    pub fn get_base(&self) -> (r: &BValueBase)
        ensures
            *r == self.base,
    {
        &self.base
    }

    pub fn optional(&self) -> (r: Self)
        ensures
            r@ == with_base(self@, BValueBase { optional: true, nullable: self.base.nullable }),
    {
        BString { base: BValueBase { optional: true, nullable: self.base.nullable }, ..*self }
    }

    pub fn nullable(&self) -> (r: Self)
        ensures
            r@ == with_base(self@, BValueBase { optional: self.base.optional, nullable: true }),
    {
        BString { base: BValueBase { optional: self.base.optional, nullable: true }, ..*self }
    }

    pub fn nullish(&self) -> (r: Self)
        ensures
            r@ == with_base(self@, BValueBase { optional: true, nullable: true }),
    {
        BString { base: BValueBase { optional: true, nullable: true }, ..*self }
    }

    pub fn required(&self) -> (r: Self)
        ensures
            r@ == with_base(self@, BValueBase { optional: false, nullable: self.base.nullable }),
    {
        BString { base: BValueBase { optional: false, nullable: self.base.nullable }, ..*self }
    }

    pub fn non_nullable(&self) -> (r: Self)
        ensures
            r@ == with_base(self@, BValueBase { optional: self.base.optional, nullable: false }),
    {
        BString { base: BValueBase { optional: self.base.optional, nullable: false }, ..*self }
    }

    /// This schema behind the common tag, for use as a composite's child.
    pub fn to_wrapped(&self) -> (r: BWrapped)
        ensures
            r@ == self@,
    {
        BWrapped { inner: BType::String(*self) }
    }
}

} // verus!

use vstd::prelude::*;

use crate::error::expected_reason;
use crate::error::invalid_arg;
use crate::error::ErrorKind;
use crate::error::ValidationError;
use crate::semantics::eval;
use crate::semantics::obeys;
use crate::semantics::safe_obeys;
use crate::semantics::with_base;
use crate::value::clone_value;
use crate::value::Value;
use crate::BType;
use crate::BValueBase;
use crate::BWrapped;
use crate::ParseSafeRes;

verus! {

/// Schema accepting numbers, optionally bounded below and above.
#[derive(Clone, Copy, PartialEq, Eq, Structural, Debug)]
pub struct BNumber {
    pub base: BValueBase,
    pub min: Option<i64>,
    pub max: Option<i64>,
}

impl BNumber {
    pub fn default() -> (r: BNumber)
        ensures
            r.base == (BValueBase { optional: false, nullable: false }),
            r.min is None,
            r.max is None,
    {
        BNumber { base: BValueBase::default(), min: None, max: None }
    }

    pub fn parse(&self, value: &Value) -> (r: Result<Value, ValidationError>)
        ensures
            obeys(r, eval(self@, value@)),
    {
        match self.base.skip_parse(value) {
            Err(e) => Err(e),
            Ok(true) => Ok(clone_value(value)),
            Ok(false) => match value {
                Value::Number(n) => {
                    if let Some(min) = self.min {
                        if *n < min {
                            proof {
                                reveal_strlit("Number is lower than minimum");
                            }
                            return Err(invalid_arg("Number is lower than minimum"));
                        }
                    }
                    if let Some(max) = self.max {
                        if *n > max {
                            proof {
                                reveal_strlit("Number is higher than maximum");
                            }
                            return Err(invalid_arg("Number is higher than maximum"));
                        }
                    }
                    Ok(Value::Number(*n))
                },
                _ => Err(
                    ValidationError {
                        kind: ErrorKind::TypeMismatch,
                        reason: expected_reason("Number"),
                    },
                ),
            },
        }
    }

    pub fn parse_safe(&self, value: &Value) -> (r: ParseSafeRes)
        ensures
            safe_obeys(r, eval(self@, value@)),
    {
        match self.parse(value) {
            Ok(data) => ParseSafeRes { success: true, data: Some(data), reason: None },
            Err(error) => ParseSafeRes { success: false, data: None, reason: Some(error.reason) },
        }
    }

    pub fn min(&self, min: i64) -> (r: Self)
        ensures
            r == (BNumber { base: self.base, min: Some(min), max: self.max }),
    {
        BNumber { min: Some(min), ..*self }
    }

    pub fn max(&self, max: i64) -> (r: Self)
        ensures
            r == (BNumber { base: self.base, min: self.min, max: Some(max) }),
    {
        BNumber { max: Some(max), ..*self }
    }

    /// Sugar for a lower bound of zero.
    pub fn positive(&self) -> (r: Self)
        ensures
            r == (BNumber { base: self.base, min: Some(0i64), max: self.max }),
    {
        BNumber { min: Some(0), ..*self }
    }

    /// Sugar for an upper bound of zero.
    pub fn negative(&self) -> (r: Self)
        ensures
            r == (BNumber { base: self.base, min: self.min, max: Some(0i64) }),
    {
        BNumber { max: Some(0), ..*self }
    }

    pub fn get_base(&self) -> (r: &BValueBase)
        ensures
            *r == self.base,
    {
        &self.base
    }

    pub fn optional(&self) -> (r: Self)
        ensures
            r@ == with_base(self@, BValueBase { optional: true, nullable: self.base.nullable }),
    {
        BNumber { base: BValueBase { optional: true, nullable: self.base.nullable }, ..*self }
    }

    pub fn nullable(&self) -> (r: Self)
        ensures
            r@ == with_base(self@, BValueBase { optional: self.base.optional, nullable: true }),
    {
        BNumber { base: BValueBase { optional: self.base.optional, nullable: true }, ..*self }
    }

    pub fn nullish(&self) -> (r: Self)
        ensures
            r@ == with_base(self@, BValueBase { optional: true, nullable: true }),
    {
        BNumber { base: BValueBase { optional: true, nullable: true }, ..*self }
    }

    pub fn required(&self) -> (r: Self)
        ensures
            r@ == with_base(self@, BValueBase { optional: false, nullable: self.base.nullable }),
    {
        BNumber { base: BValueBase { optional: false, nullable: self.base.nullable }, ..*self }
    }

    pub fn non_nullable(&self) -> (r: Self)
        ensures
            r@ == with_base(self@, BValueBase { optional: self.base.optional, nullable: false }),
    {
        BNumber { base: BValueBase { optional: self.base.optional, nullable: false }, ..*self }
    }

    /// This schema behind the common tag, for use as a composite's child.
    pub fn to_wrapped(&self) -> (r: BWrapped)
        ensures
            r@ == self@,
    {
        BWrapped { inner: BType::Number(*self) }
    }
}

} // verus!

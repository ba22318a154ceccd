use vstd::prelude::*;

use crate::error::boolean_mismatch_reason;
use crate::error::expected_reason;
use crate::error::ErrorKind;
use crate::error::ValidationError;
use crate::semantics::eval;
use crate::semantics::obeys;
use crate::semantics::safe_obeys;
use crate::semantics::with_base;
use crate::value::clone_value;
use crate::value::Value;
use crate::BType;
use crate::BValueBase;
use crate::BWrapped;
use crate::ParseSafeRes;

verus! {

/// Schema accepting boolean values, optionally one exact literal.
#[derive(Clone, Copy, PartialEq, Eq, Structural, Debug)]
pub struct BBoolean {
    pub base: BValueBase,
    pub expected: Option<bool>,
}

impl BBoolean {
    pub fn default() -> (r: BBoolean)
        ensures
            r.base == (BValueBase { optional: false, nullable: false }),
            r.expected is None,
    {
        BBoolean { base: BValueBase::default(), expected: None }
    }

    pub fn parse(&self, value: &Value) -> (r: Result<Value, ValidationError>)
        ensures
            obeys(r, eval(self@, value@)),
    {
        match self.base.skip_parse(value) {
            Err(e) => Err(e),
            Ok(true) => Ok(clone_value(value)),
            Ok(false) => match value {
                Value::Boolean(b) => match self.expected {
                    Some(expected) => {
                        if expected != *b {
                            Err(
                                ValidationError {
                                    kind: ErrorKind::InvalidArgument,
                                    reason: boolean_mismatch_reason(expected),
                                },
                            )
                        } else {
                            Ok(Value::Boolean(*b))
                        }
                    },
                    None => Ok(Value::Boolean(*b)),
                },
                _ => Err(
                    ValidationError {
                        kind: ErrorKind::TypeMismatch,
                        reason: expected_reason("Boolean"),
                    },
                ),
            },
        }
    }

    pub fn parse_safe(&self, value: &Value) -> (r: ParseSafeRes)
        ensures
            safe_obeys(r, eval(self@, value@)),
    {
        match self.parse(value) {
            Ok(data) => ParseSafeRes { success: true, data: Some(data), reason: None },
            Err(error) => ParseSafeRes { success: false, data: None, reason: Some(error.reason) },
        }
    }

    /// Only the literal `true` passes.
    pub fn is_true(&self) -> (r: Self)
        ensures
            r == (BBoolean { base: self.base, expected: Some(true) }),
    {
        BBoolean { base: self.base, expected: Some(true) }
    }

    /// Only the literal `false` passes.
    pub fn is_false(&self) -> (r: Self)
        ensures
            r == (BBoolean { base: self.base, expected: Some(false) }),
    {
        BBoolean { base: self.base, expected: Some(false) }
    }

    pub fn get_base(&self) -> (r: &BValueBase)
        ensures
            *r == self.base,
    {
        &self.base
    }

    pub fn optional(&self) -> (r: Self)
        ensures
            r@ == with_base(self@, BValueBase { optional: true, nullable: self.base.nullable }),
    {
        BBoolean { base: BValueBase { optional: true, nullable: self.base.nullable }, ..*self }
    }

    pub fn nullable(&self) -> (r: Self)
        ensures
            r@ == with_base(self@, BValueBase { optional: self.base.optional, nullable: true }),
    {
        BBoolean { base: BValueBase { optional: self.base.optional, nullable: true }, ..*self }
    }

    pub fn nullish(&self) -> (r: Self)
        ensures
            r@ == with_base(self@, BValueBase { optional: true, nullable: true }),
    {
        BBoolean { base: BValueBase { optional: true, nullable: true }, ..*self }
    }

    pub fn required(&self) -> (r: Self)
        ensures
            r@ == with_base(self@, BValueBase { optional: false, nullable: self.base.nullable }),
    {
        BBoolean { base: BValueBase { optional: false, nullable: self.base.nullable }, ..*self }
    }

    pub fn non_nullable(&self) -> (r: Self)
        ensures
            r@ == with_base(self@, BValueBase { optional: self.base.optional, nullable: false }),
    {
        BBoolean { base: BValueBase { optional: self.base.optional, nullable: false }, ..*self }
    }

    /// This schema behind the common tag, for use as a composite's child.
    pub fn to_wrapped(&self) -> (r: BWrapped)
        ensures
            r@ == self@,
    {
        BWrapped { inner: BType::Boolean(*self) }
    }
}

} // verus!

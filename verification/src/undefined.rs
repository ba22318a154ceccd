use vstd::prelude::*;

use crate::error::expected_reason;
use crate::error::ErrorKind;
use crate::error::ValidationError;
use crate::semantics::eval;
use crate::semantics::obeys;
use crate::semantics::safe_obeys;
use crate::semantics::with_base;
use crate::value::clone_value;
use crate::value::Value;
use crate::BType;
use crate::BValueBase;
use crate::BWrapped;
use crate::ParseSafeRes;

verus! {

/// Schema accepting only the absent value; absent is allowed by default.
#[derive(Clone, Copy, PartialEq, Eq, Structural, Debug)]
pub struct BUndefined {
    pub base: BValueBase,
}

impl BUndefined {
    pub fn default() -> (r: BUndefined)
        ensures
            r.base == (BValueBase { optional: true, nullable: false }),
    {
        BUndefined { base: BValueBase { optional: true, nullable: false } }
    }

    pub fn parse(&self, value: &Value) -> (r: Result<Value, ValidationError>)
        ensures
            obeys(r, eval(self@, value@)),
    {
        match self.base.skip_parse(value) {
            Err(e) => Err(e),
            Ok(true) => Ok(clone_value(value)),
            Ok(false) => match value {
                Value::Undefined => Ok(Value::Undefined),
                _ => Err(
                    ValidationError {
                        kind: ErrorKind::TypeMismatch,
                        reason: expected_reason("Undefined"),
                    },
                ),
            },
        }
    }

    pub fn parse_safe(&self, value: &Value) -> (r: ParseSafeRes)
        ensures
            safe_obeys(r, eval(self@, value@)),
    {
        match self.parse(value) {
            Ok(data) => ParseSafeRes { success: true, data: Some(data), reason: None },
            Err(error) => ParseSafeRes { success: false, data: None, reason: Some(error.reason) },
        }
    }

    pub fn get_base(&self) -> (r: &BValueBase)
        ensures
            *r == self.base,
    {
        &self.base
    }

    pub fn optional(&self) -> (r: Self)
        ensures
            r@ == with_base(self@, BValueBase { optional: true, nullable: self.base.nullable }),
    {
        BUndefined { base: BValueBase { optional: true, nullable: self.base.nullable } }
    }

    pub fn nullable(&self) -> (r: Self)
        ensures
            r@ == with_base(self@, BValueBase { optional: self.base.optional, nullable: true }),
    {
        BUndefined { base: BValueBase { optional: self.base.optional, nullable: true } }
    }

    pub fn nullish(&self) -> (r: Self)
        ensures
            r@ == with_base(self@, BValueBase { optional: true, nullable: true }),
    {
        BUndefined { base: BValueBase { optional: true, nullable: true } }
    }

    pub fn required(&self) -> (r: Self)
        ensures
            r@ == with_base(self@, BValueBase { optional: false, nullable: self.base.nullable }),
    {
        BUndefined { base: BValueBase { optional: false, nullable: self.base.nullable } }
    }

    pub fn non_nullable(&self) -> (r: Self)
        ensures
            r@ == with_base(self@, BValueBase { optional: self.base.optional, nullable: false }),
    {
        BUndefined { base: BValueBase { optional: self.base.optional, nullable: false } }
    }

    /// This schema behind the common tag, for use as a composite's child.
    pub fn to_wrapped(&self) -> (r: BWrapped)
        ensures
            r@ == self@,
    {
        BWrapped { inner: BType::Undefined(*self) }
    }
}

} // verus!

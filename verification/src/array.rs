use vstd::prelude::*;

use crate::common::clone_btype;
use crate::common::parse_btype;
use crate::error::expected_reason;
use crate::error::length_bound_reason;
use crate::error::length_mismatch_reason;
use crate::error::ErrorKind;
use crate::error::ValidationError;
use crate::semantics::eval;
use crate::semantics::eval_elems;
use crate::semantics::obeys;
use crate::semantics::prepend_elems;
use crate::semantics::safe_obeys;
use crate::semantics::with_base;
use crate::value::clone_value;
use crate::value::view_values;
use crate::value::Value;
use crate::BType;
use crate::BValueBase;
use crate::BWrapped;
use crate::ParseSafeRes;

verus! {

/// Schema accepting sequences whose every element matches one child schema;
/// `len` is an exact length and overrides `min`/`max` when present.
#[derive(Debug)]
pub struct BArray {
    pub base: BValueBase,
    pub inner: Box<BType>,
    pub len: Option<u32>,
    pub min: Option<u32>,
    pub max: Option<u32>,
}

impl Clone for BArray {
    fn clone(&self) -> (r: Self)
        ensures
            r@ == self@,
    {
        BArray {
            base: self.base,
            inner: Box::new(clone_btype(&self.inner)),
            len: self.len,
            min: self.min,
            max: self.max,
        }
    }
}

impl BArray {
    /// An element schema of any variant, behind the common tag, becomes an
    /// array schema with no constraints.
    pub fn from_wrapped(wrapped: &BWrapped) -> (r: BArray)
        ensures
            r.base == (BValueBase { optional: false, nullable: false }),
            (*r.inner)@ == wrapped@,
            r.len is None,
            r.min is None,
            r.max is None,
    {
        BArray {
            base: BValueBase::default(),
            inner: Box::new(clone_btype(&wrapped.inner)),
            len: None,
            min: None,
            max: None,
        }
    }

    #[verifier::loop_isolation(false)]
    pub fn parse(&self, value: &Value) -> (r: Result<Value, ValidationError>)
        ensures
            obeys(r, eval(self@, value@)),
        decreases self, 1int,
    {
        match self.base.skip_parse(value) {
            Err(e) => {
                return Err(e);
            },
            Ok(true) => {
                return Ok(clone_value(value));
            },
            Ok(false) => {},
        }
        let es = match value {
            Value::Sequence(es) => es,
            _ => {
                return Err(
                    ValidationError {
                        kind: ErrorKind::TypeMismatch,
                        reason: expected_reason("Array"),
                    },
                );
            },
        };
        let length = es.len();
        if let Some(expected) = self.len {
            if length as u64 != expected as u64 {
                let reason = length_mismatch_reason("Array", length as u64, expected as u64);
                return Err(ValidationError { kind: ErrorKind::InvalidArgument, reason });
            }
        } else {
            if let Some(min) = self.min {
                if length < min as usize {
                    let reason = length_bound_reason("Array", true);
                    return Err(ValidationError { kind: ErrorKind::InvalidArgument, reason });
                }
            }
            if let Some(max) = self.max {
                if length > max as usize {
                    let reason = length_bound_reason("Array", false);
                    return Err(ValidationError { kind: ErrorKind::InvalidArgument, reason });
                }
            }
        }
        let ghost innerv = (*self.inner)@;
        let ghost vs = view_values(es@);
        proof {
            match eval_elems(innerv, vs, 0) {
                Ok(rest) => {
                    assert(view_values(Seq::<Value>::empty()) + rest =~= rest);
                },
                Err(_) => {},
            }
        }
        let mut outs: Vec<Value> = Vec::new();
        let mut i: usize = 0;
        while i < es.len()
            invariant
                i <= es.len(),
                outs@.len() == i as int,
                eval_elems(innerv, vs, 0) == prepend_elems(
                    view_values(outs@),
                    eval_elems(innerv, vs, i as int),
                ),
            decreases es.len() - i,
        {
            match parse_btype(&self.inner, &es[i]) {
                Err(e) => {
                    return Err(e);
                },
                Ok(out) => {
                    let ghost outs_old = outs@;
                    let ghost outv = out@;
                    outs.push(out);
                    proof {
                        match eval_elems(innerv, vs, i as int + 1) {
                            Ok(rest) => {
                                assert(view_values(outs@) + rest =~= view_values(outs_old) + (seq![
                                    outv,
                                ] + rest));
                            },
                            Err(_) => {},
                        }
                    }
                },
            }
            i = i + 1;
        }
        proof {
            match eval_elems(innerv, vs, es@.len() as int) {
                Ok(rest) => {
                    assert(view_values(outs@) + rest =~= view_values(outs@));
                },
                Err(_) => {},
            }
        }
        Ok(Value::Sequence(outs))
    }

    pub fn parse_safe(&self, value: &Value) -> (r: ParseSafeRes)
        ensures
            safe_obeys(r, eval(self@, value@)),
    {
        match self.parse(value) {
            Ok(data) => ParseSafeRes { success: true, data: Some(data), reason: None },
            Err(error) => ParseSafeRes { success: false, data: None, reason: Some(error.reason) },
        }
    }

    /// An exact length; it overrides `min`/`max` when present.
    pub fn length(&self, value: u32) -> (r: Self)
        ensures
            r.base == self.base,
            (*r.inner)@ == (*self.inner)@,
            r.len == Some(value),
            r.min == self.min,
            r.max == self.max,
    {
        BArray {
            base: self.base,
            inner: Box::new(clone_btype(&self.inner)),
            len: Some(value),
            min: self.min,
            max: self.max,
        }
    }

    pub fn min(&self, value: u32) -> (r: Self)
        ensures
            r.base == self.base,
            (*r.inner)@ == (*self.inner)@,
            r.len == self.len,
            r.min == Some(value),
            r.max == self.max,
    {
        BArray {
            base: self.base,
            inner: Box::new(clone_btype(&self.inner)),
            len: self.len,
            min: Some(value),
            max: self.max,
        }
    }

    pub fn max(&self, value: u32) -> (r: Self)
        ensures
            r.base == self.base,
            (*r.inner)@ == (*self.inner)@,
            r.len == self.len,
            r.min == self.min,
            r.max == Some(value),
    {
        BArray {
            base: self.base,
            inner: Box::new(clone_btype(&self.inner)),
            len: self.len,
            min: self.min,
            max: Some(value),
        }
    }

    pub fn get_base(&self) -> (r: &BValueBase)
        ensures
            *r == self.base,
    {
        &self.base
    }

    pub fn optional(&self) -> (r: Self)
        ensures
            r@ == with_base(self@, BValueBase { optional: true, nullable: self.base.nullable }),
    {
        BArray {
            base: BValueBase { optional: true, nullable: self.base.nullable },
            ..self.clone()
        }
    }

    pub fn nullable(&self) -> (r: Self)
        ensures
            r@ == with_base(self@, BValueBase { optional: self.base.optional, nullable: true }),
    {
        BArray {
            base: BValueBase { optional: self.base.optional, nullable: true },
            ..self.clone()
        }
    }

    pub fn nullish(&self) -> (r: Self)
        ensures
            r@ == with_base(self@, BValueBase { optional: true, nullable: true }),
    {
        BArray { base: BValueBase { optional: true, nullable: true }, ..self.clone() }
    }

    pub fn required(&self) -> (r: Self)
        ensures
            r@ == with_base(self@, BValueBase { optional: false, nullable: self.base.nullable }),
    {
        BArray {
            base: BValueBase { optional: false, nullable: self.base.nullable },
            ..self.clone()
        }
    }

    pub fn non_nullable(&self) -> (r: Self)
        ensures
            r@ == with_base(self@, BValueBase { optional: self.base.optional, nullable: false }),
    {
        BArray {
            base: BValueBase { optional: self.base.optional, nullable: false },
            ..self.clone()
        }
    }

    /// This schema behind the common tag, for use as a composite's child.
    pub fn to_wrapped(&self) -> (r: BWrapped)
        ensures
            r@ == self@,
    {
        BWrapped { inner: BType::Array(self.clone()) }
    }
}

} // verus!

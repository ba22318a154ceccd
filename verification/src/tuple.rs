use vstd::prelude::*;

use crate::common::clone_btype_vec;
use crate::common::parse_btype;
use crate::error::expected_reason;
use crate::error::length_mismatch_reason;
use crate::error::ErrorKind;
use crate::error::ValidationError;
use crate::semantics::eval;
use crate::semantics::eval_tuple;
use crate::semantics::obeys;
use crate::semantics::prepend_elems;
use crate::semantics::safe_obeys;
use crate::semantics::view_btypes;
use crate::semantics::with_base;
use crate::value::clone_value;
use crate::value::view_values;
use crate::value::Value;
use crate::BType;
use crate::BValueBase;
use crate::BWrapped;
use crate::ParseSafeRes;

verus! {

/// Schema accepting sequences of exactly one child schema per position.
#[derive(Debug)]
pub struct BTuple {
    pub base: BValueBase,
    pub inner: Vec<BType>,
}

impl Clone for BTuple {
    fn clone(&self) -> (r: Self)
        ensures
            r@ == self@,
    {
        let inner = clone_btype_vec(&self.inner);
        proof {
            assert(view_btypes(inner@) =~= view_btypes(self.inner@));
        }
        BTuple { base: self.base, inner }
    }
}

impl BTuple {
    /// One child schema per position, each behind the common tag, becomes a
    /// tuple schema.
    pub fn from_wrapped(wrapped: &Vec<BWrapped>) -> (r: BTuple)
        ensures
            r.base == (BValueBase { optional: false, nullable: false }),
            r.inner@.len() == wrapped@.len(),
            forall|j: int| 0 <= j < wrapped@.len() ==> r.inner@[j]@ == wrapped@[j]@,
    {
        let mut inner: Vec<BType> = Vec::new();
        let mut i: usize = 0;
        while i < wrapped.len()
            invariant
                i <= wrapped.len(),
                inner@.len() == i as int,
                forall|j: int| 0 <= j < i ==> inner@[j]@ == wrapped@[j]@,
            decreases wrapped.len() - i,
        {
            let t = crate::common::clone_btype(&wrapped[i].inner);
            inner.push(t);
            i = i + 1;
        }
        BTuple { base: BValueBase::default(), inner }
    }

    #[verifier::loop_isolation(false)]
    pub fn parse(&self, value: &Value) -> (r: Result<Value, ValidationError>)
        ensures
            obeys(r, eval(self@, value@)),
        decreases self, 1int,
    {
        match self.base.skip_parse(value) {
            Err(e) => {
                return Err(e);
            },
            Ok(true) => {
                return Ok(clone_value(value));
            },
            Ok(false) => {},
        }
        let es = match value {
            Value::Sequence(es) => es,
            _ => {
                return Err(
                    ValidationError {
                        kind: ErrorKind::TypeMismatch,
                        reason: expected_reason("Array"),
                    },
                );
            },
        };
        let expected_len = self.inner.len();
        let val_len = es.len();
        if val_len != expected_len {
            let reason = length_mismatch_reason("Tuple", val_len as u64, expected_len as u64);
            return Err(ValidationError { kind: ErrorKind::InvalidArgument, reason });
        }
        let ghost schemas = view_btypes(self.inner@);
        let ghost vs = view_values(es@);
        proof {
            match eval_tuple(schemas, vs, 0) {
                Ok(rest) => {
                    assert(view_values(Seq::<Value>::empty()) + rest =~= rest);
                },
                Err(_) => {},
            }
        }
        let mut outs: Vec<Value> = Vec::new();
        let mut i: usize = 0;
        while i < self.inner.len()
            invariant
                i <= self.inner.len(),
                outs@.len() == i as int,
                eval_tuple(schemas, vs, 0) == prepend_elems(
                    view_values(outs@),
                    eval_tuple(schemas, vs, i as int),
                ),
            decreases self.inner.len() - i,
        {
            match parse_btype(&self.inner[i], &es[i]) {
                Err(e) => {
                    return Err(e);
                },
                Ok(out) => {
                    let ghost outs_old = outs@;
                    let ghost outv = out@;
                    outs.push(out);
                    proof {
                        match eval_tuple(schemas, vs, i as int + 1) {
                            Ok(rest) => {
                                assert(view_values(outs@) + rest =~= view_values(outs_old) + (seq![
                                    outv,
                                ] + rest));
                            },
                            Err(_) => {},
                        }
                    }
                },
            }
            i = i + 1;
        }
        proof {
            match eval_tuple(schemas, vs, self.inner@.len() as int) {
                Ok(rest) => {
                    assert(view_values(outs@) + rest =~= view_values(outs@));
                },
                Err(_) => {},
            }
        }
        Ok(Value::Sequence(outs))
    }

    pub fn parse_safe(&self, value: &Value) -> (r: ParseSafeRes)
        ensures
            safe_obeys(r, eval(self@, value@)),
    {
        match self.parse(value) {
            Ok(data) => ParseSafeRes { success: true, data: Some(data), reason: None },
            Err(error) => ParseSafeRes { success: false, data: None, reason: Some(error.reason) },
        }
    }

    pub fn get_base(&self) -> (r: &BValueBase)
        ensures
            *r == self.base,
    {
        &self.base
    }

    pub fn optional(&self) -> (r: Self)
        ensures
            r@ == with_base(self@, BValueBase { optional: true, nullable: self.base.nullable }),
    {
        BTuple {
            base: BValueBase { optional: true, nullable: self.base.nullable },
            ..self.clone()
        }
    }

    pub fn nullable(&self) -> (r: Self)
        ensures
            r@ == with_base(self@, BValueBase { optional: self.base.optional, nullable: true }),
    {
        BTuple {
            base: BValueBase { optional: self.base.optional, nullable: true },
            ..self.clone()
        }
    }

    pub fn nullish(&self) -> (r: Self)
        ensures
            r@ == with_base(self@, BValueBase { optional: true, nullable: true }),
    {
        BTuple { base: BValueBase { optional: true, nullable: true }, ..self.clone() }
    }

    pub fn required(&self) -> (r: Self)
        ensures
            r@ == with_base(self@, BValueBase { optional: false, nullable: self.base.nullable }),
    {
        BTuple {
            base: BValueBase { optional: false, nullable: self.base.nullable },
            ..self.clone()
        }
    }

    pub fn non_nullable(&self) -> (r: Self)
        ensures
            r@ == with_base(self@, BValueBase { optional: self.base.optional, nullable: false }),
    {
        BTuple {
            base: BValueBase { optional: self.base.optional, nullable: false },
            ..self.clone()
        }
    }

    /// This schema behind the common tag, for use as a composite's child.
    pub fn to_wrapped(&self) -> (r: BWrapped)
        ensures
            r@ == self@,
    {
        BWrapped { inner: BType::Tuple(self.clone()) }
    }
}

} // verus!

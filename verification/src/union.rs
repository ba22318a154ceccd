use vstd::prelude::*;

use crate::common::clone_btype_vec;
use crate::common::parse_btype;
use crate::error::invalid_arg;
use crate::error::ValidationError;
use crate::semantics::eval;
use crate::semantics::eval_union;
use crate::semantics::obeys;
use crate::semantics::safe_obeys;
use crate::semantics::view_btypes;
use crate::semantics::with_base;
use crate::value::clone_value;
use crate::value::Value;
use crate::BType;
use crate::BValueBase;
use crate::BWrapped;
use crate::ParseSafeRes;

verus! {

/// Schema accepting whatever its first matching alternative accepts, in
/// declaration order.
#[derive(Debug)]
pub struct BUnion {
    pub base: BValueBase,
    pub inner: Vec<BType>,
}

impl Clone for BUnion {
    fn clone(&self) -> (r: Self)
        ensures
            r@ == self@,
    {
        let inner = clone_btype_vec(&self.inner);
        proof {
            assert(view_btypes(inner@) =~= view_btypes(self.inner@));
        }
        BUnion { base: self.base, inner }
    }
}

impl BUnion {
    /// The alternatives, each behind the common tag, become a union schema;
    /// their order decides match precedence.
    pub fn from_wrapped(wrapped: &Vec<BWrapped>) -> (r: BUnion)
        ensures
            r.base == (BValueBase { optional: false, nullable: false }),
            r.inner@.len() == wrapped@.len(),
            forall|j: int| 0 <= j < wrapped@.len() ==> r.inner@[j]@ == wrapped@[j]@,
    {
        let mut inner: Vec<BType> = Vec::new();
        let mut i: usize = 0;
        while i < wrapped.len()
            invariant
                i <= wrapped.len(),
                inner@.len() == i as int,
                forall|j: int| 0 <= j < i ==> inner@[j]@ == wrapped@[j]@,
            decreases wrapped.len() - i,
        {
            let t = crate::common::clone_btype(&wrapped[i].inner);
            inner.push(t);
            i = i + 1;
        }
        BUnion { base: BValueBase::default(), inner }
    }

    #[verifier::loop_isolation(false)]
    pub fn parse(&self, value: &Value) -> (r: Result<Value, ValidationError>)
        ensures
            obeys(r, eval(self@, value@)),
        decreases self, 1int,
    {
        match self.base.skip_parse(value) {
            Err(e) => {
                return Err(e);
            },
            Ok(true) => {
                return Ok(clone_value(value));
            },
            Ok(false) => {},
        }
        let ghost alts = view_btypes(self.inner@);
        let mut i: usize = 0;
        while i < self.inner.len()
            invariant
                i <= self.inner.len(),
                eval_union(alts, value@, 0) == eval_union(alts, value@, i as int),
            decreases self.inner.len() - i,
        {
            match parse_btype(&self.inner[i], value) {
                Ok(out) => {
                    return Ok(out);
                },
                Err(_) => {},
            }
            i = i + 1;
        }
        proof {
            reveal_strlit("Value did not match any of the Union types");
        }
        Err(invalid_arg("Value did not match any of the Union types"))
    }

    pub fn parse_safe(&self, value: &Value) -> (r: ParseSafeRes)
        ensures
            safe_obeys(r, eval(self@, value@)),
    {
        match self.parse(value) {
            Ok(data) => ParseSafeRes { success: true, data: Some(data), reason: None },
            Err(error) => ParseSafeRes { success: false, data: None, reason: Some(error.reason) },
        }
    }

    /// A union whose alternatives are the receiver's followed by the
    /// argument's, preserving order and so match precedence.
    pub fn merge(&self, schema: &BUnion) -> (r: BUnion)
        ensures
            r.base == self.base,
            view_btypes(r.inner@) == view_btypes(self.inner@) + view_btypes(schema.inner@),
    {
        let mut inner = clone_btype_vec(&self.inner);
        let mut others = clone_btype_vec(&schema.inner);
        inner.append(&mut others);
        proof {
            assert(view_btypes(inner@) =~= view_btypes(self.inner@) + view_btypes(schema.inner@));
        }
        BUnion { base: self.base, inner }
    }

    pub fn get_base(&self) -> (r: &BValueBase)
        ensures
            *r == self.base,
    {
        &self.base
    }

    pub fn optional(&self) -> (r: Self)
        ensures
            r@ == with_base(self@, BValueBase { optional: true, nullable: self.base.nullable }),
    {
        BUnion {
            base: BValueBase { optional: true, nullable: self.base.nullable },
            ..self.clone()
        }
    }

    pub fn nullable(&self) -> (r: Self)
        ensures
            r@ == with_base(self@, BValueBase { optional: self.base.optional, nullable: true }),
    {
        BUnion {
            base: BValueBase { optional: self.base.optional, nullable: true },
            ..self.clone()
        }
    }

    pub fn nullish(&self) -> (r: Self)
        ensures
            r@ == with_base(self@, BValueBase { optional: true, nullable: true }),
    {
        BUnion { base: BValueBase { optional: true, nullable: true }, ..self.clone() }
    }

    pub fn required(&self) -> (r: Self)
        ensures
            r@ == with_base(self@, BValueBase { optional: false, nullable: self.base.nullable }),
    {
        BUnion {
            base: BValueBase { optional: false, nullable: self.base.nullable },
            ..self.clone()
        }
    }

    pub fn non_nullable(&self) -> (r: Self)
        ensures
            r@ == with_base(self@, BValueBase { optional: self.base.optional, nullable: false }),
    {
        BUnion {
            base: BValueBase { optional: self.base.optional, nullable: false },
            ..self.clone()
        }
    }

    /// This schema behind the common tag, for use as a composite's child.
    pub fn to_wrapped(&self) -> (r: BWrapped)
        ensures
            r@ == self@,
    {
        BWrapped { inner: BType::Union(self.clone()) }
    }
}

} // verus!

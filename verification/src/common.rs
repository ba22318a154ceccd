use vstd::prelude::*;

use crate::array::BArray;
use crate::object::BObject;
use crate::semantics::base_of;
use crate::semantics::view_btypes;
use crate::semantics::view_fields;
use crate::tuple::BTuple;
use crate::union::BUnion;
use crate::BType;
use crate::BValueBase;

verus! {

/// The modifier carried by a schema of any variant.
pub fn get_btype_base(b_type: &BType) -> (r: &BValueBase)
    ensures
        *r == base_of(b_type@),
{
    match b_type {
        BType::Undefined(s) => &s.base,
        BType::Null(s) => &s.base,
        BType::Boolean(s) => &s.base,
        BType::Number(s) => &s.base,
        BType::String(s) => &s.base,
        BType::Array(s) => &s.base,
        BType::Object(s) => &s.base,
        BType::Union(s) => &s.base,
        BType::Tuple(s) => &s.base,
    }
}

/// The dispatch core: routes a value to the validator of the schema's
/// variant. Composite validators call back into this function for their
/// children, which is how the recursion over the schema tree happens.
pub fn parse_btype(b_type: &BType, value: &crate::value::Value) -> (r: Result<
    crate::value::Value,
    crate::error::ValidationError,
>)
    ensures
        crate::semantics::obeys(r, crate::semantics::eval(b_type@, value@)),
    decreases b_type, 0int,
{
    match b_type {
        BType::Undefined(s) => s.parse(value),
        BType::Null(s) => s.parse(value),
        BType::Boolean(s) => s.parse(value),
        BType::Number(s) => s.parse(value),
        BType::String(s) => s.parse(value),
        BType::Array(s) => s.parse(value),
        BType::Object(s) => s.parse(value),
        BType::Union(s) => s.parse(value),
        BType::Tuple(s) => s.parse(value),
    }
}

/// A fresh schema with the same mathematical content as the argument.
#[verifier::loop_isolation(false)]
pub fn clone_btype(t: &BType) -> (r: BType)
    ensures
        r@ == t@,
    decreases t, 1int,
{
    match t {
        BType::Undefined(s) => BType::Undefined(*s),
        BType::Null(s) => BType::Null(*s),
        BType::Boolean(s) => BType::Boolean(*s),
        BType::Number(s) => BType::Number(*s),
        BType::String(s) => BType::String(*s),
        BType::Array(s) => BType::Array(
            BArray {
                base: s.base,
                inner: Box::new(clone_btype(&s.inner)),
                len: s.len,
                min: s.min,
                max: s.max,
            },
        ),
        BType::Object(s) => {
            let fields = clone_fields(&s.inner);
            proof {
                assert(view_fields(fields@) =~= view_fields(s.inner@));
            }
            BType::Object(BObject { base: s.base, inner: fields, strict: s.strict })
        },
        BType::Union(s) => {
            let inner = clone_btype_vec(&s.inner);
            proof {
                assert(view_btypes(inner@) =~= view_btypes(s.inner@));
            }
            BType::Union(BUnion { base: s.base, inner })
        },
        BType::Tuple(s) => {
            let inner = clone_btype_vec(&s.inner);
            proof {
                assert(view_btypes(inner@) =~= view_btypes(s.inner@));
            }
            BType::Tuple(BTuple { base: s.base, inner })
        },
    }
}

/// Fresh copies of a vector of child schemas, element for element.
#[verifier::loop_isolation(false)]
pub fn clone_btype_vec(v: &Vec<BType>) -> (r: Vec<BType>)
    ensures
        r@.len() == v@.len(),
        forall|j: int| 0 <= j < v@.len() ==> r@[j]@ == v@[j]@,
    decreases v, 0int,
{
    let mut out: Vec<BType> = Vec::new();
    let mut i: usize = 0;
    while i < v.len()
        invariant
            i <= v.len(),
            out@.len() == i as int,
            forall|j: int| 0 <= j < i ==> out@[j]@ == v@[j]@,
        decreases v.len() - i,
    {
        let t = clone_btype(&v[i]);
        out.push(t);
        i = i + 1;
    }
    out
}

/// Fresh copies of an object schema's declared fields, entry for entry.
#[verifier::loop_isolation(false)]
pub fn clone_fields(v: &Vec<(String, BType)>) -> (r: Vec<(String, BType)>)
    ensures
        r@.len() == v@.len(),
        forall|j: int| 0 <= j < v@.len() ==> r@[j].0@ == v@[j].0@ && r@[j].1@ == v@[j].1@,
    decreases v, 0int,
{
    let mut out: Vec<(String, BType)> = Vec::new();
    let mut i: usize = 0;
    while i < v.len()
        invariant
            i <= v.len(),
            out@.len() == i as int,
            forall|j: int| 0 <= j < i ==> out@[j].0@ == v@[j].0@ && out@[j].1@ == v@[j].1@,
        decreases v.len() - i,
    {
        let k = v[i].0.clone();
        let t = clone_btype(&v[i].1);
        out.push((k, t));
        i = i + 1;
    }
    out
}

} // verus!

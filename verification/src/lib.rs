//! A runtime schema-validation engine: immutable schema values built from
//! composable primitive and composite descriptors check dynamically-typed
//! input values and either hand back the accepted substructure or fail with
//! a structured reason.
//!
//! Every validator is specified against the single recursive model
//! [`semantics::eval`]: `parse` returns exactly what the model returns, and
//! `parse_safe` wraps the same verdict into a non-throwing result. The laws
//! the engine obeys beyond that — idempotence of primitives, modifier and
//! length precedence, first-match alternation, merge precedence — are
//! proved in [`laws`].

use vstd::prelude::*;

pub mod array;
pub mod boolean;
pub mod common;
pub mod error;
pub mod laws;
pub mod null;
pub mod number;
pub mod object;
pub mod semantics;
pub mod string;
pub mod tuple;
pub mod undefined;
pub mod union;
pub mod value;

verus! {

/// The optional/nullable modifier attached to every schema variant.
#[derive(Clone, Copy, PartialEq, Eq, Structural, Debug)]
pub struct BValueBase {
    pub optional: bool,
    pub nullable: bool,
}

impl BValueBase {
    pub fn default() -> (r: BValueBase)
        ensures
            !r.optional,
            !r.nullable,
    {
        BValueBase { optional: false, nullable: false }
    }

    /// The modifier's pre-check shared by every variant's `parse`: absent and
    /// null values are accepted or rejected here, before any variant-specific
    /// validation.
    pub fn skip_parse(&self, value: &value::Value) -> (r: Result<bool, error::ValidationError>)
        ensures
            semantics::obeys_flag(r, semantics::skip_result(*self, value@)),
    {
        match value {
            value::Value::Undefined => {
                if self.optional {
                    Ok(true)
                } else {
                    proof {
                        reveal_strlit("Got undefined for required value");
                    }
                    Err(error::invalid_arg("Got undefined for required value"))
                }
            },
            value::Value::Null => {
                if self.nullable {
                    Ok(true)
                } else {
                    proof {
                        reveal_strlit("Got Null for non nullable value");
                    }
                    Err(error::invalid_arg("Got Null for non nullable value"))
                }
            },
            _ => Ok(false),
        }
    }
}

/// The closed sum of all schema variants; the dispatch core matches on this
/// tag to route a value to the right validator.
#[derive(Debug)]
pub enum BType {
    Undefined(undefined::BUndefined),
    Null(null::BNull),
    Boolean(boolean::BBoolean),
    Number(number::BNumber),
    String(string::BString),
    Array(array::BArray),
    Object(object::BObject),
    Union(union::BUnion),
    Tuple(tuple::BTuple),
}

impl Clone for BType {
    fn clone(&self) -> (r: Self)
        ensures
            r@ == self@,
    {
        common::clone_btype(self)
    }
}

/// A schema of any variant behind the common tag, the form in which composite
/// schemas hold their children.
#[derive(Debug)]
pub struct BWrapped {
    pub inner: BType,
}

impl Clone for BWrapped {
    fn clone(&self) -> (r: Self)
        ensures
            r@ == self@,
    {
        BWrapped { inner: common::clone_btype(&self.inner) }
    }
}

/// The non-throwing validation result: on success `data` holds the accepted
/// value and `reason` is absent; on failure `reason` holds the explanation
/// and `data` is absent.
#[derive(Debug)]
pub struct ParseSafeRes {
    pub success: bool,
    pub data: Option<value::Value>,
    pub reason: Option<String>,
}

} // verus!

use vstd::prelude::*;
use vstd::string::StringExecFns;

use crate::common::clone_btype;
use crate::common::clone_fields;
use crate::common::get_btype_base;
use crate::common::parse_btype;
use crate::error::expected_reason;
use crate::error::missing_key_reason;
use crate::error::ErrorKind;
use crate::error::ValidationError;
use crate::semantics::eval;
use crate::semantics::eval_fields;
use crate::semantics::has_field;
use crate::semantics::joined;
use crate::semantics::key_index_from;
use crate::semantics::keys_of;
use crate::semantics::lemma_joined_push;
use crate::semantics::lookup_from;
use crate::semantics::merge_fields;
use crate::semantics::obeys;
use crate::semantics::prepend_fields;
use crate::semantics::record_lookup;
use crate::semantics::safe_obeys;
use crate::semantics::unknown_keys_from;
use crate::semantics::upsert_all;
use crate::semantics::upsert_one;
use crate::semantics::view_fields;
use crate::semantics::view_wrapped_fields;
use crate::semantics::with_base;
use crate::semantics::SchemaV;
use crate::value::clone_value;
use crate::value::view_entries;
use crate::value::Value;
use crate::BType;
use crate::BValueBase;
use crate::BWrapped;
use crate::ParseSafeRes;

verus! {

/// Schema accepting key-value records: one child schema per declared field,
/// and a `strict` flag that decides whether undeclared keys are an error.
#[derive(Debug)]
pub struct BObject {
    pub base: BValueBase,
    pub inner: Vec<(String, BType)>,
    pub strict: bool,
}

/// The first entry of the record carrying `key`, if any.
#[verifier::loop_isolation(false)]
fn record_get<'a>(entries: &'a Vec<(String, Value)>, key: &String) -> (r: Option<&'a Value>)
    ensures
        match record_lookup(view_entries(entries@), key@) {
            Some(v) => match r {
                Some(x) => x@ == v,
                None => false,
            },
            None => r is None,
        },
{
    let ghost ev = view_entries(entries@);
    let mut i: usize = 0;
    while i < entries.len()
        invariant
            i <= entries.len(),
            lookup_from(ev, key@, 0) == lookup_from(ev, key@, i as int),
        decreases entries.len() - i,
    {
        if entries[i].0 == *key {
            return Some(&entries[i].1);
        }
        i = i + 1;
    }
    None
}

/// Whether the object schema declares a field named `key`.
#[verifier::loop_isolation(false)]
fn declares_key(fields: &Vec<(String, BType)>, key: &String) -> (r: bool)
    ensures
        r == has_field(view_fields(fields@), key@),
{
    let ghost fv = view_fields(fields@);
    let mut i: usize = 0;
    while i < fields.len()
        invariant
            i <= fields.len(),
            forall|j: int| 0 <= j < i ==> fv[j].0 != key@,
        decreases fields.len() - i,
    {
        if fields[i].0 == *key {
            proof {
                assert(fv[i as int].0 == key@);
            }
            return true;
        }
        i = i + 1;
    }
    false
}

/// Inserts a declared field, or replaces the child schema of the first
/// existing field with the same name, keeping its position.
#[verifier::loop_isolation(false)]
fn upsert_field(fields: &mut Vec<(String, BType)>, key: String, t: BType)
    ensures
        view_fields(final(fields)@) == upsert_one(view_fields(old(fields)@), key@, t@),
{
    let ghost fv = view_fields(old(fields)@);
    let ghost kv = key@;
    let ghost tv = t@;
    let mut i: usize = 0;
    while i < fields.len()
        invariant
            i <= fields.len(),
            fields@ == old(fields)@,
            key_index_from(fv, kv, 0) == key_index_from(fv, kv, i as int),
        decreases fields.len() - i,
    {
        if fields[i].0 == key {
            proof {
                assert(key_index_from(fv, kv, 0) == i as int);
            }
            fields.remove(i);
            fields.insert(i, (key, t));
            proof {
                assert(view_fields(fields@) =~= fv.update(i as int, (kv, tv)));
            }
            return;
        }
        i = i + 1;
    }
    fields.push((key, t));
    proof {
        assert(view_fields(fields@) =~= fv.push((kv, tv)));
    }
}

impl Clone for BObject {
    fn clone(&self) -> (r: Self)
        ensures
            r@ == self@,
    {
        let inner = clone_fields(&self.inner);
        proof {
            assert(view_fields(inner@) =~= view_fields(self.inner@));
        }
        BObject { base: self.base, inner, strict: self.strict }
    }
}

impl BObject {
    /// A field mapping, each child behind the common tag, becomes an object
    /// schema; a repeated field name keeps the last child schema given for
    /// it.
    #[verifier::loop_isolation(false)]
    pub fn new(schema: &Vec<(String, BWrapped)>) -> (r: BObject)
        ensures
            r.base == (BValueBase { optional: false, nullable: false }),
            !r.strict,
            view_fields(r.inner@) == upsert_all(
                Seq::<(Seq<char>, SchemaV)>::empty(),
                view_wrapped_fields(schema@),
                0,
            ),
            crate::semantics::keys_unique(view_fields(r.inner@)),
    {
        proof {
            crate::laws::lemma_built_fields_unique(view_wrapped_fields(schema@));
        }
        let mut inner: Vec<(String, BType)> = Vec::new();
        let ghost ws = view_wrapped_fields(schema@);
        proof {
            assert(view_fields(inner@) =~= Seq::<(Seq<char>, SchemaV)>::empty());
        }
        let mut i: usize = 0;
        while i < schema.len()
            invariant
                i <= schema.len(),
                upsert_all(view_fields(inner@), ws, i as int) == upsert_all(
                    Seq::<(Seq<char>, SchemaV)>::empty(),
                    ws,
                    0,
                ),
            decreases schema.len() - i,
        {
            let k = schema[i].0.clone();
            let t = clone_btype(&schema[i].1.inner);
            let ghost prev = view_fields(inner@);
            let ghost kv = k@;
            let ghost tv = t@;
            upsert_field(&mut inner, k, t);
            proof {
                assert(kv == ws[i as int].0 && tv == ws[i as int].1);
                assert(upsert_all(prev, ws, i as int) == upsert_all(
                    view_fields(inner@),
                    ws,
                    i as int + 1,
                ));
            }
            i = i + 1;
        }
        BObject { base: BValueBase::default(), inner, strict: false }
    }

    #[verifier::loop_isolation(false)]
    pub fn parse(&self, value: &Value) -> (r: Result<Value, ValidationError>)
        ensures
            obeys(r, eval(self@, value@)),
        decreases self, 1int,
    {
        match self.base.skip_parse(value) {
            Err(e) => {
                return Err(e);
            },
            Ok(true) => {
                return Ok(clone_value(value));
            },
            Ok(false) => {},
        }
        let entries = match value {
            Value::Record(es) => es,
            _ => {
                return Err(
                    ValidationError {
                        kind: ErrorKind::TypeMismatch,
                        reason: expected_reason("Object"),
                    },
                );
            },
        };
        let ghost fv = view_fields(self.inner@);
        let ghost ev = view_entries(entries@);
        proof {
            match eval_fields(fv, ev, 0) {
                Ok(rest) => {
                    assert(view_entries(Seq::<(String, Value)>::empty()) + rest =~= rest);
                },
                Err(_) => {},
            }
        }
        let mut outs: Vec<(String, Value)> = Vec::new();
        let mut i: usize = 0;
        while i < self.inner.len()
            invariant
                i <= self.inner.len(),
                eval_fields(fv, ev, 0) == prepend_fields(
                    view_entries(outs@),
                    eval_fields(fv, ev, i as int),
                ),
            decreases self.inner.len() - i,
        {
            let key = &self.inner[i].0;
            let bt = &self.inner[i].1;
            match record_get(entries, key) {
                None => {
                    if !get_btype_base(bt).optional {
                        let reason = missing_key_reason(key.as_str());
                        return Err(ValidationError { kind: ErrorKind::InvalidArgument, reason });
                    }
                },
                Some(property) => {
                    match parse_btype(bt, property) {
                        Err(e) => {
                            return Err(e);
                        },
                        Ok(out) => {
                            let ghost outs_old = outs@;
                            let ghost outv = out@;
                            let k2 = key.clone();
                            outs.push((k2, out));
                            proof {
                                match eval_fields(fv, ev, i as int + 1) {
                                    Ok(rest) => {
                                        assert(view_entries(outs@) + rest =~= view_entries(outs_old)
                                            + (seq![(fv[i as int].0, outv)] + rest));
                                    },
                                    Err(_) => {},
                                }
                            }
                        },
                    }
                },
            }
            i = i + 1;
        }
        proof {
            match eval_fields(fv, ev, self.inner@.len() as int) {
                Ok(rest) => {
                    assert(view_entries(outs@) + rest =~= view_entries(outs@));
                },
                Err(_) => {},
            }
        }
        // The declared fields are all valid; what is left decides between the
        // strict failure and the reconstructed output.
        let mut unknowns: Vec<String> = Vec::new();
        proof {
            assert(keys_of(unknowns@) + unknown_keys_from(fv, ev, 0) =~= unknown_keys_from(
                fv,
                ev,
                0,
            ));
        }
        let mut j: usize = 0;
        while j < entries.len()
            invariant
                j <= entries.len(),
                unknown_keys_from(fv, ev, 0) == keys_of(unknowns@) + unknown_keys_from(
                    fv,
                    ev,
                    j as int,
                ),
            decreases entries.len() - j,
        {
            if !declares_key(&self.inner, &entries[j].0) {
                let ghost unknowns_old = unknowns@;
                unknowns.push(entries[j].0.clone());
                proof {
                    assert(keys_of(unknowns@) + unknown_keys_from(fv, ev, j as int + 1) =~= keys_of(
                        unknowns_old,
                    ) + (seq![ev[j as int].0] + unknown_keys_from(fv, ev, j as int + 1)));
                }
            }
            j = j + 1;
        }
        let ghost kv = keys_of(unknowns@);
        proof {
            assert(kv + unknown_keys_from(fv, ev, entries@.len() as int) =~= kv);
        }
        if self.strict && unknowns.len() > 0 {
            proof {
                reveal_strlit("Unknown key(s) [");
            }
            let mut reason = "Unknown key(s) [".to_owned();
            proof {
                assert(reason@ + joined(kv.take(0)) =~= reason@);
            }
            let mut t: usize = 0;
            while t < unknowns.len()
                invariant
                    t <= unknowns.len(),
                    reason@ == "Unknown key(s) ["@ + joined(kv.take(t as int)),
                decreases unknowns.len() - t,
            {
                let ghost reason_old = reason@;
                if t > 0 {
                    reason.append(", ");
                }
                reason.append(unknowns[t].as_str());
                proof {
                    assert(kv.take(t as int).push(kv[t as int]) =~= kv.take(t as int + 1));
                    lemma_joined_push(kv.take(t as int), kv[t as int]);
                    if t > 0 {
                        assert(reason@ =~= "Unknown key(s) ["@ + joined(kv.take(t as int + 1)));
                    } else {
                        assert(reason@ =~= "Unknown key(s) ["@ + joined(kv.take(1)));
                    }
                }
                t = t + 1;
            }
            proof {
                assert(kv.take(unknowns@.len() as int) =~= kv);
            }
            reason.append("] in strict object");
            return Err(ValidationError { kind: ErrorKind::InvalidArgument, reason });
        }
        Ok(Value::Record(outs))
    }

    pub fn parse_safe(&self, value: &Value) -> (r: ParseSafeRes)
        ensures
            safe_obeys(r, eval(self@, value@)),
    {
        match self.parse(value) {
            Ok(data) => ParseSafeRes { success: true, data: Some(data), reason: None },
            Err(error) => ParseSafeRes { success: false, data: None, reason: Some(error.reason) },
        }
    }

    /// A new object schema: the receiver's fields overwritten/extended by the
    /// argument's fields (the argument wins name collisions), with the
    /// modifier reset to required and non-nullable whatever the operands had.
    #[verifier::loop_isolation(false)]
    pub fn merge(&self, schema: &BObject) -> (r: BObject)
        ensures
            r.base == (BValueBase { optional: false, nullable: false }),
            r.strict == self.strict,
            view_fields(r.inner@) == merge_fields(
                view_fields(self.inner@),
                view_fields(schema.inner@),
            ),
            crate::semantics::keys_unique(view_fields(self.inner@))
                ==> crate::semantics::keys_unique(view_fields(r.inner@)),
    {
        proof {
            if crate::semantics::keys_unique(view_fields(self.inner@)) {
                crate::laws::lemma_merge_preserves_unique_keys(
                    view_fields(self.inner@),
                    view_fields(schema.inner@),
                );
            }
        }
        let mut inner = clone_fields(&self.inner);
        let ghost ov = view_fields(schema.inner@);
        proof {
            assert(view_fields(inner@) =~= view_fields(self.inner@));
        }
        let mut i: usize = 0;
        while i < schema.inner.len()
            invariant
                i <= schema.inner.len(),
                upsert_all(view_fields(inner@), ov, i as int) == upsert_all(
                    view_fields(self.inner@),
                    ov,
                    0,
                ),
            decreases schema.inner.len() - i,
        {
            let k = schema.inner[i].0.clone();
            let t = clone_btype(&schema.inner[i].1);
            let ghost prev = view_fields(inner@);
            let ghost kv = k@;
            let ghost tv = t@;
            upsert_field(&mut inner, k, t);
            proof {
                assert(kv == ov[i as int].0 && tv == ov[i as int].1);
                assert(upsert_all(prev, ov, i as int) == upsert_all(
                    view_fields(inner@),
                    ov,
                    i as int + 1,
                ));
            }
            i = i + 1;
        }
        BObject {
            base: BValueBase { optional: false, nullable: false },
            inner,
            strict: self.strict,
        }
    }

    /// Unknown input keys become an error instead of being dropped.
    pub fn strict(&self) -> (r: BObject)
        ensures
            r.base == self.base,
            r.strict,
            view_fields(r.inner@) == view_fields(self.inner@),
    {
        let inner = clone_fields(&self.inner);
        proof {
            assert(view_fields(inner@) =~= view_fields(self.inner@));
        }
        BObject { base: self.base, inner, strict: true }
    }

    /// Unknown input keys are dropped from the output again.
    pub fn un_strict(&self) -> (r: BObject)
        ensures
            r.base == self.base,
            !r.strict,
            view_fields(r.inner@) == view_fields(self.inner@),
    {
        let inner = clone_fields(&self.inner);
        proof {
            assert(view_fields(inner@) =~= view_fields(self.inner@));
        }
        BObject { base: self.base, inner, strict: false }
    }

    pub fn get_base(&self) -> (r: &BValueBase)
        ensures
            *r == self.base,
    {
        &self.base
    }

    pub fn optional(&self) -> (r: Self)
        ensures
            r@ == with_base(self@, BValueBase { optional: true, nullable: self.base.nullable }),
    {
        BObject {
            base: BValueBase { optional: true, nullable: self.base.nullable },
            ..self.clone()
        }
    }

    pub fn nullable(&self) -> (r: Self)
        ensures
            r@ == with_base(self@, BValueBase { optional: self.base.optional, nullable: true }),
    {
        BObject {
            base: BValueBase { optional: self.base.optional, nullable: true },
            ..self.clone()
        }
    }

    pub fn nullish(&self) -> (r: Self)
        ensures
            r@ == with_base(self@, BValueBase { optional: true, nullable: true }),
    {
        BObject { base: BValueBase { optional: true, nullable: true }, ..self.clone() }
    }

    pub fn required(&self) -> (r: Self)
        ensures
            r@ == with_base(self@, BValueBase { optional: false, nullable: self.base.nullable }),
    {
        BObject {
            base: BValueBase { optional: false, nullable: self.base.nullable },
            ..self.clone()
        }
    }

    pub fn non_nullable(&self) -> (r: Self)
        ensures
            r@ == with_base(self@, BValueBase { optional: self.base.optional, nullable: false }),
    {
        BObject {
            base: BValueBase { optional: self.base.optional, nullable: false },
            ..self.clone()
        }
    }

    /// This schema behind the common tag, for use as a composite's child.
    pub fn to_wrapped(&self) -> (r: BWrapped)
        ensures
            r@ == self@,
    {
        BWrapped { inner: BType::Object(self.clone()) }
    }
}

} // verus!

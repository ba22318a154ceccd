use vstd::prelude::*;

use crate::array::BArray;
use crate::boolean::BBoolean;
use crate::error::ErrorKind;
use crate::error::ValidationError;
use crate::null::BNull;
use crate::number::BNumber;
use crate::object::BObject;
use crate::string::BString;
use crate::tuple::BTuple;
use crate::undefined::BUndefined;
use crate::union::BUnion;
use crate::value::Value;
use crate::value::ValueV;
use crate::BType;
use crate::BValueBase;
use crate::BWrapped;
use crate::ParseSafeRes;

verus! {

/// The mathematical model of a schema: field names become character
/// sequences, vectors of children become `Seq`.
#[allow(inconsistent_fields)]
pub enum SchemaV {
    Undefined { base: BValueBase },
    Null { base: BValueBase },
    Boolean { base: BValueBase, expected: Option<bool> },
    Number { base: BValueBase, min: Option<i64>, max: Option<i64> },
    String { base: BValueBase, len: Option<u32>, min: Option<u32>, max: Option<u32> },
    Array { base: BValueBase, inner: Box<SchemaV>, len: Option<u32>, min: Option<u32>, max: Option<u32> },
    Object { base: BValueBase, fields: Seq<(Seq<char>, SchemaV)>, strict: bool },
    Union { base: BValueBase, inner: Seq<SchemaV> },
    Tuple { base: BValueBase, inner: Seq<SchemaV> },
}

pub open spec fn view_btype(t: BType) -> SchemaV
    decreases t,
{
    match t {
        BType::Undefined(s) => SchemaV::Undefined { base: s.base },
        BType::Null(s) => SchemaV::Null { base: s.base },
        BType::Boolean(s) => SchemaV::Boolean { base: s.base, expected: s.expected },
        BType::Number(s) => SchemaV::Number { base: s.base, min: s.min, max: s.max },
        BType::String(s) => SchemaV::String { base: s.base, len: s.len, min: s.min, max: s.max },
        BType::Array(s) => SchemaV::Array {
            base: s.base,
            inner: Box::new(view_btype(*s.inner)),
            len: s.len,
            min: s.min,
            max: s.max,
        },
        BType::Object(s) => SchemaV::Object {
            base: s.base,
            fields: view_fields(s.inner@),
            strict: s.strict,
        },
        BType::Union(s) => SchemaV::Union { base: s.base, inner: view_btypes(s.inner@) },
        BType::Tuple(s) => SchemaV::Tuple { base: s.base, inner: view_btypes(s.inner@) },
    }
}

pub open spec fn view_btypes(ts: Seq<BType>) -> Seq<SchemaV>
    decreases ts,
{
    Seq::new(
        ts.len(),
        |i: int|
            if 0 <= i < ts.len() {
                view_btype(ts[i])
            } else {
                SchemaV::Undefined { base: BValueBase { optional: false, nullable: false } }
            },
    )
}

pub open spec fn view_fields(fs: Seq<(String, BType)>) -> Seq<(Seq<char>, SchemaV)>
    decreases fs,
{
    Seq::new(
        fs.len(),
        |i: int|
            if 0 <= i < fs.len() {
                (fs[i].0@, view_btype(fs[i].1))
            } else {
                (Seq::empty(), SchemaV::Undefined { base: BValueBase { optional: false, nullable: false } })
            },
    )
}

impl View for BType {
    type V = SchemaV;

    open spec fn view(&self) -> SchemaV {
        view_btype(*self)
    }
}

impl View for BUndefined {
    type V = SchemaV;

    open spec fn view(&self) -> SchemaV {
        SchemaV::Undefined { base: self.base }
    }
}

impl View for BNull {
    type V = SchemaV;

    open spec fn view(&self) -> SchemaV {
        SchemaV::Null { base: self.base }
    }
}

impl View for BBoolean {
    type V = SchemaV;

    open spec fn view(&self) -> SchemaV {
        SchemaV::Boolean { base: self.base, expected: self.expected }
    }
}

impl View for BNumber {
    type V = SchemaV;

    open spec fn view(&self) -> SchemaV {
        SchemaV::Number { base: self.base, min: self.min, max: self.max }
    }
}

impl View for BString {
    type V = SchemaV;

    open spec fn view(&self) -> SchemaV {
        SchemaV::String { base: self.base, len: self.len, min: self.min, max: self.max }
    }
}

impl View for BArray {
    type V = SchemaV;

    open spec fn view(&self) -> SchemaV {
        SchemaV::Array {
            base: self.base,
            inner: Box::new(view_btype(*self.inner)),
            len: self.len,
            min: self.min,
            max: self.max,
        }
    }
}

impl View for BObject {
    type V = SchemaV;

    open spec fn view(&self) -> SchemaV {
        SchemaV::Object { base: self.base, fields: view_fields(self.inner@), strict: self.strict }
    }
}

impl View for BUnion {
    type V = SchemaV;

    open spec fn view(&self) -> SchemaV {
        SchemaV::Union { base: self.base, inner: view_btypes(self.inner@) }
    }
}

impl View for BTuple {
    type V = SchemaV;

    open spec fn view(&self) -> SchemaV {
        SchemaV::Tuple { base: self.base, inner: view_btypes(self.inner@) }
    }
}

impl View for BWrapped {
    type V = SchemaV;

    open spec fn view(&self) -> SchemaV {
        view_btype(self.inner)
    }
}

/// The modifier carried by a schema, whatever its variant.
pub open spec fn base_of(s: SchemaV) -> BValueBase {
    match s {
        SchemaV::Undefined { base } => base,
        SchemaV::Null { base } => base,
        SchemaV::Boolean { base, .. } => base,
        SchemaV::Number { base, .. } => base,
        SchemaV::String { base, .. } => base,
        SchemaV::Array { base, .. } => base,
        SchemaV::Object { base, .. } => base,
        SchemaV::Union { base, .. } => base,
        SchemaV::Tuple { base, .. } => base,
    }
}

/// The same schema with its modifier replaced.
pub open spec fn with_base(s: SchemaV, b: BValueBase) -> SchemaV {
    match s {
        SchemaV::Undefined { .. } => SchemaV::Undefined { base: b },
        SchemaV::Null { .. } => SchemaV::Null { base: b },
        SchemaV::Boolean { expected, .. } => SchemaV::Boolean { base: b, expected },
        SchemaV::Number { min, max, .. } => SchemaV::Number { base: b, min, max },
        SchemaV::String { len, min, max, .. } => SchemaV::String { base: b, len, min, max },
        SchemaV::Array { inner, len, min, max, .. } => SchemaV::Array {
            base: b,
            inner,
            len,
            min,
            max,
        },
        SchemaV::Object { fields, strict, .. } => SchemaV::Object { base: b, fields, strict },
        SchemaV::Union { inner, .. } => SchemaV::Union { base: b, inner },
        SchemaV::Tuple { inner, .. } => SchemaV::Tuple { base: b, inner },
    }
}

/// A validation failure as the model states it: enough structure to fix the
/// error class and the exact reason text (see [`err_kind`] and
/// [`err_reason`]).
#[allow(inconsistent_fields)]
pub enum ErrV {
    RequiredAbsent,
    NotNullable,
    WrongKind { expected: Seq<char> },
    BooleanMismatch { expected: bool },
    BelowMin,
    AboveMax,
    LengthMismatch { kind_name: Seq<char>, actual: nat, expected: nat },
    LengthBelowMin { kind_name: Seq<char> },
    LengthAboveMax { kind_name: Seq<char> },
    MissingKey { key: Seq<char> },
    UnknownKeys { keys: Seq<Seq<char>> },
    NoUnionMatch,
}

/// The class of a model failure: only a wrong runtime kind is a
/// `TypeMismatch`; every constraint violation is an `InvalidArgument`.
pub open spec fn err_kind(e: ErrV) -> ErrorKind {
    match e {
        ErrV::WrongKind { .. } => ErrorKind::TypeMismatch,
        _ => ErrorKind::InvalidArgument,
    }
}

/// The unknown keys of a strict failure, joined with `", "`.
pub open spec fn joined_tail(keys: Seq<Seq<char>>, i: int) -> Seq<char>
    decreases keys.len() - i,
{
    if i < 0 || i >= keys.len() {
        Seq::empty()
    } else {
        ", "@ + keys[i] + joined_tail(keys, i + 1)
    }
}

pub open spec fn joined(keys: Seq<Seq<char>>) -> Seq<char> {
    if keys.len() == 0 {
        Seq::empty()
    } else {
        keys[0] + joined_tail(keys, 1)
    }
}

proof fn lemma_joined_tail_push(ks: Seq<Seq<char>>, k: Seq<char>, i: int)
    requires
        0 <= i <= ks.len(),
    ensures
        joined_tail(ks.push(k), i) == joined_tail(ks, i) + (", "@ + k),
    decreases ks.len() - i,
{
    let p = ks.push(k);
    if i == ks.len() {
        assert(p[i] == k);
        assert(joined_tail(p, i + 1) =~= Seq::<char>::empty());
        assert(joined_tail(ks, i) =~= Seq::<char>::empty());
        assert(joined_tail(p, i) == ", "@ + k + joined_tail(p, i + 1));
        assert(", "@ + k + Seq::<char>::empty() =~= Seq::<char>::empty() + (", "@ + k));
    } else {
        lemma_joined_tail_push(ks, k, i + 1);
        assert(", "@ + ks[i] + (joined_tail(ks, i + 1) + (", "@ + k)) =~= (", "@ + ks[i]
            + joined_tail(ks, i + 1)) + (", "@ + k));
    }
}

/// Appending one more key extends the joined text by a separator and that
/// key (or is just the key, when the list was empty).
pub proof fn lemma_joined_push(ks: Seq<Seq<char>>, k: Seq<char>)
    ensures
        joined(ks.push(k)) == if ks.len() == 0 {
            k
        } else {
            joined(ks) + (", "@ + k)
        },
{
    let p = ks.push(k);
    if ks.len() == 0 {
        assert(joined(p) =~= k);
    } else {
        lemma_joined_tail_push(ks, k, 1);
        assert(ks[0] + (joined_tail(ks, 1) + (", "@ + k)) =~= (ks[0] + joined_tail(ks, 1)) + (", "@
            + k));
    }
}

/// The exact reason text of a model failure.
pub open spec fn err_reason(e: ErrV) -> Seq<char> {
    match e {
        ErrV::RequiredAbsent => "Got undefined for required value"@,
        ErrV::NotNullable => "Got Null for non nullable value"@,
        ErrV::WrongKind { expected } => expected + " expected"@,
        ErrV::BooleanMismatch { expected } => "Boolean did not match expected value '"@ + (if expected {
            "true"@
        } else {
            "false"@
        }) + "'"@,
        ErrV::BelowMin => "Number is lower than minimum"@,
        ErrV::AboveMax => "Number is higher than maximum"@,
        ErrV::LengthMismatch { kind_name, actual, expected } => kind_name + " length ("@
            + crate::error::dec_digits(actual) + ") does not equal expected length ("@
            + crate::error::dec_digits(expected) + ")"@,
        ErrV::LengthBelowMin { kind_name } => kind_name + " length is lower than minimum"@,
        ErrV::LengthAboveMax { kind_name } => kind_name + " length is higher than maximum"@,
        ErrV::MissingKey { key } => "Object missing required key '"@ + key + "'"@,
        ErrV::UnknownKeys { keys } => "Unknown key(s) ["@ + joined(keys) + "] in strict object"@,
        ErrV::NoUnionMatch => "Value did not match any of the Union types"@,
    }
}

/// The modifier's pre-check: `Ok(true)` means the value is accepted as is
/// with no variant-specific validation; `Ok(false)` means validation must go
/// on; `Err` means an absent value was required or a null value was not
/// allowed.
pub open spec fn skip_result(base: BValueBase, v: ValueV) -> Result<bool, ErrV> {
    match v {
        ValueV::Undefined => if base.optional {
            Ok(true)
        } else {
            Err(ErrV::RequiredAbsent)
        },
        ValueV::Null => if base.nullable {
            Ok(true)
        } else {
            Err(ErrV::NotNullable)
        },
        _ => Ok(false),
    }
}

/// The length of a string, measured in bytes of its UTF-8 encoding, the
/// reference length unit, used consistently throughout the engine.
pub open spec fn str_len(s: Seq<char>) -> nat {
    vstd::utf8::encode_utf8(s).len()
}

/// The common length policy of strings and arrays: an exact expected length
/// overrides the bounds entirely; otherwise each bound is enforced
/// independently, the lower one first.
pub open spec fn length_check(
    kind_name: Seq<char>,
    len: Option<u32>,
    min: Option<u32>,
    max: Option<u32>,
    actual: nat,
) -> Result<(), ErrV> {
    match len {
        Some(l) => if actual == l {
            Ok(())
        } else {
            Err(ErrV::LengthMismatch { kind_name, actual, expected: l as nat })
        },
        None => {
            let below = match min {
                Some(m) => actual < m,
                None => false,
            };
            let above = match max {
                Some(m) => actual > m,
                None => false,
            };
            if below {
                Err(ErrV::LengthBelowMin { kind_name })
            } else if above {
                Err(ErrV::LengthAboveMax { kind_name })
            } else {
                Ok(())
            }
        },
    }
}

/// The undeclared keys of a record, in input order, from entry `j` on.
pub open spec fn unknown_keys_from(
    fields: Seq<(Seq<char>, SchemaV)>,
    entries: Seq<(Seq<char>, ValueV)>,
    j: int,
) -> Seq<Seq<char>>
    decreases entries.len() - j,
{
    if j < 0 || j >= entries.len() {
        Seq::empty()
    } else {
        let rest = unknown_keys_from(fields, entries, j + 1);
        if !has_field(fields, entries[j].0) {
            seq![entries[j].0] + rest
        } else {
            rest
        }
    }
}

/// The views of a vector of collected keys.
pub open spec fn keys_of(ss: Seq<String>) -> Seq<Seq<char>> {
    Seq::new(ss.len(), |i: int| ss[i]@)
}

pub open spec fn lookup_from(
    entries: Seq<(Seq<char>, ValueV)>,
    k: Seq<char>,
    i: int,
) -> Option<ValueV>
    decreases entries.len() - i,
{
    if i < 0 || i >= entries.len() {
        None
    } else if entries[i].0 == k {
        Some(entries[i].1)
    } else {
        lookup_from(entries, k, i + 1)
    }
}

/// The value at the first entry of the record carrying key `k`, if any.
pub open spec fn record_lookup(entries: Seq<(Seq<char>, ValueV)>, k: Seq<char>) -> Option<ValueV> {
    lookup_from(entries, k, 0)
}

/// Whether an object schema declares a field named `k`.
pub open spec fn has_field(fields: Seq<(Seq<char>, SchemaV)>, k: Seq<char>) -> bool {
    exists|i: int| 0 <= i < fields.len() && fields[i].0 == k
}

/// Whether a record carries a key that the object schema does not declare.
pub open spec fn has_unknown_key(
    fields: Seq<(Seq<char>, SchemaV)>,
    entries: Seq<(Seq<char>, ValueV)>,
) -> bool {
    exists|j: int| 0 <= j < entries.len() && !has_field(fields, entries[j].0)
}

/// What validating `v` against `s` returns: the freshly constructed output
/// value on success, or the class of the first failure. This is the
/// specification that every `parse` implementation is held to.
pub open spec fn eval(s: SchemaV, v: ValueV) -> Result<ValueV, ErrV>
    decreases s, 0int,
{
    match skip_result(base_of(s), v) {
        Err(k) => Err(k),
        Ok(skip) => if skip {
            Ok(v)
        } else {
            match s {
                SchemaV::Undefined { .. } => match v {
                    ValueV::Undefined => Ok(v),
                    _ => Err(ErrV::WrongKind { expected: "Undefined"@ }),
                },
                SchemaV::Null { .. } => match v {
                    ValueV::Null => Ok(v),
                    _ => Err(ErrV::WrongKind { expected: "Null"@ }),
                },
                SchemaV::Boolean { expected, .. } => match v {
                    ValueV::Boolean(b) => match expected {
                        Some(e) => if b == e {
                            Ok(v)
                        } else {
                            Err(ErrV::BooleanMismatch { expected: e })
                        },
                        None => Ok(v),
                    },
                    _ => Err(ErrV::WrongKind { expected: "Boolean"@ }),
                },
                SchemaV::Number { min, max, .. } => match v {
                    ValueV::Number(n) => {
                        let below = match min {
                            Some(m) => n < m,
                            None => false,
                        };
                        let above = match max {
                            Some(m) => n > m,
                            None => false,
                        };
                        if below {
                            Err(ErrV::BelowMin)
                        } else if above {
                            Err(ErrV::AboveMax)
                        } else {
                            Ok(v)
                        }
                    },
                    _ => Err(ErrV::WrongKind { expected: "Number"@ }),
                },
                SchemaV::String { len, min, max, .. } => match v {
                    ValueV::String(cs) => match length_check("String"@, len, min, max, str_len(cs)) {
                        Err(k) => Err(k),
                        Ok(_) => Ok(v),
                    },
                    _ => Err(ErrV::WrongKind { expected: "String"@ }),
                },
                SchemaV::Array { inner, len, min, max, .. } => match v {
                    ValueV::Sequence(es) => match length_check("Array"@, len, min, max, es.len()) {
                        Err(k) => Err(k),
                        Ok(_) => match eval_elems(*inner, es, 0) {
                            Err(k) => Err(k),
                            Ok(outs) => Ok(ValueV::Sequence(outs)),
                        },
                    },
                    _ => Err(ErrV::WrongKind { expected: "Array"@ }),
                },
                SchemaV::Tuple { inner, .. } => match v {
                    ValueV::Sequence(es) => if es.len() != inner.len() {
                        Err(ErrV::LengthMismatch {
                            kind_name: "Tuple"@,
                            actual: es.len(),
                            expected: inner.len(),
                        })
                    } else {
                        match eval_tuple(inner, es, 0) {
                            Err(k) => Err(k),
                            Ok(outs) => Ok(ValueV::Sequence(outs)),
                        }
                    },
                    _ => Err(ErrV::WrongKind { expected: "Array"@ }),
                },
                SchemaV::Object { fields, strict, .. } => match v {
                    ValueV::Record(entries) => match eval_fields(fields, entries, 0) {
                        Err(k) => Err(k),
                        Ok(outs) => if strict && unknown_keys_from(fields, entries, 0).len() != 0 {
                            Err(ErrV::UnknownKeys { keys: unknown_keys_from(fields, entries, 0) })
                        } else {
                            Ok(ValueV::Record(outs))
                        },
                    },
                    _ => Err(ErrV::WrongKind { expected: "Object"@ }),
                },
                SchemaV::Union { inner, .. } => eval_union(inner, v, 0),
            }
        },
    }
}

/// Element-wise validation of a sequence against one child schema, from
/// index `i` on: the validated elements in order, or the first failure.
pub open spec fn eval_elems(inner: SchemaV, es: Seq<ValueV>, i: int) -> Result<Seq<ValueV>, ErrV>
    decreases inner, es.len() - i + 1,
{
    if i < 0 || i >= es.len() {
        Ok(Seq::empty())
    } else {
        match eval(inner, es[i]) {
            Err(k) => Err(k),
            Ok(out) => match eval_elems(inner, es, i + 1) {
                Err(k) => Err(k),
                Ok(rest) => Ok(seq![out] + rest),
            },
        }
    }
}

/// Position-wise validation of a sequence against one child schema per
/// position, from index `i` on.
pub open spec fn eval_tuple(
    schemas: Seq<SchemaV>,
    es: Seq<ValueV>,
    i: int,
) -> Result<Seq<ValueV>, ErrV>
    decreases schemas, schemas.len() - i + 1,
{
    if i < 0 || i >= schemas.len() {
        Ok(Seq::empty())
    } else {
        match eval(schemas[i], es[i]) {
            Err(k) => Err(k),
            Ok(out) => match eval_tuple(schemas, es, i + 1) {
                Err(k) => Err(k),
                Ok(rest) => Ok(seq![out] + rest),
            },
        }
    }
}

/// Validation of a record against the declared fields from index `i` on:
/// the declared, present, validated entries in declaration order (absent
/// optional fields are skipped), or the first failure.
pub open spec fn eval_fields(
    fields: Seq<(Seq<char>, SchemaV)>,
    entries: Seq<(Seq<char>, ValueV)>,
    i: int,
) -> Result<Seq<(Seq<char>, ValueV)>, ErrV>
    decreases fields, fields.len() - i + 1,
{
    if i < 0 || i >= fields.len() {
        Ok(Seq::empty())
    } else {
        match record_lookup(entries, fields[i].0) {
            None => if base_of(fields[i].1).optional {
                eval_fields(fields, entries, i + 1)
            } else {
                Err(ErrV::MissingKey { key: fields[i].0 })
            },
            Some(val) => match eval(fields[i].1, val) {
                Err(k) => Err(k),
                Ok(out) => match eval_fields(fields, entries, i + 1) {
                    Err(k) => Err(k),
                    Ok(rest) => Ok(seq![(fields[i].0, out)] + rest),
                },
            },
        }
    }
}

/// Ordered alternation: the result of the first alternative from index `i`
/// on that accepts `v`, or a constraint failure when none does.
pub open spec fn eval_union(alts: Seq<SchemaV>, v: ValueV, i: int) -> Result<ValueV, ErrV>
    decreases alts, alts.len() - i + 1,
{
    if i < 0 || i >= alts.len() {
        Err(ErrV::NoUnionMatch)
    } else {
        match eval(alts[i], v) {
            Ok(out) => Ok(out),
            Err(_) => eval_union(alts, v, i + 1),
        }
    }
}

/// Composes already validated elements with the result for the remaining
/// suffix of a sequence.
pub open spec fn prepend_elems(
    prefix: Seq<ValueV>,
    r: Result<Seq<ValueV>, ErrV>,
) -> Result<Seq<ValueV>, ErrV> {
    match r {
        Err(k) => Err(k),
        Ok(rest) => Ok(prefix + rest),
    }
}

/// Composes already validated record entries with the result for the
/// remaining declared fields.
pub open spec fn prepend_fields(
    prefix: Seq<(Seq<char>, ValueV)>,
    r: Result<Seq<(Seq<char>, ValueV)>, ErrV>,
) -> Result<Seq<(Seq<char>, ValueV)>, ErrV> {
    match r {
        Err(k) => Err(k),
        Ok(rest) => Ok(prefix + rest),
    }
}

/// The index of the first declared field named `k` at or after `i`, or the
/// field count when there is none.
pub open spec fn key_index_from(fields: Seq<(Seq<char>, SchemaV)>, k: Seq<char>, i: int) -> int
    decreases fields.len() - i,
{
    if i < 0 || i >= fields.len() {
        fields.len() as int
    } else if fields[i].0 == k {
        i
    } else {
        key_index_from(fields, k, i + 1)
    }
}

/// Inserting or replacing one declared field: an existing field named `k`
/// keeps its position and gets the new child schema; otherwise the field is
/// appended.
pub open spec fn upsert_one(
    fields: Seq<(Seq<char>, SchemaV)>,
    k: Seq<char>,
    s: SchemaV,
) -> Seq<(Seq<char>, SchemaV)> {
    let j = key_index_from(fields, k, 0);
    if j < fields.len() {
        fields.update(j, (k, s))
    } else {
        fields.push((k, s))
    }
}

pub open spec fn upsert_all(
    acc: Seq<(Seq<char>, SchemaV)>,
    fs: Seq<(Seq<char>, SchemaV)>,
    i: int,
) -> Seq<(Seq<char>, SchemaV)>
    decreases fs.len() - i,
{
    if i < 0 || i >= fs.len() {
        acc
    } else {
        upsert_all(upsert_one(acc, fs[i].0, fs[i].1), fs, i + 1)
    }
}

/// What merging two object schemas declares: the receiver's fields
/// overwritten or extended by the argument's fields, in order, the argument
/// winning name collisions.
pub open spec fn merge_fields(
    a: Seq<(Seq<char>, SchemaV)>,
    b: Seq<(Seq<char>, SchemaV)>,
) -> Seq<(Seq<char>, SchemaV)> {
    upsert_all(a, b, 0)
}

/// Whether a field mapping declares each name at most once, the invariant
/// the engine's object constructors maintain.
pub open spec fn keys_unique(fields: Seq<(Seq<char>, SchemaV)>) -> bool {
    forall|i: int, j: int| 0 <= i < j < fields.len() ==> fields[i].0 != fields[j].0
}

/// The child schema a field mapping declares for name `k`: that of the
/// first field so named, as validation reads it.
pub open spec fn field_lookup(fields: Seq<(Seq<char>, SchemaV)>, k: Seq<char>) -> Option<SchemaV> {
    let j = key_index_from(fields, k, 0);
    if j < fields.len() {
        Some(fields[j].1)
    } else {
        None
    }
}

/// The declared fields named by a vector of wrapped schemas.
pub open spec fn view_wrapped_fields(fs: Seq<(String, BWrapped)>) -> Seq<(Seq<char>, SchemaV)> {
    Seq::new(fs.len(), |i: int| (fs[i].0@, fs[i].1@))
}

/// How an executable validation result is held to the model: the same
/// success or failure, the same output value, the same failure class, and a
/// non-empty reason on failure.
pub open spec fn obeys(r: Result<Value, ValidationError>, e: Result<ValueV, ErrV>) -> bool {
    match e {
        Ok(out) => match r {
            Ok(x) => x@ == out,
            Err(_) => false,
        },
        Err(k) => match r {
            Ok(_) => false,
            Err(er) => er.kind == err_kind(k) && er.reason@ == err_reason(k) && er.reason@.len()
                > 0,
        },
    }
}

/// How a non-throwing validation result is held to the model: `success` set
/// exactly on acceptance, `data` present with the output value exactly on
/// success, and a non-empty `reason` present exactly on failure.
pub open spec fn safe_obeys(r: ParseSafeRes, e: Result<ValueV, ErrV>) -> bool {
    match e {
        Ok(out) => r.success && r.reason is None && match r.data {
            Some(d) => d@ == out,
            None => false,
        },
        Err(k) => !r.success && r.data is None && match r.reason {
            Some(s) => s@ == err_reason(k) && s@.len() > 0,
            None => false,
        },
    }
}

/// As `obeys`, for the modifier pre-check, which returns a flag instead of a
/// value.
pub open spec fn obeys_flag(r: Result<bool, ValidationError>, e: Result<bool, ErrV>) -> bool {
    match e {
        Ok(b) => match r {
            Ok(x) => x == b,
            Err(_) => false,
        },
        Err(k) => match r {
            Ok(_) => false,
            Err(er) => er.kind == err_kind(k) && er.reason@ == err_reason(k) && er.reason@.len()
                > 0,
        },
    }
}

} // verus!

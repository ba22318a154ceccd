use vstd::prelude::*;

use crate::semantics::base_of;
use crate::semantics::eval;
use crate::semantics::eval_union;
use crate::semantics::field_lookup;
use crate::semantics::unknown_keys_from;
use crate::semantics::ErrV;
use crate::semantics::has_field;
use crate::semantics::has_unknown_key;
use crate::semantics::key_index_from;
use crate::semantics::keys_unique;
use crate::semantics::merge_fields;
use crate::semantics::upsert_all;
use crate::semantics::upsert_one;
use crate::semantics::SchemaV;
use crate::value::ValueV;
use crate::BValueBase;

verus! {

/// Primitive validators pass accepted values through unchanged, so a second
/// validation of an accepted result returns the same result.
pub proof fn lemma_primitive_parse_idempotent(s: SchemaV, v: ValueV)
    requires
        s is Undefined || s is Null || s is Boolean || s is Number || s is String,
        eval(s, v) is Ok,
    ensures
        eval(s, v)->Ok_0 == v,
        eval(s, eval(s, v)->Ok_0) == eval(s, v),
{
}

/// A schema whose modifier allows absent values accepts the absent value
/// unchanged, whatever its variant-specific constraints say.
pub proof fn lemma_optional_accepts_absent(s: SchemaV)
    requires
        base_of(s).optional,
    ensures
        eval(s, ValueV::Undefined) == Ok::<ValueV, ErrV>(ValueV::Undefined),
{
}

/// A schema whose modifier allows null accepts the null value unchanged,
/// whatever its variant-specific constraints say.
pub proof fn lemma_nullable_accepts_null(s: SchemaV)
    requires
        base_of(s).nullable,
    ensures
        eval(s, ValueV::Null) == Ok::<ValueV, ErrV>(ValueV::Null),
{
}

/// When a string schema carries an exact length, its `min`/`max` bounds are
/// never consulted: validation returns exactly what it would return with the
/// bounds absent.
pub proof fn lemma_string_length_overrides_bounds(
    base: BValueBase,
    l: u32,
    min: Option<u32>,
    max: Option<u32>,
    v: ValueV,
)
    ensures
        eval(SchemaV::String { base, len: Some(l), min, max }, v) == eval(
            SchemaV::String { base, len: Some(l), min: None, max: None },
            v,
        ),
{
}

/// When an array schema carries an exact length, its `min`/`max` bounds are
/// never consulted.
pub proof fn lemma_array_length_overrides_bounds(
    base: BValueBase,
    inner: Box<SchemaV>,
    l: u32,
    min: Option<u32>,
    max: Option<u32>,
    v: ValueV,
)
    ensures
        eval(SchemaV::Array { base, inner, len: Some(l), min, max }, v) == eval(
            SchemaV::Array { base, inner, len: Some(l), min: None, max: None },
            v,
        ),
{
}

proof fn lemma_union_skips_rejected_from(alts: Seq<SchemaV>, v: ValueV, k: int, i: int)
    requires
        0 <= k <= i <= alts.len(),
        forall|j: int| k <= j < i ==> eval(alts[j], v) is Err,
    ensures
        eval_union(alts, v, k) == eval_union(alts, v, i),
    decreases i - k,
{
    if k < i {
        lemma_union_skips_rejected_from(alts, v, k + 1, i);
    }
}

/// Ordered alternation is first-match-wins: when every alternative before
/// `i` rejects the value and alternative `i` accepts it, the union returns
/// alternative `i`'s result, whatever later alternatives would say.
pub proof fn lemma_union_first_match(alts: Seq<SchemaV>, v: ValueV, i: int)
    requires
        0 <= i < alts.len(),
        forall|j: int| 0 <= j < i ==> eval(alts[j], v) is Err,
        eval(alts[i], v) is Ok,
    ensures
        eval_union(alts, v, 0) == eval(alts[i], v),
{
    lemma_union_skips_rejected_from(alts, v, 0, i);
}

/// When no alternative accepts the value, the union fails as a constraint
/// violation.
pub proof fn lemma_union_exhausted(alts: Seq<SchemaV>, v: ValueV)
    requires
        forall|j: int| 0 <= j < alts.len() ==> eval(alts[j], v) is Err,
    ensures
        eval_union(alts, v, 0) == Err::<ValueV, ErrV>(ErrV::NoUnionMatch),
{
    lemma_union_skips_rejected_from(alts, v, 0, alts.len() as int);
}

/// A tuple schema rejects any sequence whose length differs from its number
/// of child schemas, as a constraint violation.
pub proof fn lemma_tuple_length_mismatch(base: BValueBase, schemas: Seq<SchemaV>, es: Seq<ValueV>)
    requires
        es.len() != schemas.len(),
    ensures
        eval(SchemaV::Tuple { base, inner: schemas }, ValueV::Sequence(es)) == Err::<
            ValueV,
            ErrV,
        >(ErrV::LengthMismatch { kind_name: "Tuple"@, actual: es.len(), expected: schemas.len() }),
{
}

proof fn lemma_key_index_from(fields: Seq<(Seq<char>, SchemaV)>, k: Seq<char>, i: int)
    requires
        0 <= i <= fields.len(),
    ensures
        ({
            let j = key_index_from(fields, k, i);
            &&& i <= j <= fields.len()
            &&& (j < fields.len() ==> fields[j].0 == k)
            &&& forall|t: int| i <= t < j ==> fields[t].0 != k
        }),
    decreases fields.len() - i,
{
    if i < fields.len() && fields[i].0 != k {
        lemma_key_index_from(fields, k, i + 1);
    }
}

proof fn lemma_key_index_unique(fields: Seq<(Seq<char>, SchemaV)>, k: Seq<char>, i: int, j0: int)
    requires
        0 <= i <= j0 < fields.len(),
        fields[j0].0 == k,
        forall|t: int| i <= t < j0 ==> fields[t].0 != k,
    ensures
        key_index_from(fields, k, i) == j0,
    decreases j0 - i,
{
    if i < j0 {
        lemma_key_index_unique(fields, k, i + 1, j0);
    }
}

proof fn lemma_key_index_absent(fields: Seq<(Seq<char>, SchemaV)>, k: Seq<char>, i: int)
    requires
        0 <= i <= fields.len(),
        forall|t: int| i <= t < fields.len() ==> fields[t].0 != k,
    ensures
        key_index_from(fields, k, i) == fields.len(),
    decreases fields.len() - i,
{
    if i < fields.len() {
        lemma_key_index_absent(fields, k, i + 1);
    }
}

proof fn lemma_upsert_one_lookup(f: Seq<(Seq<char>, SchemaV)>, k: Seq<char>, s: SchemaV, k2: Seq<char>)
    ensures
        field_lookup(upsert_one(f, k, s), k) == Some(s),
        k2 != k ==> field_lookup(upsert_one(f, k, s), k2) == field_lookup(f, k2),
{
    let j = key_index_from(f, k, 0);
    lemma_key_index_from(f, k, 0);
    let g = upsert_one(f, k, s);
    if j < f.len() {
        lemma_key_index_unique(g, k, 0, j);
    } else {
        lemma_key_index_unique(g, k, 0, f.len() as int);
    }
    if k2 != k {
        let j2 = key_index_from(f, k2, 0);
        lemma_key_index_from(f, k2, 0);
        if j2 < f.len() {
            lemma_key_index_unique(g, k2, 0, j2);
        } else {
            lemma_key_index_absent(g, k2, 0);
        }
    }
}

proof fn lemma_upsert_all_untouched(
    acc: Seq<(Seq<char>, SchemaV)>,
    b: Seq<(Seq<char>, SchemaV)>,
    i: int,
    k: Seq<char>,
)
    requires
        0 <= i,
        forall|t: int| i <= t < b.len() ==> b[t].0 != k,
    ensures
        field_lookup(upsert_all(acc, b, i), k) == field_lookup(acc, k),
    decreases b.len() - i,
{
    if i < b.len() {
        lemma_upsert_one_lookup(acc, b[i].0, b[i].1, k);
        lemma_upsert_all_untouched(upsert_one(acc, b[i].0, b[i].1), b, i + 1, k);
    }
}

proof fn lemma_upsert_all_right_wins(
    acc: Seq<(Seq<char>, SchemaV)>,
    b: Seq<(Seq<char>, SchemaV)>,
    i: int,
    j: int,
)
    requires
        0 <= i <= j < b.len(),
        forall|t: int| j < t < b.len() ==> b[t].0 != b[j].0,
    ensures
        field_lookup(upsert_all(acc, b, i), b[j].0) == Some(b[j].1),
    decreases b.len() - i,
{
    if i == j {
        lemma_upsert_one_lookup(acc, b[i].0, b[i].1, b[i].0);
        lemma_upsert_all_untouched(upsert_one(acc, b[i].0, b[i].1), b, i + 1, b[j].0);
    } else {
        lemma_upsert_all_right_wins(upsert_one(acc, b[i].0, b[i].1), b, i + 1, j);
    }
}

/// Merging lets the right operand win field-name collisions: a field the
/// right operand declares (its last occurrence, when a name repeats) is
/// looked up to the right operand's child schema, whatever the left operand
/// declared for that name.
pub proof fn lemma_merge_field_precedence(
    a: Seq<(Seq<char>, SchemaV)>,
    b: Seq<(Seq<char>, SchemaV)>,
    j: int,
)
    requires
        0 <= j < b.len(),
        forall|t: int| j < t < b.len() ==> b[t].0 != b[j].0,
    ensures
        field_lookup(merge_fields(a, b), b[j].0) == Some(b[j].1),
{
    lemma_upsert_all_right_wins(a, b, 0, j);
}

/// Merging keeps the left operand's fields for every name the right operand
/// does not declare.
pub proof fn lemma_merge_keeps_left(
    a: Seq<(Seq<char>, SchemaV)>,
    b: Seq<(Seq<char>, SchemaV)>,
    k: Seq<char>,
)
    requires
        !has_field(b, k),
    ensures
        field_lookup(merge_fields(a, b), k) == field_lookup(a, k),
{
    assert(forall|t: int| 0 <= t < b.len() ==> b[t].0 != k);
    lemma_upsert_all_untouched(a, b, 0, k);
}

proof fn lemma_upsert_one_unique(f: Seq<(Seq<char>, SchemaV)>, k: Seq<char>, s: SchemaV)
    requires
        keys_unique(f),
    ensures
        keys_unique(upsert_one(f, k, s)),
{
    let j = key_index_from(f, k, 0);
    lemma_key_index_from(f, k, 0);
    let g = upsert_one(f, k, s);
    if j < f.len() {
        assert forall|a: int, b: int| 0 <= a < b < g.len() implies g[a].0 != g[b].0 by {
            assert(g[a].0 == f[a].0);
            assert(g[b].0 == f[b].0);
        }
    } else {
        assert forall|a: int, b: int| 0 <= a < b < g.len() implies g[a].0 != g[b].0 by {
            if b == f.len() {
                assert(f[a].0 != k);
            }
        }
    }
}

proof fn lemma_upsert_all_unique(acc: Seq<(Seq<char>, SchemaV)>, b: Seq<(Seq<char>, SchemaV)>, i: int)
    requires
        0 <= i,
        keys_unique(acc),
    ensures
        keys_unique(upsert_all(acc, b, i)),
    decreases b.len() - i,
{
    if i < b.len() {
        lemma_upsert_one_unique(acc, b[i].0, b[i].1);
        lemma_upsert_all_unique(upsert_one(acc, b[i].0, b[i].1), b, i + 1);
    }
}

/// Merging keeps the object invariant: a merged field mapping declares each
/// name at most once whenever the receiver did.
pub proof fn lemma_merge_preserves_unique_keys(
    a: Seq<(Seq<char>, SchemaV)>,
    b: Seq<(Seq<char>, SchemaV)>,
)
    requires
        keys_unique(a),
    ensures
        keys_unique(merge_fields(a, b)),
{
    lemma_upsert_all_unique(a, b, 0);
}

/// A field mapping built up from scratch by insert-or-replace declares each
/// name at most once, whatever names were given and however often.
pub proof fn lemma_built_fields_unique(ws: Seq<(Seq<char>, SchemaV)>)
    ensures
        keys_unique(upsert_all(Seq::<(Seq<char>, SchemaV)>::empty(), ws, 0)),
{
    lemma_upsert_all_unique(Seq::<(Seq<char>, SchemaV)>::empty(), ws, 0);
}

/// Every entry of a validated object output is a declared field whose key
/// was present in the input: absent optional fields leave no entry behind,
/// and undeclared input keys never reach the output.
pub proof fn lemma_object_output_keys_declared(
    fields: Seq<(Seq<char>, SchemaV)>,
    entries: Seq<(Seq<char>, ValueV)>,
    i: int,
)
    requires
        0 <= i <= fields.len(),
        crate::semantics::eval_fields(fields, entries, i) is Ok,
    ensures
        forall|t: int|
            #![trigger crate::semantics::eval_fields(fields, entries, i)->Ok_0[t]]
            0 <= t < crate::semantics::eval_fields(fields, entries, i)->Ok_0.len() ==> {
                &&& has_field(fields, crate::semantics::eval_fields(fields, entries, i)->Ok_0[t].0)
                &&& crate::semantics::record_lookup(
                    entries,
                    crate::semantics::eval_fields(fields, entries, i)->Ok_0[t].0,
                ) is Some
            },
    decreases fields.len() - i,
{
    if i < fields.len() {
        let outs = crate::semantics::eval_fields(fields, entries, i)->Ok_0;
        match crate::semantics::record_lookup(entries, fields[i].0) {
            None => {
                lemma_object_output_keys_declared(fields, entries, i + 1);
            },
            Some(_) => {
                lemma_object_output_keys_declared(fields, entries, i + 1);
                let rest = crate::semantics::eval_fields(fields, entries, i + 1)->Ok_0;
                assert forall|t: int| 0 <= t < outs.len() implies {
                    &&& has_field(fields, outs[t].0)
                    &&& crate::semantics::record_lookup(entries, outs[t].0) is Some
                } by {
                    if t == 0 {
                        assert(outs[0].0 == fields[i].0);
                        assert(fields[i].0 == fields[i].0 && 0 <= i < fields.len());
                    } else {
                        assert(outs[t] == rest[t - 1]);
                    }
                }
            },
        }
    }
}

/// A strict object schema rejects a record carrying an undeclared key
/// whenever its declared fields validate.
pub proof fn lemma_strict_rejects_unknown(
    base: BValueBase,
    fields: Seq<(Seq<char>, SchemaV)>,
    entries: Seq<(Seq<char>, ValueV)>,
)
    requires
        crate::semantics::eval_fields(fields, entries, 0) is Ok,
        has_unknown_key(fields, entries),
    ensures
        eval(SchemaV::Object { base, fields, strict: true }, ValueV::Record(entries)) == Err::<
            ValueV,
            ErrV,
        >(ErrV::UnknownKeys { keys: unknown_keys_from(fields, entries, 0) }),
{
    lemma_unknown_keys_from_nonempty(fields, entries, 0);
}

/// A record carries an undeclared key exactly when the model's list of
/// unknown keys is non-empty.
pub proof fn lemma_unknown_keys_from_nonempty(
    fields: Seq<(Seq<char>, SchemaV)>,
    entries: Seq<(Seq<char>, ValueV)>,
    j: int,
)
    requires
        0 <= j <= entries.len(),
    ensures
        (unknown_keys_from(fields, entries, j).len() > 0) == (exists|t: int|
            j <= t < entries.len() && !has_field(fields, entries[t].0)),
    decreases entries.len() - j,
{
    if j < entries.len() {
        lemma_unknown_keys_from_nonempty(fields, entries, j + 1);
        if !has_field(fields, entries[j].0) {
            assert(j <= j < entries.len() && !has_field(fields, entries[j].0));
        }
    }
}

} // verus!

use vstd::prelude::*;

verus! {

/// A dynamically-typed input value, as the engine sees it: the runtime kinds
/// a host environment can hand over (absent, null, boolean, number, string,
/// indexable sequence, key-value record).
#[derive(Debug, PartialEq)]
pub enum Value {
    Undefined,
    Null,
    Boolean(bool),
    Number(i64),
    String(String),
    Sequence(Vec<Value>),
    Record(Vec<(String, Value)>),
}

/// The mathematical model of a `Value`: strings become character sequences,
/// vectors become `Seq`.
pub enum ValueV {
    Undefined,
    Null,
    Boolean(bool),
    Number(i64),
    String(Seq<char>),
    Sequence(Seq<ValueV>),
    Record(Seq<(Seq<char>, ValueV)>),
}

pub open spec fn view_value(v: Value) -> ValueV
    decreases v,
{
    match v {
        Value::Undefined => ValueV::Undefined,
        Value::Null => ValueV::Null,
        Value::Boolean(b) => ValueV::Boolean(b),
        Value::Number(n) => ValueV::Number(n),
        Value::String(s) => ValueV::String(s@),
        Value::Sequence(es) => ValueV::Sequence(view_values(es@)),
        Value::Record(es) => ValueV::Record(view_entries(es@)),
    }
}

pub open spec fn view_values(es: Seq<Value>) -> Seq<ValueV>
    decreases es,
{
    Seq::new(
        es.len(),
        |i: int|
            if 0 <= i < es.len() {
                view_value(es[i])
            } else {
                ValueV::Undefined
            },
    )
}

pub open spec fn view_entries(es: Seq<(String, Value)>) -> Seq<(Seq<char>, ValueV)>
    decreases es,
{
    Seq::new(
        es.len(),
        |i: int|
            if 0 <= i < es.len() {
                (es[i].0@, view_value(es[i].1))
            } else {
                (Seq::empty(), ValueV::Undefined)
            },
    )
}

impl View for Value {
    type V = ValueV;

    open spec fn view(&self) -> ValueV {
        view_value(*self)
    }
}

/// A fresh value with the same mathematical content as the argument.
#[verifier::loop_isolation(false)]
pub fn clone_value(v: &Value) -> (r: Value)
    ensures
        r@ == v@,
    decreases v,
{
    match v {
        Value::Undefined => Value::Undefined,
        Value::Null => Value::Null,
        Value::Boolean(b) => Value::Boolean(*b),
        Value::Number(n) => Value::Number(*n),
        Value::String(s) => Value::String(s.clone()),
        Value::Sequence(es) => {
            let mut out: Vec<Value> = Vec::new();
            let mut i: usize = 0;
            while i < es.len()
                invariant
                    i <= es.len(),
                    out@.len() == i as int,
                    forall|j: int| 0 <= j < i ==> out@[j]@ == es@[j]@,
                decreases es.len() - i,
            {
                let e = clone_value(&es[i]);
                out.push(e);
                i = i + 1;
            }
            proof {
                let a = Value::Sequence(out);
                let b = *v;
                assert(view_value(a)->Sequence_0 =~= view_value(b)->Sequence_0);
            }
            Value::Sequence(out)
        },
        Value::Record(es) => {
            let mut out: Vec<(String, Value)> = Vec::new();
            let mut i: usize = 0;
            while i < es.len()
                invariant
                    i <= es.len(),
                    out@.len() == i as int,
                    forall|j: int| 0 <= j < i ==> out@[j].0@ == es@[j].0@ && out@[j].1@
                        == es@[j].1@,
                decreases es.len() - i,
            {
                let k = es[i].0.clone();
                let e = clone_value(&es[i].1);
                out.push((k, e));
                i = i + 1;
            }
            proof {
                let a = Value::Record(out);
                let b = *v;
                assert(view_value(a)->Record_0 =~= view_value(b)->Record_0);
            }
            Value::Record(out)
        },
    }
}

impl Clone for Value {
    fn clone(&self) -> (r: Self)
        ensures
            r@ == self@,
    {
        clone_value(self)
    }
}

} // verus!

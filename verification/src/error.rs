use vstd::prelude::*;
use vstd::string::StringExecFns;

verus! {

/// The two classes of validation failure: the value's runtime kind does not
/// match the schema variant (`TypeMismatch`), or the kind matches but a
/// constraint is violated (`InvalidArgument`).
#[derive(Clone, Copy, PartialEq, Eq, Structural, Debug)]
pub enum ErrorKind {
    TypeMismatch,
    InvalidArgument,
}

/// A structured validation failure: its class, and a human-readable reason.
#[derive(Debug)]
pub struct ValidationError {
    pub kind: ErrorKind,
    pub reason: String,
}

pub fn invalid_arg(reason: &str) -> (e: ValidationError)
    ensures
        e.kind == ErrorKind::InvalidArgument,
        e.reason@ == reason@,
{
    ValidationError { kind: ErrorKind::InvalidArgument, reason: reason.to_owned() }
}

/// The single decimal digit `d` as a one-character sequence.
pub open spec fn digit_seq(d: nat) -> Seq<char> {
    if d == 0 {
        "0"@
    } else if d == 1 {
        "1"@
    } else if d == 2 {
        "2"@
    } else if d == 3 {
        "3"@
    } else if d == 4 {
        "4"@
    } else if d == 5 {
        "5"@
    } else if d == 6 {
        "6"@
    } else if d == 7 {
        "7"@
    } else if d == 8 {
        "8"@
    } else {
        "9"@
    }
}

/// The usual decimal rendering of `n`, most significant digit first.
pub open spec fn dec_digits(n: nat) -> Seq<char>
    decreases n,
{
    if n < 10 {
        digit_seq(n)
    } else {
        dec_digits(n / 10) + digit_seq(n % 10)
    }
}

fn push_digit(s: &mut String, d: u64)
    requires
        d < 10,
    ensures
        final(s)@ == old(s)@ + digit_seq(d as nat),
{
    match d {
        0 => s.append("0"),
        1 => s.append("1"),
        2 => s.append("2"),
        3 => s.append("3"),
        4 => s.append("4"),
        5 => s.append("5"),
        6 => s.append("6"),
        7 => s.append("7"),
        8 => s.append("8"),
        _ => s.append("9"),
    }
}

/// Appends the decimal rendering of `n` to `s`.
pub fn push_u64(s: &mut String, n: u64)
    ensures
        final(s)@ == old(s)@ + dec_digits(n as nat),
    decreases n,
{
    if n < 10 {
        push_digit(s, n);
    } else {
        push_u64(s, n / 10);
        push_digit(s, n % 10);
        proof {
            assert(s@ =~= old(s)@ + dec_digits(n as nat));
        }
    }
}

/// The reason used when an exact length constraint is not met, for example
/// `String length (1) does not equal expected length (5)`.
pub fn length_mismatch_reason(kind_name: &str, actual: u64, expected: u64) -> (r: String)
    ensures
        r@ == kind_name@ + " length ("@ + dec_digits(actual as nat)
            + ") does not equal expected length ("@ + dec_digits(expected as nat) + ")"@,
        r@.len() > 0,
{
    let mut s = kind_name.to_owned();
    s.append(" length (");
    push_u64(&mut s, actual);
    s.append(") does not equal expected length (");
    push_u64(&mut s, expected);
    s.append(")");
    proof {
        reveal_strlit(" length (");
    }
    s
}

/// The reason used when a value's runtime kind does not match the schema
/// variant, for example `Boolean expected`.
pub fn expected_reason(kind_name: &str) -> (r: String)
    ensures
        r@ == kind_name@ + " expected"@,
        r@.len() > 0,
{
    let mut s = kind_name.to_owned();
    s.append(" expected");
    proof {
        reveal_strlit(" expected");
    }
    s
}

/// The reason used when a length bound (not an exact length) is violated,
/// for example `String length is lower than minimum`.
pub fn length_bound_reason(kind_name: &str, below: bool) -> (r: String)
    ensures
        r@ == kind_name@ + (if below {
            " length is lower than minimum"@
        } else {
            " length is higher than maximum"@
        }),
        r@.len() > 0,
{
    let mut s = kind_name.to_owned();
    if below {
        s.append(" length is lower than minimum");
        proof {
            reveal_strlit(" length is lower than minimum");
        }
    } else {
        s.append(" length is higher than maximum");
        proof {
            reveal_strlit(" length is higher than maximum");
        }
    }
    s
}

/// The reason used when a boolean does not equal the schema's expected
/// literal.
pub fn boolean_mismatch_reason(expected: bool) -> (r: String)
    ensures
        r@ == "Boolean did not match expected value '"@ + (if expected {
            "true"@
        } else {
            "false"@
        }) + "'"@,
        r@.len() > 0,
{
    let mut s = "Boolean did not match expected value '".to_owned();
    if expected {
        s.append("true");
    } else {
        s.append("false");
    }
    s.append("'");
    proof {
        reveal_strlit("Boolean did not match expected value '");
    }
    s
}

/// The reason used when a required object key is absent from the input.
pub fn missing_key_reason(key: &str) -> (r: String)
    ensures
        r@ == "Object missing required key '"@ + key@ + "'"@,
        r@.len() > 0,
{
    let mut s = "Object missing required key '".to_owned();
    s.append(key);
    s.append("'");
    proof {
        reveal_strlit("Object missing required key '");
    }
    s
}

} // verus!

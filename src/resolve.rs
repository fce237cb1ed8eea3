use vstd::prelude::*;
use vstd::string::StringSliceAdditionalSpecFns;

verus! {

/// A required credential for which no source held a value.
#[derive(Debug, Clone, PartialEq, Eq)]
pub struct MissingValue {
    /// The field, as the user knows it.
    pub field: String,
    /// The environment variable that could have supplied it.
    pub env_var: String,
}

/// The value that a new setting takes: the command line's, else the environment's.
pub open spec fn supplied(param: Option<String>, env: Option<String>) -> Option<String> {
    if param is Some {
        param
    } else {
        env
    }
}

/// The value that a field resolves to: the command line's, else the
/// environment's, else the stored one.
pub open spec fn resolved(param: Option<String>, env: Option<String>, stored: Option<String>) -> Option<String> {
    if param is Some {
        param
    } else if env is Some {
        env
    } else {
        stored
    }
}

/// Value of a setting that is being updated: what the command line gave, else
/// what the environment holds. Stored values are never consulted here.
pub fn option_value(param: Option<String>, env: Option<String>) -> (r: Option<String>)
    ensures
        r == supplied(param, env),
{
    match param {
        Some(val) => Some(val),
        None => env,
    }
}

/// Value of the credential `name`: the command line's `param`, else `env`, the
/// value of the environment variable `env_name`, else the stored `key`. With
/// none of the three the error names the field and the variable.
pub fn resolve_value(name: &str, param: Option<String>, env_name: &str, env: Option<String>, key: Option<String>) -> (r: Result<String, MissingValue>)
    ensures
        resolved(param, env, key) matches Some(v) ==> r == Ok::<String, MissingValue>(v),
        resolved(param, env, key) is None ==> (r matches Err(e) && e.field@ == name@ && e.env_var@ == env_name@),
{
    match param {
        Some(val) => Ok(val),
        None => match env {
            Some(val) => Ok(val),
            None => match key {
                Some(val) => Ok(val),
                None => Err(MissingValue { field: name.to_owned(), env_var: env_name.to_owned() }),
            },
        },
    }
}

/// An ASCII decimal digit.
pub open spec fn is_digit(b: u8) -> bool {
    48 <= b <= 57
}

/// The number that a sequence of decimal digits writes, most significant first.
pub open spec fn digits_value(d: Seq<u8>) -> nat
    decreases d.len(),
{
    if d.len() == 0 {
        0
    } else {
        digits_value(d.drop_last()) * 10 + (d.last() - 48) as nat
    }
}

/// The digits of a decimal number as text: all but a leading `+`.
pub open spec fn digits_of(b: Seq<u8>) -> Seq<u8> {
    if b.len() > 0 && b[0] == 43 {
        b.drop_first()
    } else {
        b
    }
}

/// The id that text writes: one or more decimal digits, after an optional
/// `+`, for a number that fits in `u64`; none otherwise.
pub open spec fn id_of(b: Seq<u8>) -> Option<u64> {
    let d = digits_of(b);
    if d.len() > 0 && (forall|i: int| 0 <= i < d.len() ==> is_digit(#[trigger] d[i])) && digits_value(d)
        <= u64::MAX {
        Some(digits_value(d) as u64)
    } else {
        None
    }
}

/// A longer run of digits never writes a smaller number.
proof fn lemma_digits_prefix_le(d: Seq<u8>, n: int)
    requires
        0 <= n <= d.len(),
        forall|i: int| 0 <= i < d.len() ==> is_digit(#[trigger] d[i]),
    ensures
        digits_value(d.subrange(0, n)) <= digits_value(d),
    decreases d.len(),
{
    if n < d.len() {
        assert(d.drop_last() =~= d.subrange(0, d.len() - 1));
        assert(d.drop_last().subrange(0, n) =~= d.subrange(0, n));
        lemma_digits_prefix_le(d.drop_last(), n);
    } else {
        assert(d.subrange(0, n) =~= d);
    }
}

/// Reads a student or class id given as text, as `u64`'s `FromStr` does: one
/// or more decimal digits after an optional `+`, for a number that fits.
pub fn parse_id(text: &str) -> (r: Option<u64>)
    ensures
        r == id_of(text.spec_bytes()),
{
    let b = text.as_bytes();
    let ghost d = digits_of(b@);
    let start: usize = if b.len() > 0 && b[0] == 43 { 1 } else { 0 };
    if start >= b.len() {
        return None;
    }
    assert(d =~= b@.subrange(start as int, b@.len() as int));
    let mut acc: u64 = 0;
    let mut i: usize = start;
    while i < b.len()
        invariant
            start <= i <= b.len(),
            b@ == text.spec_bytes(),
            d =~= b@.subrange(start as int, b@.len() as int),
            d == digits_of(b@),
            forall|k: int| 0 <= k < i - start ==> is_digit(#[trigger] d[k]),
            acc as nat == digits_value(d.subrange(0, i - start)),
        decreases b.len() - i,
    {
        let c = b[i];
        if c < 48 || c > 57 {
            assert(!is_digit(d[i - start]));
            return None;
        }
        let ghost prefix = d.subrange(0, i - start + 1);
        assert(prefix.drop_last() =~= d.subrange(0, i - start));
        let digit = (c - 48) as u64;
        match acc.checked_mul(10) {
            Some(m) => match m.checked_add(digit) {
                Some(next) => {
                    acc = next;
                },
                None => {
                    proof { lemma_no_fit(d, b@, start as int, i as int) }
                    return None;
                },
            },
            None => {
                proof { lemma_no_fit(d, b@, start as int, i as int) }
                return None;
            },
        }
        i = i + 1;
    }
    assert(d.subrange(0, i - start) =~= d);
    Some(acc)
}

/// Where the digits read so far already write a number beyond `u64`, the text
/// writes no id: either a later byte is no digit, or the whole is larger still.
proof fn lemma_no_fit(d: Seq<u8>, b: Seq<u8>, start: int, i: int)
    requires
        0 <= start <= i < b.len(),
        d =~= b.subrange(start, b.len() as int),
        digits_value(d.subrange(0, i - start + 1)) > u64::MAX,
        forall|k: int| 0 <= k <= i - start ==> is_digit(#[trigger] d[k]),
        d == digits_of(b),
    ensures
        id_of(b) is None,
{
    if forall|k: int| 0 <= k < d.len() ==> is_digit(#[trigger] d[k]) {
        lemma_digits_prefix_le(d, i - start + 1);
    }
}

/// A value given on the command line is used as it is, whatever the environment
/// and the stored configuration hold.
pub proof fn lemma_command_line_wins(param: Option<String>, env: Option<String>, stored: Option<String>)
    requires
        param is Some,
    ensures
        resolved(param, env, stored) == param,
        supplied(param, env) == param,
{
}

/// Without a command-line value, a set environment variable is used, whatever
/// the stored configuration holds.
pub proof fn lemma_environment_before_stored(env: Option<String>, stored: Option<String>)
    requires
        env is Some,
    ensures
        resolved(None, env, stored) == env,
        supplied(None, env) == env,
{
}

/// Without a command-line or environment value the stored value is used; with
/// none of the three the field does not resolve.
pub proof fn lemma_stored_last(stored: Option<String>)
    ensures
        resolved(None, None, stored) == stored,
        resolved(None, None, None) is None,
{
}

} // verus!

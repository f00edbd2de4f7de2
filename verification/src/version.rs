//! The build version of the library.
//!
//! The version accessor returns the same immutable string for the life of
//! the process, in the form `<major>.<minor>.<patch>` with an optional
//! `-<dev>` suffix: three non-empty runs of digits separated by dots, each of
//! at most nineteen digits so that its value fits in 64 bits.

use vstd::prelude::*;

verus! {

/// True for a decimal digit.
pub open spec fn is_digit(c: char) -> bool {
    ('0' as u32) <= (c as u32) && (c as u32) <= ('9' as u32)
}

/// The value of a decimal digit.
pub open spec fn digit_value(c: char) -> nat
    recommends
        is_digit(c),
{
    (c as int - '0' as int) as nat
}

/// True when every character of `s` is a decimal digit.
pub open spec fn all_digits(s: Seq<char>) -> bool {
    forall|i: int| 0 <= i < s.len() ==> is_digit(#[trigger] s[i])
}

/// The value of a run of decimal digits, most significant first.
pub open spec fn digits_value(s: Seq<char>) -> nat
    recommends
        all_digits(s),
    decreases s.len(),
{
    if s.len() == 0 {
        0
    } else {
        digits_value(s.drop_last()) * 10 + digit_value(s.last())
    }
}

/// The first position at or after `from` holding no digit (or the end of
/// `s`): the digit run starting at `from` ends there.
pub open spec fn digits_end(s: Seq<char>, from: int) -> int
    decreases s.len() - from,
{
    if from < 0 || from >= s.len() {
        from
    } else if !is_digit(s[from]) {
        from
    } else {
        digits_end(s, from + 1)
    }
}

/// Ten to the `n`th power.
pub open spec fn pow10(n: nat) -> nat
    decreases n,
{
    if n == 0 {
        1
    } else {
        10 * pow10((n - 1) as nat)
    }
}

/// `pow10` grows with its argument.
proof fn lemma_pow10_monotone(a: nat, b: nat)
    requires
        a <= b,
    ensures
        pow10(a) <= pow10(b),
    decreases b,
{
    if a < b {
        lemma_pow10_monotone(a, (b - 1) as nat);
    }
}

/// The value of nineteen digits fits in 64 bits.
proof fn lemma_pow10_19()
    ensures
        pow10(19) == 10_000_000_000_000_000_000,
{
    reveal_with_fuel(pow10, 21);
}

/// The components of a well-formed version string `<major>.<minor>.<patch>`
/// or `<major>.<minor>.<patch>-<dev>`: three non-empty runs of at most
/// nineteen digits separated by dots, with anything after a dash ignored.
pub open spec fn spec_parse_version(s: Seq<char>) -> Option<(nat, nat, nat)> {
    let e1 = digits_end(s, 0);
    let e2 = digits_end(s, e1 + 1);
    let e3 = digits_end(s, e2 + 1);
    if e1 <= 0 || e1 > 19 {
        None
    } else if e1 >= s.len() || s[e1] != '.' {
        None
    } else if e2 <= e1 + 1 || e2 - (e1 + 1) > 19 {
        None
    } else if e2 >= s.len() || s[e2] != '.' {
        None
    } else if e3 <= e2 + 1 || e3 - (e2 + 1) > 19 {
        None
    } else if e3 < s.len() && s[e3] != '-' {
        None
    } else {
        Some(
            (
                digits_value(s.subrange(0, e1)),
                digits_value(s.subrange(e1 + 1, e2)),
                digits_value(s.subrange(e2 + 1, e3)),
            ),
        )
    }
}

/// Finds the end of the digit run starting at `from`.
fn scan_digits(s: &str, from: usize) -> (end: usize)
    requires
        from as int <= s@.len(),
    ensures
        end == digits_end(s@, from as int),
        from <= end,
        end as int <= s@.len(),
        forall|t: int| from as int <= t < end as int ==> is_digit(#[trigger] s@[t]),
{
    let length = s.unicode_len();
    let mut i = from;
    while i < length
        invariant
            from <= i <= length,
            length == s@.len(),
            digits_end(s@, from as int) == digits_end(s@, i as int),
            forall|t: int| from as int <= t < i as int ==> is_digit(#[trigger] s@[t]),
        decreases length - i,
    {
        let c = s.get_char(i);
        let code = c as u32;
        if code < '0' as u32 || code > '9' as u32 {
            return i;
        }
        i += 1;
    }
    length
}

/// Reads the value of the digit run `s[from..to]`.
fn parse_number(s: &str, from: usize, to: usize) -> (value: u64)
    requires
        from as int <= to as int <= s@.len(),
        to - from <= 19,
        forall|t: int| from as int <= t < to as int ==> is_digit(#[trigger] s@[t]),
    ensures
        value as nat == digits_value(s@.subrange(from as int, to as int)),
{
    let mut value: u64 = 0;
    let mut i = from;
    while i < to
        invariant
            from <= i <= to,
            to as int <= s@.len(),
            to - from <= 19,
            forall|t: int| from as int <= t < to as int ==> is_digit(#[trigger] s@[t]),
            value as nat == digits_value(s@.subrange(from as int, i as int)),
            (value as nat) < pow10((i - from) as nat),
        decreases to - i,
    {
        let c = s.get_char(i);
        let digit = c as u32 - '0' as u32;
        proof {
            lemma_pow10_monotone((i - from + 1) as nat, 19);
            lemma_pow10_19();
            assert(pow10((i - from + 1) as nat) == 10 * pow10((i - from) as nat));
            assert(s@.subrange(from as int, i as int + 1).drop_last() =~= s@.subrange(
                from as int,
                i as int,
            ));
            assert(s@.subrange(from as int, i as int + 1).last() == s@[i as int]);
        }
        value = value * 10 + (digit as u64);
        i += 1;
    }
    proof {
        assert(s@.subrange(from as int, from as int).len() == 0);
    }
    value
}

/// Reads the components of a version string; `None` exactly when the string
/// is not of the documented form.
pub fn parse_version(s: &str) -> (r: Option<(u64, u64, u64)>)
    ensures
        match r {
            Some(v) => spec_parse_version(s@) == Some(((v.0 as nat), (v.1 as nat), (v.2 as nat))),
            None => spec_parse_version(s@) is None,
        },
{
    let length = s.unicode_len();
    let e1 = scan_digits(s, 0);
    if e1 == 0 || e1 > 19 {
        return None;
    }
    if e1 == length || s.get_char(e1) != '.' {
        return None;
    }
    let e2 = scan_digits(s, e1 + 1);
    if e2 == e1 + 1 || e2 - (e1 + 1) > 19 {
        return None;
    }
    if e2 == length || s.get_char(e2) != '.' {
        return None;
    }
    let e3 = scan_digits(s, e2 + 1);
    if e3 == e2 + 1 || e3 - (e2 + 1) > 19 {
        return None;
    }
    if e3 < length && s.get_char(e3) != '-' {
        return None;
    }
    let major = parse_number(s, 0, e1);
    let minor = parse_number(s, e1 + 1, e2);
    let patch = parse_number(s, e2 + 1, e3);
    Some((major, minor, patch))
}

/// The version string of this build.
pub open spec fn spec_version() -> Seq<char> {
    "0.1.0"@
}

/// The version string is well formed: it parses to its three components.
pub proof fn lemma_version_well_formed()
    ensures
        spec_parse_version(spec_version()) == Some((0nat, 1nat, 0nat)),
{
    reveal_strlit("0.1.0");
    let s = spec_version();
    reveal_with_fuel(digits_end, 3);
    assert(digits_end(s, 0) == 1);
    assert(digits_end(s, 2) == 3);
    assert(digits_end(s, 4) == 5);
    reveal_with_fuel(digits_value, 2);
    assert(s.subrange(0, 1) =~= seq!['0']);
    assert(s.subrange(2, 3) =~= seq!['1']);
    assert(s.subrange(4, 5) =~= seq!['0']);
    assert(digits_value(seq!['0']) == 0);
    assert(digits_value(seq!['1']) == 1);
}

/// The version of the library: the same string on every call within one
/// process, and always of the documented form.
pub fn version() -> (r: String)
    ensures
        r@ == spec_version(),
        spec_parse_version(r@) == Some((0nat, 1nat, 0nat)),
{
    proof {
        lemma_version_well_formed();
    }
    "0.1.0".to_owned()
}

} // verus!

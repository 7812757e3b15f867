use vstd::prelude::*;

verus! {

/// A character is a decimal digit.
pub open spec fn is_dec_digit(c: char) -> bool {
    48 <= c as int <= 57
}

/// The numeric value of a decimal digit character.
pub open spec fn digit_val(c: char) -> nat {
    (c as int - 48) as nat
}

/// Every character of the sequence is a decimal digit.
pub open spec fn all_digits(s: Seq<char>) -> bool {
    forall|i: int| 0 <= i < s.len() ==> is_dec_digit(#[trigger] s[i])
}

/// The number a sequence of decimal digits denotes, most significant first.
pub open spec fn dec_value(s: Seq<char>) -> nat
    decreases s.len(),
{
    if s.len() == 0 {
        0
    } else {
        dec_value(s.drop_last()) * 10 + digit_val(s.last())
    }
}

/// The digit character for a value below ten.
pub open spec fn dec_digit_char(d: nat) -> char {
    ((d + 48) as u8) as char
}

/// The decimal digits of a number, without a sign and without leading zeroes
/// (a single zero digit for zero).
pub open spec fn dec_digits(n: nat) -> Seq<char>
    decreases n,
{
    if n < 10 {
        seq![dec_digit_char(n)]
    } else {
        dec_digits(n / 10).push(dec_digit_char(n % 10))
    }
}

/// The decimal form of a possibly negative number: a minus sign before the digits.
pub open spec fn dec_int(v: int) -> Seq<char> {
    if v < 0 {
        seq!['-'] + dec_digits((-v) as nat)
    } else {
        dec_digits(v as nat)
    }
}

/// Relies on String::push from std: appends exactly the one character to the string.
#[verifier::external_body]
pub(crate) fn push_char(s: &mut String, c: char)
    ensures
        final(s)@ == old(s)@ + seq![c],
{
    s.push(c)
}

/// The digit character for a value below ten.
fn dec_digit_char_exec(d: u64) -> (c: char)
    requires
        d < 10,
    ensures
        c == dec_digit_char(d as nat),
{
    ((d + 48) as u8) as char
}

/// Formats a number in decimal.
pub fn u64_to_string(n: u64) -> (r: String)
    ensures
        r@ == dec_digits(n as nat),
    decreases n,
{
    if n < 10 {
        let mut s = String::new();
        push_char(&mut s, dec_digit_char_exec(n));
        assert(s@ =~= dec_digits(n as nat));
        s
    } else {
        let mut s = u64_to_string(n / 10);
        push_char(&mut s, dec_digit_char_exec(n % 10));
        assert(s@ =~= dec_digits(n as nat));
        s
    }
}

/// Formats a signed number in decimal, with a leading minus sign when negative.
pub fn i64_to_string(n: i64) -> (r: String)
    ensures
        r@ == dec_int(n as int),
{
    if n < 0 {
        let magnitude: u64 = ((-(n as i128)) as u64);
        let mut out = String::new();
        push_char(&mut out, '-');
        let digits = u64_to_string(magnitude);
        out.append(digits.as_str());
        assert(out@ =~= dec_int(n as int));
        out
    } else {
        let r = u64_to_string(n as u64);
        assert(r@ =~= dec_int(n as int));
        r
    }
}

/// The character with ASCII uppercase letters mapped to lowercase; all else unchanged.
pub open spec fn lower_char(c: char) -> char {
    if 65 <= c as int <= 90 {
        ((c as int + 32) as u8) as char
    } else {
        c
    }
}

/// The sequence with ASCII uppercase letters mapped to lowercase.
pub open spec fn ascii_lower(s: Seq<char>) -> Seq<char> {
    s.map_values(|c: char| lower_char(c))
}

/// Reads a decimal digit string as a number: anything empty, with a non-digit,
/// or too large for the type is refused.
pub fn parse_u64(s: &str) -> (r: Option<u64>)
    ensures
        s@.len() > 0 && all_digits(s@) && dec_value(s@) <= u64::MAX ==> r == Some(
            dec_value(s@) as u64,
        ),
        !(s@.len() > 0 && all_digits(s@) && dec_value(s@) <= u64::MAX) ==> r is None,
{
    let len = s.unicode_len();
    if len == 0 {
        return None;
    }
    let mut i: usize = 0;
    let mut val: u64 = 0;
    let mut digits_ok = true;
    let mut overflowed = false;
    while i < len && digits_ok
        invariant
            i <= len,
            len == s@.len(),
            digits_ok && !overflowed ==> all_digits(s@.take(i as int)) && val == dec_value(
                s@.take(i as int),
            ),
            digits_ok && overflowed ==> all_digits(s@.take(i as int)) && dec_value(
                s@.take(i as int),
            ) > u64::MAX,
            !digits_ok ==> !all_digits(s@),
        decreases len - i,
    {
        let c = s.get_char(i);
        let u = c as u32;
        proof {
            assert(s@.take(i as int + 1).drop_last() =~= s@.take(i as int));
            assert(s@.take(i as int + 1).last() == s@[i as int]);
        }
        if 48 <= u && u <= 57 {
            let d = (u - 48) as u64;
            if !overflowed {
                let wide: u128 = (val as u128) * 10 + (d as u128);
                if wide > u64::MAX as u128 {
                    overflowed = true;
                } else {
                    val = wide as u64;
                }
            }
        } else {
            assert(!all_digits(s@)) by {
                assert(!(48 <= s@[i as int] as int <= 57));
            }
            digits_ok = false;
        }
        i = i + 1;
    }
    if !digits_ok || overflowed {
        None
    } else {
        assert(s@.take(len as int) =~= s@);
        Some(val)
    }
}

/// Whether one text begins with another.
pub open spec fn has_prefix(s: Seq<char>, prefix: Seq<char>) -> bool {
    s.len() >= prefix.len() && s.take(prefix.len() as int) == prefix
}

/// Tests whether a string begins with the given prefix.
pub fn starts_with(s: &str, prefix: &str) -> (r: bool)
    ensures
        r == has_prefix(s@, prefix@),
{
    let plen = prefix.unicode_len();
    let slen = s.unicode_len();
    if slen < plen {
        return false;
    }
    let mut i: usize = 0;
    while i < plen
        invariant
            i <= plen,
            plen == prefix@.len(),
            slen == s@.len(),
            plen <= slen,
            forall|j: int| 0 <= j < i ==> s@[j] == prefix@[j],
        decreases plen - i,
    {
        if s.get_char(i) != prefix.get_char(i) {
            assert(s@.take(plen as int)[i as int] != prefix@[i as int]);
            return false;
        }
        i = i + 1;
    }
    assert(s@.take(plen as int) =~= prefix@);
    true
}

/// Compares two strings by their characters.
pub fn str_eq(a: &str, b: &str) -> (r: bool)
    ensures
        r == (a@ == b@),
{
    let sa = a.to_owned();
    let sb = b.to_owned();
    sa == sb
}

/// Maps ASCII uppercase letters of a string to lowercase, leaving the rest unchanged.
pub fn ascii_lowercase(s: &str) -> (r: String)
    ensures
        r@ == ascii_lower(s@),
{
    let len = s.unicode_len();
    let mut out = String::new();
    let mut i: usize = 0;
    while i < len
        invariant
            i <= len,
            len == s@.len(),
            out@ =~= ascii_lower(s@.take(i as int)),
        decreases len - i,
    {
        let c = s.get_char(i);
        let u = c as u32;
        let lc: char = if 65 <= u && u <= 90 {
            ((u + 32) as u8) as char
        } else {
            c
        };
        assert(lc == lower_char(s@[i as int]));
        push_char(&mut out, lc);
        assert(out@ =~= ascii_lower(s@.take(i as int + 1)));
        i = i + 1;
    }
    assert(s@.take(len as int) =~= s@);
    out
}

} // verus!

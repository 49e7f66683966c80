//! Character-level helpers shared by the sanitizer and the archive
//! builder: conversions between `&str`, `Vec<char>` and `String`, and
//! decimal rendering of counters for collision suffixes.

use vstd::prelude::*;

verus! {

/// Relies on `String`'s `FromIterator<char>` impl: collecting an
/// iterator of characters yields a string containing exactly those
/// characters, in order.
#[verifier::external_body]
pub fn chars_to_string(v: &Vec<char>) -> (r: String)
    ensures
        r@ == v@,
{
    v.iter().collect()
}

/// Collects the characters of a string slice into a vector.
pub fn str_to_chars(s: &str) -> (v: Vec<char>)
    ensures
        v@ == s@,
{
    let n = s.unicode_len();
    let mut v: Vec<char> = Vec::new();
    for i in 0..n
        invariant
            n == s@.len(),
            v@ == s@.take(i as int),
    {
        v.push(s.get_char(i));
        proof {
            assert(v@ =~= s@.take(i + 1));
        }
    }
    proof {
        assert(s@.take(n as int) =~= s@);
    }
    v
}

/// Appends the characters of `src` to `dst`.
pub fn append_chars(dst: &mut Vec<char>, src: &Vec<char>)
    ensures
        final(dst)@ == old(dst)@ + src@,
{
    let n = src.len();
    for i in 0..n
        invariant
            n == src@.len(),
            dst@ == old(dst)@ + src@.take(i as int),
    {
        dst.push(src[i]);
        proof {
            assert(old(dst)@ + src@.take(i + 1) =~= (old(dst)@ + src@.take(i as int)).push(
                src@[i as int],
            ));
        }
    }
    proof {
        assert(src@.take(n as int) =~= src@);
    }
}

/// Whether the character sequences of `a` and `b` are equal.
pub fn chars_eq(a: &Vec<char>, b: &Vec<char>) -> (r: bool)
    ensures
        r == (a@ == b@),
{
    if a.len() != b.len() {
        proof {
            assert(a@.len() != b@.len());
        }
        return false;
    }
    let n = a.len();
    for i in 0..n
        invariant
            n == a@.len() && n == b@.len(),
            forall|j: int| 0 <= j < i ==> a@[j] == b@[j],
    {
        if a[i] != b[i] {
            return false;
        }
    }
    proof {
        assert(a@ =~= b@);
    }
    true
}

/// The character for a single decimal digit.
pub open spec fn digit_char(d: nat) -> char {
    if d == 0 {
        '0'
    } else if d == 1 {
        '1'
    } else if d == 2 {
        '2'
    } else if d == 3 {
        '3'
    } else if d == 4 {
        '4'
    } else if d == 5 {
        '5'
    } else if d == 6 {
        '6'
    } else if d == 7 {
        '7'
    } else if d == 8 {
        '8'
    } else {
        '9'
    }
}

/// The usual decimal numeral of `n`, most significant digit first,
/// with no leading zeros (except for `n == 0` itself).
pub open spec fn decimal_digits(n: nat) -> Seq<char>
    decreases n,
{
    if n < 10 {
        seq![digit_char(n)]
    } else {
        decimal_digits(n / 10).push(digit_char(n % 10))
    }
}

fn digit_char_exec(d: usize) -> (c: char)
    requires
        d < 10,
    ensures
        c == digit_char(d as nat),
{
    if d == 0 {
        '0'
    } else if d == 1 {
        '1'
    } else if d == 2 {
        '2'
    } else if d == 3 {
        '3'
    } else if d == 4 {
        '4'
    } else if d == 5 {
        '5'
    } else if d == 6 {
        '6'
    } else if d == 7 {
        '7'
    } else if d == 8 {
        '8'
    } else {
        '9'
    }
}

/// Appends the decimal numeral of `n` to `out`.
pub fn append_decimal(out: &mut Vec<char>, n: usize)
    ensures
        final(out)@ == old(out)@ + decimal_digits(n as nat),
    decreases n,
{
    if n < 10 {
        out.push(digit_char_exec(n));
        proof {
            assert(out@ =~= old(out)@ + decimal_digits(n as nat));
        }
    } else {
        append_decimal(out, n / 10);
        out.push(digit_char_exec(n % 10));
        proof {
            assert(out@ =~= old(out)@ + decimal_digits(n as nat));
        }
    }
}

} // verus!

//! Small verified string helpers: equality, decimal parsing, hexadecimal.

use vstd::prelude::*;

verus! {

/// Compares two strings character by character.
pub fn same_text(a: &str, b: &str) -> (r: bool)
    ensures
        r == (a@ == b@),
{
    let n = a.unicode_len();
    if n != b.unicode_len() {
        return false;
    }
    let mut i: usize = 0;
    while i < n
        invariant
            n == a@.len(),
            n == b@.len(),
            i <= n,
            forall|j: int| 0 <= j < i ==> a@[j] == b@[j],
        decreases n - i,
    {
        if a.get_char(i) != b.get_char(i) {
            return false;
        }
        i = i + 1;
    }
    assert(a@ =~= b@);
    true
}


/// An ASCII decimal digit.
pub open spec fn is_digit(c: char) -> bool {
    '0' <= c && c <= '9'
}

pub open spec fn digit_value(c: char) -> int {
    c as int - '0' as int
}

pub open spec fn all_digits(s: Seq<char>) -> bool {
    forall|i: int| 0 <= i < s.len() ==> is_digit(#[trigger] s[i])
}

/// The number that a string of decimal digits denotes.
pub open spec fn decimal_value(s: Seq<char>) -> int
    decreases s.len(),
{
    if s.len() == 0 {
        0
    } else {
        decimal_value(s.drop_last()) * 10 + digit_value(s.last())
    }
}

/// The digits of an unsigned number, after an optional leading `+`.
pub open spec fn unsigned_digits(s: Seq<char>) -> Seq<char> {
    if s.len() > 0 && s[0] == '+' {
        s.drop_first()
    } else {
        s
    }
}

/// What `str::parse::<u32>` gives: an optional `+`, then one or more
/// decimal digits whose value fits in 32 bits.
pub open spec fn parse_u32_spec(s: Seq<char>) -> Option<u32> {
    let d = unsigned_digits(s);
    if d.len() > 0 && all_digits(d) && decimal_value(d) <= u32::MAX {
        Some(decimal_value(d) as u32)
    } else {
        None
    }
}

pub proof fn lemma_decimal_value_nonneg(s: Seq<char>)
    requires
        all_digits(s),
    ensures
        decimal_value(s) >= 0,
    decreases s.len(),
{
    if s.len() > 0 {
        assert(all_digits(s.drop_last()));
        lemma_decimal_value_nonneg(s.drop_last());
    }
}

/// A prefix of a digit string never denotes more than the whole string.
pub proof fn lemma_decimal_prefix_le(s: Seq<char>, k: int)
    requires
        all_digits(s),
        0 <= k <= s.len(),
    ensures
        decimal_value(s.subrange(0, k)) <= decimal_value(s),
    decreases s.len(),
{
    if k < s.len() {
        let t = s.drop_last();
        assert(all_digits(t));
        assert(t.subrange(0, k) =~= s.subrange(0, k));
        lemma_decimal_prefix_le(t, k);
        lemma_decimal_value_nonneg(t);
        assert(is_digit(s[s.len() - 1]));
    } else {
        assert(s.subrange(0, k) =~= s);
    }
}

/// Parses an unsigned decimal number the way `str::parse::<u32>` does.
pub fn parse_u32(s: &str) -> (r: Option<u32>)
    ensures
        r == parse_u32_spec(s@),
{
    let n = s.unicode_len();
    let mut i: usize = 0;
    if n > 0 && s.get_char(0) == '+' {
        i = 1;
    }
    let start = i;
    let ghost d = unsigned_digits(s@);
    assert(d =~= s@.subrange(start as int, n as int));
    if start == n {
        return None;
    }
    let mut value: u64 = 0;
    while i < n
        invariant
            n == s@.len(),
            start <= i <= n,
            d == s@.subrange(start as int, n as int),
            d == unsigned_digits(s@),
            all_digits(d.subrange(0, i - start)),
            value == decimal_value(d.subrange(0, i - start)),
            value <= u32::MAX,
        decreases n - i,
    {
        let c = s.get_char(i);
        let ghost pre = d.subrange(0, i - start);
        let ghost next = d.subrange(0, i + 1 - start);
        assert(next.drop_last() =~= pre);
        assert(d[i - start] == c);
        assert(next.last() == c);
        if c < '0' || c > '9' {
            assert(!is_digit(d[i - start]));
            assert(!all_digits(d));
            return None;
        }
        let digit = (c as u32 - '0' as u32) as u64;
        assert(all_digits(next));
        value = value * 10 + digit;
        assert(value == decimal_value(next));
        if value > u32::MAX as u64 {
            proof {
                let j = i + 1 - start;
                if all_digits(d) {
                    lemma_decimal_prefix_le(d, j);
                    assert(d.subrange(0, j) =~= next);
                }
            }
            return None;
        }
        i = i + 1;
    }
    assert(d.subrange(0, n - start) =~= d);
    Some(value as u32)
}

/// Lowercase hexadecimal digit for a value below 16.
pub open spec fn hex_digit(n: nat) -> char {
    if n < 10 {
        ((n + '0' as nat) as u8) as char
    } else {
        ((n - 10 + 'a' as nat) as u8) as char
    }
}

/// The lowercase hexadecimal numeral of `n`, without leading zeros.
pub open spec fn lower_hex_spec(n: nat) -> Seq<char>
    decreases n,
{
    if n < 16 {
        seq![hex_digit(n)]
    } else {
        lower_hex_spec(n / 16).push(hex_digit(n % 16))
    }
}

/// Relies on std's `LowerHex` for `u64` (`{:x}`): lowercase digits, no prefix,
/// no leading zeros.
#[verifier::external_body]
pub(crate) fn lower_hex(n: u64) -> (r: String)
    ensures
        r@ == lower_hex_spec(n as nat),
{
    format!("{:x}", n)
}

/// The decimal numeral of `n`, without leading zeros.
pub open spec fn decimal_numeral(n: nat) -> Seq<char>
    decreases n,
{
    if n < 10 {
        seq![((n + '0' as nat) as u8) as char]
    } else {
        decimal_numeral(n / 10).push((((n % 10) + '0' as nat) as u8) as char)
    }
}

/// Relies on std's `Display` for `u64`: the decimal numeral.
#[verifier::external_body]
pub(crate) fn decimal_text(n: u64) -> (r: String)
    ensures
        r@ == decimal_numeral(n as nat),
{
    n.to_string()
}

/// Relies on `String::push`: appends one character.
#[verifier::external_body]
pub(crate) fn push_char(s: &mut String, c: char)
    ensures
        final(s)@ == old(s)@.push(c),
{
    s.push(c)
}

} // verus!

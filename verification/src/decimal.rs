//! Decimal numerals as bytes: the form in which a frame header gives the
//! length of the body.

use vstd::prelude::*;

verus! {

/// Whether the byte is an ASCII digit.
pub open spec fn is_digit(byte: u8) -> bool {
    48 <= byte <= 57
}

/// The decimal numeral of `n`, without leading zeros.
pub open spec fn digits(n: nat) -> Seq<u8>
    decreases n,
{
    if n < 10 {
        seq![(48 + n) as u8]
    } else {
        digits(n / 10).push((48 + n % 10) as u8)
    }
}

/// Whether the bytes are a decimal numeral: one digit or more, and nothing
/// else.
pub open spec fn is_numeral(s: Seq<u8>) -> bool {
    s.len() > 0 && forall|i: int| 0 <= i < s.len() ==> is_digit(#[trigger] s[i])
}

/// The number that a sequence of digits denotes. Leading zeros count for
/// nothing.
pub open spec fn value(s: Seq<u8>) -> nat
    decreases s.len(),
{
    if s.len() == 0 {
        0
    } else {
        value(s.drop_last()) * 10 + (s.last() - 48) as nat
    }
}

/// The number that the bytes denote, if they are a numeral of a number that
/// a `usize` holds.
pub open spec fn number(s: Seq<u8>) -> Option<usize> {
    if is_numeral(s) && value(s) <= usize::MAX {
        Some(value(s) as usize)
    } else {
        None
    }
}

/// The numeral of a number is a numeral, and denotes that number.
pub proof fn lemma_digits_denote(n: nat)
    ensures
        is_numeral(digits(n)),
        value(digits(n)) == n,
    decreases n,
{
    if n < 10 {
        let s = digits(n);
        assert(s.drop_last() =~= Seq::<u8>::empty());
        assert(value(s.drop_last()) == 0);
    } else {
        lemma_digits_denote(n / 10);
        let s = digits(n);
        assert(s.drop_last() =~= digits(n / 10));
        assert forall|i: int| 0 <= i < s.len() implies is_digit(#[trigger] s[i]) by {
            if i < s.len() - 1 {
                assert(s[i] == digits(n / 10)[i]);
            }
        }
    }
}

/// A sequence of digits denotes at least what any of its prefixes denotes.
pub proof fn lemma_value_grows(s: Seq<u8>, k: int)
    requires
        0 <= k <= s.len(),
        forall|i: int| 0 <= i < s.len() ==> is_digit(#[trigger] s[i]),
    ensures
        value(s.subrange(0, k)) <= value(s),
    decreases s.len() - k,
{
    if k == s.len() {
        assert(s.subrange(0, k) =~= s);
    } else {
        lemma_value_grows(s, k + 1);
        let longer = s.subrange(0, k + 1);
        assert(longer.drop_last() =~= s.subrange(0, k));
        assert(is_digit(s[k]));
        assert(longer.last() == s[k]);
        assert(value(longer) == value(s.subrange(0, k)) * 10 + (s[k] - 48) as nat);
    }
}

/// Writes `n` as a decimal numeral.
pub fn format_decimal(n: usize) -> (out: Vec<u8>)
    ensures
        out@ == digits(n as nat),
    decreases n,
{
    if n < 10 {
        let digit: u8 = 48 + (n as u8);
        let mut out: Vec<u8> = Vec::new();
        out.push(digit);
        assert(out@ =~= digits(n as nat));
        out
    } else {
        let mut out = format_decimal(n / 10);
        let digit: u8 = 48 + ((n % 10) as u8);
        out.push(digit);
        out
    }
}

/// Reads the bytes of `buf` from `from` up to `to` as a decimal numeral.
/// The result is `None` where they are not one, and where the number does not
/// fit.
pub fn parse_decimal(buf: &[u8], from: usize, to: usize) -> (out: Option<usize>)
    requires
        from <= to <= buf@.len(),
    ensures
        out == number(buf@.subrange(from as int, to as int)),
{
    let ghost s = buf@.subrange(from as int, to as int);
    if from == to {
        return None;
    }
    let mut acc: usize = 0;
    let mut i: usize = from;
    while i < to
        invariant
            from <= i <= to <= buf@.len(),
            s == buf@.subrange(from as int, to as int),
            forall|j: int| 0 <= j < i - from ==> is_digit(#[trigger] s[j]),
            acc == value(s.subrange(0, i - from)),
        decreases to - i,
    {
        let byte: u8 = buf[i];
        assert(byte == s[i - from]);
        if byte < 48 || byte > 57 {
            return None;
        }
        let digit: usize = (byte - 48) as usize;
        let ghost longer = s.subrange(0, i - from + 1);
        assert(longer.drop_last() =~= s.subrange(0, i - from));
        assert(longer.last() == byte);
        assert(value(longer) == acc * 10 + digit);
        if acc > (usize::MAX - digit) / 10 {
            proof {
                assert(value(longer) > usize::MAX) by (nonlinear_arith)
                    requires
                        acc > (usize::MAX - digit) / 10,
                        value(longer) == acc * 10 + digit,
                        0 <= digit <= 9,
                ;
                if is_numeral(s) {
                    lemma_value_grows(s, i - from + 1);
                }
            }
            return None;
        }
        assert(acc * 10 + digit <= usize::MAX) by (nonlinear_arith)
            requires
                acc <= (usize::MAX - digit) / 10,
                0 <= digit <= 9,
        ;
        acc = acc * 10 + digit;
        i = i + 1;
    }
    assert(s.subrange(0, to - from) =~= s);
    Some(acc)
}

} // verus!

//! The configured machine identifier.
//!
//! The machine identifier arrives as the text of an environment-style
//! variable. A well-formed value is an optional leading plus sign
//! followed by one or more ASCII decimal digits, denoting a number no
//! greater than 65535; anything else, including an absent value read as
//! empty text, silently yields the default 0.

use vstd::prelude::*;

verus! {

/// The byte is an ASCII decimal digit.
pub open spec fn spec_is_digit(c: u8) -> bool {
    0x30 <= c && c <= 0x39
}

/// The numeric value of an ASCII decimal digit.
pub open spec fn spec_digit(c: u8) -> int {
    c - 0x30
}

/// Every byte of the sequence is an ASCII decimal digit.
pub open spec fn spec_all_digits(s: Seq<u8>) -> bool {
    forall|i: int| 0 <= i < s.len() ==> spec_is_digit(s[i])
}

/// The number the digit bytes denote, most significant digit first.
pub open spec fn spec_decimal(s: Seq<u8>) -> int
    decreases s.len(),
{
    if s.len() == 0 {
        0
    } else {
        spec_decimal(s.drop_last()) * 10 + spec_digit(s.last())
    }
}

/// The digit portion of the text: everything after an optional leading
/// plus sign.
pub open spec fn spec_digits(s: Seq<u8>) -> Seq<u8> {
    if s.len() > 0 && s[0] == 0x2B {
        s.subrange(1, s.len() as int)
    } else {
        s
    }
}

/// The text parses as an unsigned 16-bit number: at least one digit, all
/// digits, and a value within range.
pub open spec fn spec_parses_u16(s: Seq<u8>) -> bool {
    &&& spec_digits(s).len() > 0
    &&& spec_all_digits(spec_digits(s))
    &&& spec_decimal(spec_digits(s)) <= 0xFFFF
}

/// The machine identifier the text configures: its value where it
/// parses, the default 0 everywhere else.
pub open spec fn spec_machine_id(s: Seq<u8>) -> u16 {
    if spec_parses_u16(s) {
        spec_decimal(spec_digits(s)) as u16
    } else {
        0
    }
}

/// A sequence of digits denotes a nonnegative number.
proof fn lemma_decimal_nonneg(s: Seq<u8>)
    requires
        spec_all_digits(s),
    ensures
        spec_decimal(s) >= 0,
    decreases s.len(),
{
    if s.len() > 0 {
        assert(spec_all_digits(s.drop_last()));
        lemma_decimal_nonneg(s.drop_last());
    }
}

/// Extending a digit string never shrinks the number it denotes: each
/// prefix denotes at most the whole.
proof fn lemma_decimal_prefix_le(s: Seq<u8>, k: int)
    requires
        spec_all_digits(s),
        0 <= k <= s.len(),
    ensures
        spec_decimal(s.take(k)) <= spec_decimal(s),
    decreases s.len() - k,
{
    if k < s.len() {
        assert(spec_all_digits(s.take(k)));
        lemma_decimal_nonneg(s.take(k));
        assert(s.take(k + 1).drop_last() =~= s.take(k));
        assert(s.take(k + 1).last() == s[k]);
        assert(spec_decimal(s.take(k + 1)) == spec_decimal(s.take(k)) * 10 + spec_digit(s[k]));
        lemma_decimal_prefix_le(s, k + 1);
    } else {
        assert(s.take(k) =~= s);
    }
}

/// Reads the machine identifier out of the configured text: the number
/// it denotes as an unsigned 16-bit decimal, or 0 where the text does
/// not parse as one.
pub fn parse_machine_id(s: &[u8]) -> (m: u16)
    ensures
        m == spec_machine_id(s@),
{
    let n: usize = s.len();
    let start: usize = if n > 0 && s[0] == 0x2B { 1 } else { 0 };
    let ghost d: Seq<u8> = spec_digits(s@);
    if start >= n {
        assert(d.len() == 0);
        return 0;
    }
    let mut value: u32 = 0;
    let mut i: usize = start;
    while i < n
        invariant
            start <= i <= n,
            start < n,
            n == s@.len(),
            d == spec_digits(s@),
            d.len() == n - start,
            forall|j: int| 0 <= j < d.len() ==> d[j] == s@[j + start],
            spec_all_digits(d.take(i - start)),
            value == spec_decimal(d.take(i - start)),
            value <= 0xFFFF,
        decreases n - i,
    {
        let c: u8 = s[i];
        if c < 0x30 || c > 0x39 {
            assert(!spec_is_digit(d[i - start]));
            return 0;
        }
        let digit: u32 = (c - 0x30) as u32;
        let next: u32 = value * 10 + digit;
        proof {
            assert(d.take(i - start + 1).drop_last() =~= d.take(i - start));
            assert(d.take(i - start + 1).last() == d[i - start]);
        }
        if next > 0xFFFF {
            proof {
                if spec_all_digits(d) {
                    lemma_decimal_prefix_le(d, i - start + 1);
                }
            }
            return 0;
        }
        value = next;
        i = i + 1;
    }
    assert(d.take(n - start) =~= d);
    value as u16
}

} // verus!

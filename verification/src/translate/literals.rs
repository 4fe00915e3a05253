//! The values of number literals.

use vstd::prelude::*;
use vstd::string::StrSliceExecFns;

verus! {

/// The value of a digit in the given base (10 or 16), if it is one.
pub open spec fn digit_value(c: char, base: nat) -> Option<nat> {
    let code = c as u32;
    if 48 <= code <= 57 {
        Some((code - 48) as nat)
    } else if base == 16 && 97 <= code <= 102 {
        Some((code - 87) as nat)
    } else if base == 16 && 65 <= code <= 70 {
        Some((code - 55) as nat)
    } else {
        None
    }
}

/// The number that a sequence of digits denotes in the given base; `None`
/// if one of the characters is no digit. The empty sequence denotes 0.
pub open spec fn digits_value(s: Seq<char>, base: nat) -> Option<nat>
    decreases s.len(),
{
    if s.len() == 0 {
        Some(0)
    } else {
        match (digits_value(s.drop_last(), base), digit_value(s.last(), base)) {
            (Some(v), Some(d)) => Some(v * base + d),
            _ => None,
        }
    }
}

/// The value of a number literal, if it fits in 64 bits: a non-empty
/// sequence of decimal digits, or `0x` and a non-empty sequence of
/// hexadecimal digits.
pub open spec fn literal_value(s: Seq<char>, hex: bool) -> Option<u64> {
    let digits = if hex {
        s.subrange(2, s.len() as int)
    } else {
        s
    };
    if hex && !(s.len() > 2 && s[0] == '0' && s[1] == 'x') {
        None
    } else if digits.len() == 0 {
        None
    } else {
        match digits_value(digits, if hex { 16 } else { 10 }) {
            Some(v) => if v <= u64::MAX {
                Some(v as u64)
            } else {
                None
            },
            None => None,
        }
    }
}

proof fn lemma_digits_grow(s: Seq<char>, base: nat, n: int)
    requires
        0 <= n <= s.len(),
        base == 10 || base == 16,
        digits_value(s, base) is Some,
    ensures
        digits_value(s.subrange(0, n), base) is Some,
        digits_value(s.subrange(0, n), base)->0 <= digits_value(s, base)->0,
    decreases s.len() - n,
{
    if n == s.len() {
        assert(s.subrange(0, n) =~= s);
    } else {
        let t = s.subrange(0, n + 1);
        assert(t.drop_last() =~= s.subrange(0, n));
        lemma_digits_grow(s, base, n + 1);
        let v = digits_value(s.subrange(0, n), base)->0;
        assert(v * base >= v) by (nonlinear_arith)
            requires
                base >= 1,
                v >= 0,
        ;
    }
}

proof fn lemma_digits_fail(s: Seq<char>, base: nat, n: int)
    requires
        0 <= n <= s.len(),
        digits_value(s.subrange(0, n), base) is None,
    ensures
        digits_value(s, base) is None,
    decreases s.len() - n,
{
    if n == s.len() {
        assert(s.subrange(0, n) =~= s);
    } else {
        let t = s.subrange(0, n + 1);
        assert(t.drop_last() =~= s.subrange(0, n));
        lemma_digits_fail(s, base, n + 1);
    }
}

fn digit_of(c: char, hex: bool) -> (r: Option<u64>)
    ensures
        match r {
            Some(d) => digit_value(c, if hex { 16 } else { 10 }) == Some(d as nat) && d < 16,
            None => digit_value(c, if hex { 16 } else { 10 }) is None,
        },
{
    let code: u32 = c as u32;
    if 48 <= code && code <= 57 {
        Some((code - 48) as u64)
    } else if hex && 97 <= code && code <= 102 {
        Some((code - 87) as u64)
    } else if hex && 65 <= code && code <= 70 {
        Some((code - 55) as u64)
    } else {
        None
    }
}

/// The value of a number literal, if it fits in 64 bits.
pub fn parse_literal(s: &str, hex: bool) -> (r: Option<u64>)
    ensures
        r == literal_value(s@, hex),
{
    let n = s.unicode_len();
    let start: usize = if hex { 2 } else { 0 };
    if hex {
        if n <= 2 {
            return None;
        }
        if s.get_char(0) != '0' || s.get_char(1) != 'x' {
            return None;
        }
    }
    if n <= start {
        return None;
    }
    let ghost digits = s@.subrange(start as int, n as int);
    let ghost base: nat = if hex { 16 } else { 10 };
    let radix: u64 = if hex { 16 } else { 10 };
    let mut value: u64 = 0;
    let mut i: usize = start;
    assert(digits.subrange(0, 0) =~= Seq::empty());
    assert(!hex ==> digits =~= s@);
    while i < n
        invariant
            start <= i <= n,
            n == s@.len(),
            digits == s@.subrange(start as int, n as int),
            base == (if hex { 16nat } else { 10nat }),
            radix == base,
            start == (if hex { 2usize } else { 0usize }),
            hex ==> s@.len() > 2 && s@[0] == '0' && s@[1] == 'x',
            digits.len() > 0,
            !hex ==> digits == s@,
            digits_value(digits.subrange(0, i - start), base) == Some(value as nat),
        decreases n - i,
    {
        let c = s.get_char(i);
        proof {
            let t = digits.subrange(0, i - start + 1);
            assert(t.drop_last() =~= digits.subrange(0, i - start));
            assert(t.last() == s@[i as int]);
        }
        match digit_of(c, hex) {
            None => {
                proof {
                    lemma_digits_fail(digits, base, i - start + 1);
                }
                return None;
            },
            Some(d) => {
                let next = match value.checked_mul(radix) {
                    Some(v) => v.checked_add(d),
                    None => None,
                };
                match next {
                    Some(v) => {
                        value = v;
                    },
                    None => {
                        proof {
                            let t = digits.subrange(0, i - start + 1);
                            assert(digits_value(t, base) == Some(value as nat * base + d as nat));
                            if digits_value(digits, base) is Some {
                                lemma_digits_grow(digits, base, i - start + 1);
                            }
                        }
                        return None;
                    },
                }
            },
        }
        i += 1;
    }
    assert(digits.subrange(0, n - start) =~= digits);
    Some(value)
}

} // verus!

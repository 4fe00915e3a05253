//! Small helpers on strings.

use vstd::prelude::*;

verus! {

/// Whether two string slices hold the same characters.
///
/// Trusted: calls `str::eq` of the standard library, which compares the two
/// slices character by character; the contract states exactly that.
#[verifier::external_body]
pub(crate) fn text_eq(a: &str, b: &str) -> (r: bool)
    ensures
        r == (a@ == b@),
{
    a == b
}

/// An owned copy of a string slice.
pub fn text(s: &str) -> (r: String)
    ensures
        r@ == s@,
{
    String::from_str(s)
}

/// The concatenation of two string slices.
pub fn join2(a: &str, b: &str) -> (r: String)
    ensures
        r@ == a@ + b@,
{
    String::from_str(a).concat(b)
}

/// The concatenation of three string slices.
pub fn join3(a: &str, b: &str, c: &str) -> (r: String)
    ensures
        r@ == a@ + b@ + c@,
{
    String::from_str(a).concat(b).concat(c)
}

/// The decimal digits of a number, most significant first.
pub open spec fn decimal_digits(n: nat) -> Seq<char>
    decreases n,
{
    if n < 10 {
        "0123456789"@.subrange(n as int, n as int + 1)
    } else {
        decimal_digits(n / 10) + "0123456789"@.subrange((n % 10) as int, (n % 10) as int + 1)
    }
}

/// The decimal digits of a number, most significant first.
pub fn decimal_text(n: u64) -> (r: String)
    ensures
        r@ == decimal_digits(n as nat),
    decreases n,
{
    let digits = "0123456789";
    proof {
        reveal_strlit("0123456789");
    }
    if n < 10 {
        String::from_str(digits.substring_char(n as usize, n as usize + 1))
    } else {
        let last = (n % 10) as usize;
        let mut r = decimal_text(n / 10);
        r.append(digits.substring_char(last, last + 1));
        r
    }
}

} // verus!

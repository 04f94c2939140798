//! Text helpers: comparing strings, building messages, lowering case, and the
//! decimal digit renderings that the display rules are stated with.

use vstd::prelude::*;
use vstd::string::*;

verus! {

/// Whether two strings hold the same characters.
pub fn text_eq(a: &str, b: &str) -> (r: bool)
    ensures
        r == (a@ == b@),
{
    let n = a.unicode_len();
    let m = b.unicode_len();
    if n != m {
        return false;
    }
    let mut i: usize = 0;
    while i < n
        invariant
            n == a@.len(),
            m == b@.len(),
            n == m,
            i <= n,
            forall|j: int| 0 <= j < i ==> a@[j] == b@[j],
        decreases n - i,
    {
        if a.get_char(i) != b.get_char(i) {
            return false;
        }
        i = i + 1;
    }
    assert(a@ =~= b@);
    true
}

/// A new string holding the characters of `a` followed by those of `b`.
pub fn concat(a: &str, b: &str) -> (r: String)
    ensures
        r@ == a@ + b@,
{
    let mut s = a.to_owned();
    s.append(b);
    s
}

/// A new string holding `a`, then `b`, then `c`.
pub fn concat3(a: &str, b: &str, c: &str) -> (r: String)
    ensures
        r@ == a@ + b@ + c@,
{
    let mut s = a.to_owned();
    s.append(b);
    s.append(c);
    s
}

/// The lowercase form of a string that is not all ASCII, as the standard
/// library computes it under the Unicode `Lowercase` property.
pub uninterp spec fn unicode_lowercase(s: Seq<char>) -> Seq<char>;

/// Whether every character of a string is ASCII.
pub open spec fn all_ascii(s: Seq<char>) -> bool {
    forall|i: int| 0 <= i < s.len() ==> (#[trigger] s[i] as u32) < 128
}

/// The lowercase form of an ASCII character: `A` to `Z` become `a` to `z`,
/// and every other character stays.
pub open spec fn ascii_lower(c: char) -> char {
    if 65 <= (c as u32) <= 90 {
        ((c as u32) + 32) as char
    } else {
        c
    }
}

/// The lowercase form of a string: on ASCII text each letter `A` to `Z`
/// becomes `a` to `z`; other text follows the Unicode case mapping.
pub open spec fn lowercase(s: Seq<char>) -> Seq<char> {
    if all_ascii(s) {
        s.map_values(|c: char| ascii_lower(c))
    } else {
        unicode_lowercase(s)
    }
}

/// Calls `str::to_lowercase`. The result is a function of the input
/// characters alone; in general which characters it holds is the Unicode
/// case mapping, which is not restated here, but on ASCII text that mapping
/// turns `A` to `Z` into `a` to `z` one for one and leaves the rest.
#[verifier::external_body]
pub(crate) fn to_lowercase(s: &str) -> (r: String)
    ensures
        r@ == lowercase(s@),
        !all_ascii(s@) ==> r@ == unicode_lowercase(s@),
{
    s.to_lowercase()
}

/// The character of the decimal digit `d` (for `d` in `0..=9`).
pub open spec fn digit(d: int) -> char {
    ((48 + d) as u32) as char
}

/// Two decimal digits of `n` (for `n` in `0..=99`), with a leading zero.
pub open spec fn pad2(n: int) -> Seq<char> {
    seq![digit(n / 10), digit(n % 10)]
}

/// Four decimal digits of `n` (for `n` in `0..=9999`), with leading zeros.
pub open spec fn pad4(n: int) -> Seq<char> {
    seq![digit(n / 1000), digit((n / 100) % 10), digit((n / 10) % 10), digit(n % 10)]
}

/// The nine-digit zero-padded decimal rendering of `n` (for `n` in
/// `0..=999_999_999`), most significant digit first.
pub open spec fn nine_digits(n: int) -> Seq<char> {
    Seq::new(9, |i: int| digit((n / pow10(8 - i)) % 10))
}

/// Ten to the power `k`.
pub open spec fn pow10(k: int) -> int
    decreases k,
{
    if k <= 0 {
        1
    } else {
        10 * pow10(k - 1)
    }
}

/// The digits of `s` with trailing `'0'` characters removed.
pub open spec fn trim_trailing_zeros(s: Seq<char>) -> Seq<char>
    decreases s.len(),
{
    if s.len() > 0 && s.last() == '0' {
        trim_trailing_zeros(s.drop_last())
    } else {
        s
    }
}

} // verus!

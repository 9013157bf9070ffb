//! Text helpers. Most of them are contracts for operations on `String` and
//! `str` that the standard library offers without a specification: those
//! are trusted, and the body of each is a single call. The comparison of
//! texts and the decimal rendering of numbers are verified.

use vstd::prelude::*;
use vstd::utf8::decode_utf8;
use vstd::utf8::valid_utf8;

verus! {

/// The text that `String::from_utf8_lossy` produces for a byte sequence:
/// the decoded characters, with U+FFFD standing in for every malformed part.
pub uninterp spec fn utf8_lossy_text(bytes: Seq<u8>) -> Seq<char>;

/// The Unicode lowercase form of a text, as `str::to_lowercase` computes it.
pub uninterp spec fn lowercase_text(text: Seq<char>) -> Seq<char>;

/// The characters of a text that may be absent.
pub open spec fn text_of(text: Option<String>) -> Option<Seq<char>> {
    match text {
        Some(t) => Some(t@),
        None => None,
    }
}

/// `String::push`: appends one character to the end of the string.
#[verifier::external_body]
pub(crate) fn push_char(s: &mut String, c: char)
    ensures
        final(s)@ == old(s)@.push(c),
{
    s.push(c)
}

/// `String::pop`: removes the last character and returns it, or returns
/// `None` and leaves the string alone when it is empty.
#[verifier::external_body]
pub(crate) fn pop_char(s: &mut String) -> (r: Option<char>)
    ensures
        old(s)@.len() == 0 ==> r is None && final(s)@ == old(s)@,
        old(s)@.len() > 0 ==> r == Some(old(s)@.last()) && final(s)@ == old(s)@.drop_last(),
{
    s.pop()
}

/// `String::from_utf8_lossy`: decodes bytes as UTF-8 and never fails. Well
/// formed input decodes to exactly its characters; for anything else the
/// result is only named.
#[verifier::external_body]
pub(crate) fn decode_lossy(bytes: &[u8]) -> (s: String)
    ensures
        s@ == utf8_lossy_text(bytes@),
        valid_utf8(bytes@) ==> s@ == decode_utf8(bytes@),
{
    String::from_utf8_lossy(bytes).into_owned()
}

/// `str::to_lowercase`: the lowercase form of the whole text.
#[verifier::external_body]
pub(crate) fn to_lowercase(s: &str) -> (r: String)
    ensures
        r@ == lowercase_text(s@),
{
    s.to_lowercase()
}

/// Whether two texts are the same sequence of characters.
pub(crate) fn same_text(a: &str, b: &str) -> (r: bool)
    ensures
        r == (a@ == b@),
{
    a.to_owned() == b.to_owned()
}

/// The decimal digit for a value below 10.
pub open spec fn decimal_digit(n: nat) -> char {
    (48 + n) as u8 as char
}

/// A number written in decimal, without sign and without leading zeros.
pub open spec fn spec_decimal(n: nat) -> Seq<char>
    decreases n,
{
    if n < 10 {
        seq![decimal_digit(n)]
    } else {
        spec_decimal(n / 10).push(decimal_digit(n % 10))
    }
}

spec fn leading_part(n: nat) -> Seq<char> {
    if n == 0 {
        Seq::empty()
    } else {
        spec_decimal(n)
    }
}

/// Writes a number in decimal.
pub fn decimal_text(n: usize) -> (text: String)
    ensures
        text@ == spec_decimal(n as nat),
{
    let mut low_first: Vec<char> = Vec::new();
    low_first.push((48u8 + (n % 10) as u8) as char);
    let mut rest = n / 10;
    assert(spec_decimal(n as nat) =~= leading_part(rest as nat) + low_first@.reverse());
    while rest > 0
        invariant
            spec_decimal(n as nat) == leading_part(rest as nat) + low_first@.reverse(),
        decreases rest,
    {
        let ghost before = low_first@;
        low_first.push((48u8 + (rest % 10) as u8) as char);
        assert(leading_part(rest as nat) =~= leading_part((rest / 10) as nat) + seq![
            decimal_digit((rest % 10) as nat),
        ]);
        assert(low_first@.reverse() =~= seq![decimal_digit((rest % 10) as nat)]
            + before.reverse());
        rest = rest / 10;
    }
    let mut text = String::new();
    let mut i = low_first.len();
    while i > 0
        invariant
            i <= low_first@.len(),
            text@ == low_first@.reverse().subrange(0, low_first@.len() - i),
        decreases i,
    {
        i -= 1;
        push_char(&mut text, low_first[i]);
        assert(text@ =~= low_first@.reverse().subrange(0, low_first@.len() - i));
    }
    assert(low_first@.reverse().subrange(0, low_first@.len() as int) =~= low_first@.reverse());
    text
}

} // verus!

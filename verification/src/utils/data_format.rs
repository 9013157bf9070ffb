//! Conversions between raw bytes, their hexadecimal rendering and text.

use vstd::prelude::*;
use vstd::string::StrSliceExecFns;
use vstd::string::StringExecFns;
use vstd::string::StringSliceAdditionalSpecFns;

use crate::utils::text::decode_lossy;
use crate::utils::text::push_char;
use crate::utils::text::utf8_lossy_text;

verus! {

/// The upper-case hexadecimal digit for a value below 16.
pub open spec fn hex_digit(n: int) -> char {
    if n < 10 {
        (48 + n) as u8 as char
    } else {
        (55 + n) as u8 as char
    }
}

/// The value of a hexadecimal digit in either case; `None` for any other
/// character.
pub open spec fn hex_value(c: char) -> Option<int> {
    if '0' <= c <= '9' {
        Some(c as int - '0' as int)
    } else if 'a' <= c <= 'f' {
        Some(c as int - 'a' as int + 10)
    } else if 'A' <= c <= 'F' {
        Some(c as int - 'A' as int + 10)
    } else {
        None
    }
}

/// The two digits that render one byte, high nibble first.
pub open spec fn hex_pair(b: u8) -> Seq<char> {
    seq![hex_digit(b as int / 16), hex_digit(b as int % 16)]
}

/// The rendering of a byte sequence: two upper-case digits per byte, the
/// bytes separated by single spaces.
pub open spec fn spec_bytes_to_hex(bytes: Seq<u8>) -> Seq<char>
    decreases bytes.len(),
{
    if bytes.len() == 0 {
        Seq::empty()
    } else if bytes.len() == 1 {
        hex_pair(bytes[0])
    } else {
        spec_bytes_to_hex(bytes.drop_last()) + seq![' '] + hex_pair(bytes.last())
    }
}

/// A text with every space character taken out.
pub open spec fn without_spaces(s: Seq<char>) -> Seq<char> {
    s.filter(|c: char| c != ' ')
}

/// Whether the `k`-th pair of characters of `t` is two hexadecimal digits.
pub open spec fn pair_is_hex(t: Seq<char>, k: int) -> bool {
    hex_value(t[2 * k]) is Some && hex_value(t[2 * k + 1]) is Some
}

/// The byte that the `k`-th pair of digits of `t` stands for.
pub open spec fn pair_value(t: Seq<char>, k: int) -> u8 {
    (16 * hex_value(t[2 * k]).unwrap() + hex_value(t[2 * k + 1]).unwrap()) as u8
}

/// Whether `t` is an even number of hexadecimal digits and nothing else.
pub open spec fn is_hex_digits(t: Seq<char>) -> bool {
    &&& t.len() % 2 == 0
    &&& forall|k: int| 0 <= k < t.len() / 2 ==> pair_is_hex(t, k)
}

/// Whether pair `k` is the first pair of `t` that is not two digits.
pub open spec fn is_first_bad_pair(t: Seq<char>, k: int) -> bool {
    &&& 0 <= k < t.len() / 2
    &&& !pair_is_hex(t, k)
    &&& forall|j: int| 0 <= j < k ==> pair_is_hex(t, j)
}

/// The first pair of `t` that is not two digits.
pub open spec fn first_bad_pair(t: Seq<char>) -> int {
    choose|k: int| is_first_bad_pair(t, k)
}

/// Why a text is not read as hexadecimal: what is left without the spaces
/// is of odd length, or else it has a first pair that is not two digits,
/// and the message names that pair.
pub open spec fn spec_hex_error(s: Seq<char>) -> Seq<char> {
    let t = without_spaces(s);
    if t.len() % 2 != 0 {
        "Invalid hex string length"@
    } else {
        "Invalid hex characters: "@ + t.subrange(2 * first_bad_pair(t), 2 * first_bad_pair(t) + 2)
    }
}

/// The bytes that a text of hexadecimal digits stands for, spaces ignored;
/// `None` when what is left without the spaces is of odd length or holds
/// anything but digits.
pub open spec fn spec_hex_to_bytes(s: Seq<char>) -> Option<Seq<u8>> {
    let t = without_spaces(s);
    if is_hex_digits(t) {
        Some(Seq::new((t.len() / 2) as nat, |k: int| pair_value(t, k)))
    } else {
        None
    }
}

/// The digits of a byte sequence with nothing between them: what is left of
/// its rendering once the spaces are gone.
pub open spec fn hex_digits_of(bytes: Seq<u8>) -> Seq<char> {
    Seq::new(
        2 * bytes.len(),
        |i: int|
            if i % 2 == 0 {
                hex_digit(bytes[i / 2] as int / 16)
            } else {
                hex_digit(bytes[i / 2] as int % 16)
            },
    )
}

proof fn lemma_digit_value(n: int)
    requires
        0 <= n < 16,
    ensures
        hex_value(hex_digit(n)) == Some(n),
        hex_digit(n) != ' ',
{
}

proof fn lemma_rendering_without_spaces(bytes: Seq<u8>)
    ensures
        without_spaces(spec_bytes_to_hex(bytes)) == hex_digits_of(bytes),
    decreases bytes.len(),
{
    reveal_with_fuel(Seq::filter, 4);
    let keep = |c: char| c != ' ';
    if bytes.len() == 0 {
        assert(hex_digits_of(bytes) =~= Seq::<char>::empty());
    } else {
        let last = bytes.last();
        lemma_digit_value(last as int / 16);
        lemma_digit_value(last as int % 16);
        assert(hex_pair(last).filter(keep) =~= hex_pair(last));
        if bytes.len() == 1 {
            assert(hex_digits_of(bytes) =~= hex_pair(last));
        } else {
            let front = bytes.drop_last();
            lemma_rendering_without_spaces(front);
            let head = spec_bytes_to_hex(front);
            Seq::filter_distributes_over_add(head + seq![' '], hex_pair(last), keep);
            Seq::filter_distributes_over_add(head, seq![' '], keep);
            assert(seq![' '].filter(keep) =~= Seq::<char>::empty());
            assert(hex_digits_of(bytes) =~= hex_digits_of(front) + hex_pair(last));
        }
    }
}

/// Reading back the rendering of any byte sequence gives exactly that
/// sequence: nothing is lost, added or reordered, whatever the bytes are and
/// however many there are (none included).
pub proof fn lemma_hex_round_trip(bytes: Seq<u8>)
    ensures
        spec_hex_to_bytes(spec_bytes_to_hex(bytes)) == Some(bytes),
{
    lemma_rendering_without_spaces(bytes);
    let t = hex_digits_of(bytes);
    assert forall|k: int| 0 <= k < t.len() / 2 implies pair_is_hex(t, k) && pair_value(t, k)
        == bytes[k] by {
        lemma_digit_value(bytes[k] as int / 16);
        lemma_digit_value(bytes[k] as int % 16);
    }
    assert(Seq::new((t.len() / 2) as nat, |k: int| pair_value(t, k)) =~= bytes);
}

fn digit_char(n: u8) -> (c: char)
    requires
        n < 16,
    ensures
        c == hex_digit(n as int),
{
    if n < 10 {
        (48u8 + n) as char
    } else {
        (55u8 + n) as char
    }
}

fn digit_value(c: char) -> (r: Option<u8>)
    ensures
        r is Some == hex_value(c) is Some,
        r is Some ==> r.unwrap() as int == hex_value(c).unwrap() && r.unwrap() < 16,
{
    let v = c as u32;
    if 48 <= v && v <= 57 {
        Some((v - 48) as u8)
    } else if 97 <= v && v <= 102 {
        Some((v - 97 + 10) as u8)
    } else if 65 <= v && v <= 70 {
        Some((v - 65 + 10) as u8)
    } else {
        None
    }
}

/// Renders bytes as upper-case hexadecimal, two digits per byte, with one
/// space between bytes: `[0x01, 0xAB]` becomes `01 AB`.
pub fn bytes_to_hex(bytes: &[u8]) -> (hex: String)
    ensures
        hex@ == spec_bytes_to_hex(bytes@),
        spec_hex_to_bytes(hex@) == Some(bytes@),
{
    proof {
        lemma_hex_round_trip(bytes@);
    }
    let mut hex = String::new();
    let mut i: usize = 0;
    while i < bytes.len()
        invariant
            i <= bytes.len(),
            hex@ == spec_bytes_to_hex(bytes@.take(i as int)),
        decreases bytes.len() - i,
    {
        let b = bytes[i];
        proof {
            assert(bytes@.take(i + 1).drop_last() == bytes@.take(i as int));
            assert(bytes@.take(i + 1).last() == b);
        }
        if i > 0 {
            push_char(&mut hex, ' ');
        }
        push_char(&mut hex, digit_char(b / 16));
        push_char(&mut hex, digit_char(b % 16));
        i += 1;
    }
    proof {
        assert(bytes@.take(bytes@.len() as int) == bytes@);
    }
    hex
}

fn strip_spaces(s: &str) -> (out: Vec<char>)
    ensures
        out@ == without_spaces(s@),
{
    let mut out: Vec<char> = Vec::new();
    for c in it: s.chars()
        invariant
            it.seq() == s@,
            out@ == without_spaces(s@.take(it.index() as int)),
    {
        proof {
            reveal(Seq::filter);
            assert(s@.take(it.index() + 1).drop_last() == s@.take(it.index() as int));
        }
        if c != ' ' {
            out.push(c);
        }
    }
    proof {
        assert(s@.take(s@.len() as int) == s@);
    }
    out
}

/// Reads hexadecimal text back into bytes. Spaces are ignored wherever they
/// stand; digits may be in either case. Text that is left with an odd number
/// of characters, or with a pair that is not two digits, is rejected with a
/// message and never cut short.
pub fn hex_to_bytes(hex_str: &str) -> (r: Result<Vec<u8>, String>)
    ensures
        match r {
            Ok(bytes) => spec_hex_to_bytes(hex_str@) == Some(bytes@),
            Err(message) => spec_hex_to_bytes(hex_str@) is None && message@ == spec_hex_error(
                hex_str@,
            ),
        },
{
    let digits = strip_spaces(hex_str);
    let ghost t = digits@;
    if digits.len() % 2 != 0 {
        return Err(String::from_str("Invalid hex string length"));
    }
    let pairs = digits.len() / 2;
    let mut bytes: Vec<u8> = Vec::new();
    let mut k: usize = 0;
    while k < pairs
        invariant
            digits@ == t,
            t == without_spaces(hex_str@),
            digits.len() == 2 * pairs,
            k <= pairs,
            bytes@.len() == k,
            forall|j: int| 0 <= j < k ==> pair_is_hex(t, j),
            forall|j: int| 0 <= j < k ==> bytes@[j] == pair_value(t, j),
        decreases pairs - k,
    {
        let high = digits[2 * k];
        let low = digits[2 * k + 1];
        match (digit_value(high), digit_value(low)) {
            (Some(h), Some(l)) => {
                bytes.push(16 * h + l);
            },
            _ => {
                let mut message = String::from_str("Invalid hex characters: ");
                push_char(&mut message, high);
                push_char(&mut message, low);
                proof {
                    assert(!pair_is_hex(t, k as int));
                    assert(!is_hex_digits(t));
                    assert(is_first_bad_pair(t, k as int));
                    let first = first_bad_pair(t);
                    assert(is_first_bad_pair(t, first));
                    assert(first == k) by {
                        if first < k {
                            assert(pair_is_hex(t, first));
                        }
                        if k < first {
                            assert(pair_is_hex(t, k as int));
                        }
                    }
                    assert(t.subrange(2 * k, 2 * k + 2) == seq![high, low]);
                    assert(message@ == "Invalid hex characters: "@ + seq![high, low]);
                }
                return Err(message);
            },
        }
        k += 1;
    }
    proof {
        assert(is_hex_digits(t));
        assert(bytes@ == Seq::new((t.len() / 2) as nat, |j: int| pair_value(t, j)));
    }
    Ok(bytes)
}

/// The UTF-8 bytes of a text.
pub fn string_to_bytes(s: &str) -> (bytes: Vec<u8>)
    ensures
        bytes@ == s.spec_bytes(),
{
    s.as_bytes_vec()
}

/// Decodes bytes as UTF-8 text. Well-formed input gives back exactly its
/// characters; each malformed part is replaced by U+FFFD.
pub fn bytes_to_string(bytes: &[u8]) -> (s: String)
    ensures
        s@ == utf8_lossy_text(bytes@),
        vstd::utf8::valid_utf8(bytes@) ==> s@ == vstd::utf8::decode_utf8(bytes@),
{
    decode_lossy(bytes)
}

#[verifier::external_type_specification]
#[verifier::external_body]
pub struct ExJsonValue(serde_json::Value);

#[verifier::external_type_specification]
#[verifier::external_body]
pub struct ExJsonError(serde_json::Error);

/// The document that `serde_json::from_str` reads from a text; `None` where
/// it reports an error.
pub uninterp spec fn json_document(text: Seq<char>) -> Option<serde_json::Value>;

/// The indented text that `serde_json::to_string_pretty` writes for a
/// document; `None` where it reports an error.
pub uninterp spec fn json_pretty_text(document: serde_json::Value) -> Option<Seq<char>>;

/// `serde_json::from_str` at type `serde_json::Value`: the parsed document,
/// or the parser's error. The result depends on the text alone.
#[verifier::external_body]
fn parse_json(text: &str) -> (r: Result<serde_json::Value, serde_json::Error>)
    ensures
        r is Ok == json_document(text@) is Some,
        r is Ok ==> Some(r.unwrap()) == json_document(text@),
{
    serde_json::from_str::<serde_json::Value>(text)
}

/// `serde_json::to_string_pretty` on a document: its indented text, or the
/// serializer's error. The result depends on the document alone.
#[verifier::external_body]
fn pretty_json(document: &serde_json::Value) -> (r: Result<String, serde_json::Error>)
    ensures
        r is Ok == json_pretty_text(*document) is Some,
        r is Ok ==> Some(r.unwrap()@) == json_pretty_text(*document),
{
    serde_json::to_string_pretty(document)
}

/// What `format_json` returns for a text, given what parsing it gave and
/// what writing the parsed document gave.
pub open spec fn spec_format_json(text: Seq<char>) -> Seq<char> {
    match json_document(text) {
        Some(document) => match json_pretty_text(document) {
            Some(pretty) => pretty,
            None => text,
        },
        None => text,
    }
}

/// The formatted text where there is one, the text as it was given otherwise.
pub fn formatted_or_given(pretty: Option<String>, given: &str) -> (out: String)
    ensures
        out@ == match pretty {
            Some(p) => p@,
            None => given@,
        },
{
    match pretty {
        Some(p) => p,
        None => String::from_str(given),
    }
}

/// Re-indents a JSON text. A text that is not JSON, or that cannot be
/// written back, is returned as it came.
pub fn format_json(json_str: &str) -> (out: String)
    ensures
        out@ == spec_format_json(json_str@),
{
    match parse_json(json_str) {
        Ok(document) => match pretty_json(&document) {
            Ok(pretty) => formatted_or_given(Some(pretty), json_str),
            Err(_) => formatted_or_given(None, json_str),
        },
        Err(_) => formatted_or_given(None, json_str),
    }
}

} // verus!

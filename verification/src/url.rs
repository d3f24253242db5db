//! Filters that percent-encode a string for a URL and decode it again.

use vstd::prelude::*;
use vstd::string::StringExecFns;
use vstd::utf8::{
    decode_utf8, encode_utf8, encode_utf8_decode_utf8, encode_utf8_valid_utf8, is_ascii_chars,
    is_ascii_chars_encode_utf8, valid_utf8,
};
use crate::error::{noted, Error, ErrorModel, TraceModel};
use crate::filter_chain::Filter;
use crate::runtime::{Bindings, Scope};
use crate::scalar::{Scalar, ScalarModel};
use crate::shared::SharedValueView;
use crate::text::{chars_of, string_from_utf8};
use crate::value::{rendered, Value, ValueModel};
use crate::view::ValueView;

verus! {

/// Whether a byte stands for itself in an encoded string: the ASCII letters and
/// digits, and `-`, `.` and `_`.
pub open spec fn is_unreserved(b: u8) -> bool {
    (0x30 <= b <= 0x39) || (0x41 <= b <= 0x5a) || (0x61 <= b <= 0x7a) || b == 0x2d || b == 0x2e
        || b == 0x5f
}

/// The hexadecimal digit of a number below sixteen, in upper case.
pub open spec fn hex_digit(n: int) -> char {
    if 0 <= n < 10 {
        ((0x30 + n) as u8) as char
    } else {
        ((0x41 + n - 10) as u8) as char
    }
}

/// A byte as a percent sign and its two hexadecimal digits.
pub open spec fn percent_triplet(b: u8) -> Seq<char> {
    seq!['%', hex_digit(b as int / 16), hex_digit(b as int % 16)]
}

/// One byte in an encoded string.
pub open spec fn encoded_byte(b: u8) -> Seq<char> {
    if is_unreserved(b) {
        seq![b as char]
    } else {
        percent_triplet(b)
    }
}

/// The bytes, each as itself where it is unreserved and as its triplet where not.
pub open spec fn percent_encoded(bytes: Seq<u8>) -> Seq<char>
    decreases bytes.len(),
{
    if bytes.len() == 0 {
        Seq::empty()
    } else {
        percent_encoded(bytes.drop_last()) + encoded_byte(bytes.last())
    }
}

/// The number that a hexadecimal digit stands for, in either case.
pub open spec fn hex_value(b: u8) -> Option<int> {
    if 0x30 <= b <= 0x39 {
        Some(b - 0x30)
    } else if 0x41 <= b <= 0x46 {
        Some(b - 0x41 + 10)
    } else if 0x61 <= b <= 0x66 {
        Some(b - 0x61 + 10)
    } else {
        None
    }
}

/// The bytes with every percent sign that two hexadecimal digits follow replaced,
/// together with them, by the byte that the digits denote. Every other byte, a
/// percent sign without two such digits too, stays.
pub open spec fn percent_decoded(bytes: Seq<u8>) -> Seq<u8>
    decreases bytes.len(),
{
    if bytes.len() == 0 {
        Seq::empty()
    } else if bytes[0] == 0x25 && bytes.len() >= 3 && hex_value(bytes[1]) is Some && hex_value(
        bytes[2],
    ) is Some {
        seq![(hex_value(bytes[1])->0 * 16 + hex_value(bytes[2])->0) as u8] + percent_decoded(
            bytes.skip(3),
        )
    } else {
        seq![bytes[0]] + percent_decoded(bytes.skip(1))
    }
}

/// The text with every plus sign replaced by a space.
pub open spec fn plus_as_space(s: Seq<char>) -> Seq<char> {
    Seq::new(s.len(), |i: int| if s[i] == '+' { ' ' } else { s[i] })
}

/// `percent_encoding::percent_encode_byte`: the three characters that encode the
/// byte, a percent sign and two upper-case hexadecimal digits.
#[verifier::external_body]
fn encode_byte(b: u8) -> (out: &'static str)
    ensures
        out@ == percent_triplet(b),
{
    percent_encoding::percent_encode_byte(b)
}

/// `percent_encoding::percent_decode`, collected: the input with every well-formed
/// triplet replaced by its byte.
#[verifier::external_body]
fn decode_bytes(input: &[u8]) -> (out: Vec<u8>)
    ensures
        out@ == percent_decoded(input@),
{
    percent_encoding::percent_decode(input).collect()
}

/// What `url_encode` makes of a value: nothing of nothing, and of anything else
/// the string of its text, encoded as UTF-8 and then byte by byte.
pub open spec fn url_encoded(m: ValueModel) -> ValueModel {
    if m is Nil {
        ValueModel::Nil
    } else {
        ValueModel::Scalar(ScalarModel::Str(percent_encoded(encode_utf8(rendered(m)))))
    }
}

/// The error of an input that a filter cannot take, with its cause.
pub open spec fn invalid_input_model(cause: Seq<char>) -> ErrorModel {
    noted(
        ErrorModel {
            msg: "Invalid input"@,
            frames: seq![TraceModel { label: None, context: Seq::empty() }],
        },
        "cause"@,
        cause,
    )
}

/// What `url_decode` makes of a value: nothing of nothing; of anything else its
/// text with plus signs turned to spaces and triplets to bytes, read as UTF-8.
/// Bytes that are no UTF-8 are an invalid input.
pub open spec fn url_decoded(m: ValueModel) -> Result<ValueModel, ErrorModel> {
    if m is Nil {
        Ok(ValueModel::Nil)
    } else {
        let bytes = percent_decoded(encode_utf8(plus_as_space(rendered(m))));
        if valid_utf8(bytes) {
            Ok(ValueModel::Scalar(ScalarModel::Str(decode_utf8(bytes))))
        } else {
            Err(invalid_input_model("Malformed UTF-8"@))
        }
    }
}

/// The bytes of a text of ASCII characters, one for each character.
pub open spec fn ascii_bytes(text: Seq<char>) -> Seq<u8> {
    Seq::new(text.len(), |i: int| text[i] as u8)
}

proof fn lemma_hex_digit(n: int)
    requires
        0 <= n < 16,
    ensures
        hex_value(hex_digit(n) as u8) == Some(n),
        '\0' <= hex_digit(n) <= '\u{7f}',
        hex_digit(n) != '+',
{
    if n < 10 {
        assert(hex_digit(n) as u8 == 0x30 + n);
    } else {
        assert(hex_digit(n) as u8 == 0x41 + n - 10);
    }
}

proof fn lemma_encoded_byte(b: u8)
    ensures
        is_unreserved(b) ==> encoded_byte(b).len() == 1 && encoded_byte(b)[0] as u8 == b,
        !is_unreserved(b) ==> encoded_byte(b).len() == 3 && encoded_byte(b)[0] as u8 == 0x25
            && hex_value(encoded_byte(b)[1] as u8) == Some(b as int / 16) && hex_value(
            encoded_byte(b)[2] as u8,
        ) == Some(b as int % 16),
        forall|i: int|
            0 <= i < encoded_byte(b).len() ==> '\0' <= #[trigger] encoded_byte(b)[i] <= '\u{7f}'
                && encoded_byte(b)[i] != '+',
{
    lemma_hex_digit(b as int / 16);
    lemma_hex_digit(b as int % 16);
    if is_unreserved(b) {
        assert((b as char) as u8 == b);
    } else {
        assert('%' as u8 == 0x25);
    }
}

proof fn lemma_encoded_front(x: u8, rest: Seq<u8>)
    ensures
        percent_encoded(seq![x] + rest) == encoded_byte(x) + percent_encoded(rest),
    decreases rest.len(),
{
    let whole = seq![x] + rest;
    if rest.len() == 0 {
        assert(whole.drop_last() =~= Seq::<u8>::empty());
        assert(percent_encoded(whole.drop_last()) =~= Seq::<char>::empty());
        assert(percent_encoded(whole) =~= encoded_byte(x) + percent_encoded(rest));
    } else {
        lemma_encoded_front(x, rest.drop_last());
        assert(whole.drop_last() =~= seq![x] + rest.drop_last());
        assert(whole.last() == rest.last());
        assert(percent_encoded(whole) =~= encoded_byte(x) + percent_encoded(rest));
    }
}

proof fn lemma_encoded_is_plain(bytes: Seq<u8>)
    ensures
        forall|i: int|
            0 <= i < percent_encoded(bytes).len() ==> '\0' <= #[trigger] percent_encoded(bytes)[i]
                <= '\u{7f}' && percent_encoded(bytes)[i] != '+',
    decreases bytes.len(),
{
    if bytes.len() > 0 {
        lemma_encoded_is_plain(bytes.drop_last());
        lemma_encoded_byte(bytes.last());
        let head = percent_encoded(bytes.drop_last());
        let tail = encoded_byte(bytes.last());
        assert forall|i: int| 0 <= i < percent_encoded(bytes).len() implies '\0'
            <= #[trigger] percent_encoded(bytes)[i] <= '\u{7f}' && percent_encoded(bytes)[i]
            != '+' by {
            if i < head.len() {
                assert(percent_encoded(bytes)[i] == head[i]);
            } else {
                assert(percent_encoded(bytes)[i] == tail[i - head.len()]);
            }
        }
    }
}

proof fn lemma_decoded_encoded(bytes: Seq<u8>)
    ensures
        percent_decoded(ascii_bytes(percent_encoded(bytes))) == bytes,
    decreases bytes.len(),
{
    if bytes.len() == 0 {
        assert(ascii_bytes(percent_encoded(bytes)) =~= Seq::<u8>::empty());
    } else {
        let x = bytes[0];
        let rest = bytes.drop_first();
        assert(bytes =~= seq![x] + rest);
        lemma_encoded_front(x, rest);
        lemma_encoded_byte(x);
        lemma_decoded_encoded(rest);
        let head = encoded_byte(x);
        let all = ascii_bytes(percent_encoded(bytes));
        let tail = ascii_bytes(percent_encoded(rest));
        assert(all =~= ascii_bytes(head) + tail);
        if is_unreserved(x) {
            assert(all[0] == x);
            assert(all.skip(1) =~= tail);
            assert(percent_decoded(all) =~= seq![x] + percent_decoded(tail));
        } else {
            assert(all[0] == 0x25);
            assert(all[1] == head[1] as u8);
            assert(all[2] == head[2] as u8);
            assert(all.skip(3) =~= tail);
            assert((x as int / 16 * 16 + x as int % 16) as u8 == x);
            assert(percent_decoded(all) =~= seq![x] + percent_decoded(tail));
        }
    }
}

/// Decoding undoes encoding: whatever `url_encode` makes of a value, `url_decode`
/// makes of that the string of the value's text again, and nothing of nothing.
pub proof fn lemma_decode_undoes_encode(m: ValueModel)
    ensures
        url_decoded(url_encoded(m)) == Ok::<ValueModel, ErrorModel>(
            if m is Nil {
                ValueModel::Nil
            } else {
                ValueModel::Scalar(ScalarModel::Str(rendered(m)))
            },
        ),
{
    if !(m is Nil) {
        let bytes = encode_utf8(rendered(m));
        let text = percent_encoded(bytes);
        lemma_encoded_is_plain(bytes);
        lemma_decoded_encoded(bytes);
        assert(rendered(url_encoded(m)) == text);
        assert(plus_as_space(text) =~= text);
        assert(is_ascii_chars(text));
        is_ascii_chars_encode_utf8(text);
        assert(encode_utf8(text) =~= ascii_bytes(text));
        encode_utf8_valid_utf8(rendered(m));
        encode_utf8_decode_utf8(rendered(m));
    }
}

/// The error of an input that a filter cannot take.
pub fn invalid_input(cause: &str) -> (out: Error)
    ensures
        out@ == invalid_input_model(cause@),
{
    Error::with_msg("Invalid input").context("cause", cause)
}

/// Percent-encodes the UTF-8 bytes of `s`, leaving the unreserved ones as they are.
pub fn percent_encode(s: &str) -> (out: String)
    ensures
        out@ == percent_encoded(encode_utf8(s@)),
{
    let bytes = s.as_bytes();
    let mut out = String::new();
    let mut i: usize = 0;
    while i < bytes.len()
        invariant
            i <= bytes.len(),
            bytes@ == encode_utf8(s@),
            out@ == percent_encoded(bytes@.take(i as int)),
        decreases bytes.len() - i,
    {
        let b = bytes[i];
        proof {
            assert(bytes@.take(i + 1).drop_last() == bytes@.take(i as int));
        }
        if (0x30 <= b && b <= 0x39) || (0x41 <= b && b <= 0x5a) || (0x61 <= b && b <= 0x7a) || b
            == 0x2d || b == 0x2e || b == 0x5f {
            out.push(b as char);
        } else {
            out.append(encode_byte(b));
        }
        i += 1;
    }
    assert(bytes@.take(i as int) == bytes@);
    out
}

/// Replaces every plus sign of `s` by a space.
pub fn plus_to_space(s: &str) -> (out: String)
    ensures
        out@ == plus_as_space(s@),
{
    let chars = chars_of(s);
    let mut out = String::new();
    let mut i: usize = 0;
    while i < chars.len()
        invariant
            i <= chars.len(),
            chars@ == s@,
            out@ == plus_as_space(s@).take(i as int),
        decreases chars.len() - i,
    {
        let c = chars[i];
        if c == '+' {
            out.push(' ');
        } else {
            out.push(c);
        }
        assert(out@ =~= plus_as_space(s@).take(i + 1));
        i += 1;
    }
    assert(plus_as_space(s@).take(i as int) =~= plus_as_space(s@));
    out
}

/// The filter `url_encode`: converts the URL-unsafe characters of a string into
/// percent-encoded characters.
#[derive(Clone, Copy, Debug)]
pub struct UrlEncode;

impl Filter for UrlEncode {
    open spec fn shown(&self) -> Seq<char> {
        "url_encode"@
    }

    open spec fn applied(&self, input: ValueModel, bindings: Bindings) -> Result<
        ValueModel,
        ErrorModel,
    > {
        Ok(url_encoded(input))
    }

    fn to_string(&self) -> (out: String) {
        String::from_str("url_encode")
    }

    fn evaluate<'s>(&'s self, input: SharedValueView<'s>, runtime: &'s Scope<'_>) -> (out: Result<
        SharedValueView<'s>,
        Error,
    >) {
        if input.is_nil() {
            return Ok(SharedValueView::from_value(Value::Nil));
        }
        let s = input.to_kstr();
        let result = percent_encode(s.as_str());
        Ok(SharedValueView::from_value(Value::scalar(Scalar::Str(result))))
    }
}

/// The filter `url_decode`: decodes a string that was encoded as a URL.
#[derive(Clone, Copy, Debug)]
pub struct UrlDecode;

impl Filter for UrlDecode {
    open spec fn shown(&self) -> Seq<char> {
        "url_decode"@
    }

    open spec fn applied(&self, input: ValueModel, bindings: Bindings) -> Result<
        ValueModel,
        ErrorModel,
    > {
        url_decoded(input)
    }

    fn to_string(&self) -> (out: String) {
        String::from_str("url_decode")
    }

    fn evaluate<'s>(&'s self, input: SharedValueView<'s>, runtime: &'s Scope<'_>) -> (out: Result<
        SharedValueView<'s>,
        Error,
    >) {
        if input.is_nil() {
            return Ok(SharedValueView::from_value(Value::Nil));
        }
        let s = plus_to_space(input.to_kstr().as_str());
        match string_from_utf8(decode_bytes(s.as_str().as_bytes())) {
            Some(result) => Ok(SharedValueView::from_value(Value::scalar(Scalar::Str(result)))),
            None => Err(invalid_input("Malformed UTF-8")),
        }
    }
}

} // verus!

//! Percent-encoding of a document, and the inline address made from it.

use vstd::prelude::*;
use vstd::string::*;
use vstd::utf8::*;
use crate::text::digit;

verus! {

/// The bytes that percent-encoding leaves as they are: the ASCII letters and digits, and
/// `-`, `.`, `_` and `~`.
pub open spec fn unreserved(byte: u8) -> bool {
    ||| 0x30 <= byte <= 0x39
    ||| 0x41 <= byte <= 0x5a
    ||| 0x61 <= byte <= 0x7a
    ||| byte == 0x2d
    ||| byte == 0x2e
    ||| byte == 0x5f
    ||| byte == 0x7e
}

/// The character that writes `d` as one hexadecimal digit, in upper case.
pub open spec fn hex_digit(d: nat) -> char {
    if d < 10 {
        digit(d)
    } else if d == 10 {
        'A'
    } else if d == 11 {
        'B'
    } else if d == 12 {
        'C'
    } else if d == 13 {
        'D'
    } else if d == 14 {
        'E'
    } else {
        'F'
    }
}

/// One byte, percent-encoded: itself where it is unreserved, else `%` and its two
/// hexadecimal digits.
pub open spec fn encoded_byte(byte: u8) -> Seq<char> {
    if unreserved(byte) {
        seq![byte as char]
    } else {
        seq!['%', hex_digit((byte / 16) as nat), hex_digit((byte % 16) as nat)]
    }
}

/// The percent-encoding of `bytes`: each byte encoded, in order.
pub open spec fn percent_encoded(bytes: Seq<u8>) -> Seq<char>
    decreases bytes.len(),
{
    if bytes.len() == 0 {
        Seq::empty()
    } else {
        percent_encoded(bytes.drop_last()) + encoded_byte(bytes.last())
    }
}

/// Opens every inline address of an HTML document: the scheme and the media type.
pub const DATA_URI_OPEN: &'static str = "data:text/html,";

/// The inline address of an HTML document: the scheme and media type, then the document's
/// UTF-8 bytes percent-encoded.
pub open spec fn data_uri_of(document: Seq<char>) -> Seq<char> {
    DATA_URI_OPEN@ + percent_encoded(encode_utf8(document))
}

/// A character that percent-encoding puts out: `%`, an ASCII letter or digit, or one of
/// `-`, `.`, `_` and `~`.
pub open spec fn is_plain(c: char) -> bool {
    ||| c == '%'
    ||| '0' <= c <= '9'
    ||| 'A' <= c <= 'Z'
    ||| 'a' <= c <= 'z'
    ||| c == '-'
    ||| c == '.'
    ||| c == '_'
    ||| c == '~'
}

/// Whatever the bytes, their percent-encoding is made of plain characters only: no quote,
/// no space and nothing outside ASCII is left in it.
pub proof fn lemma_percent_encoded_is_plain(bytes: Seq<u8>)
    ensures
        forall|i: int|
            0 <= i < percent_encoded(bytes).len() ==> is_plain(#[trigger] percent_encoded(bytes)[i]),
    decreases bytes.len(),
{
    if bytes.len() > 0 {
        lemma_percent_encoded_is_plain(bytes.drop_last());
        let front = percent_encoded(bytes.drop_last());
        let last = encoded_byte(bytes.last());
        assert forall|k: int| 0 <= k < last.len() implies is_plain(#[trigger] last[k]) by {}
        assert forall|i: int| 0 <= i < percent_encoded(bytes).len() implies is_plain(
            #[trigger] percent_encoded(bytes)[i],
        ) by {
            if i < front.len() {
                assert(percent_encoded(bytes)[i] == front[i]);
            } else {
                assert(percent_encoded(bytes)[i] == last[i - front.len()]);
            }
        }
    }
}

/// `urlencoding::encode`: percent-encodes every byte of the text's UTF-8 form but the
/// ASCII letters and digits and `-`, `_`, `.`, `~`, writing each other byte as `%` and two
/// upper-case hexadecimal digits.
#[verifier::external_body]
pub(crate) fn percent_encode(text: &str) -> (out: String)
    ensures
        out@ == percent_encoded(encode_utf8(text@)),
{
    urlencoding::encode(text)
}

/// The inline address that shows `document` as an HTML page.
pub fn data_uri(document: &str) -> (uri: String)
    ensures
        uri@ == data_uri_of(document@),
{
    let mut uri = String::from_str(DATA_URI_OPEN);
    let encoded = percent_encode(document);
    uri.append(encoded.as_str());
    uri
}

} // verus!

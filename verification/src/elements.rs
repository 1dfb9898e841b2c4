//! Percent-encoding of the values of a document, as query parameters carry them.

use vstd::prelude::*;
use vstd::string::*;
use vstd::utf8::encode_utf8;
use crate::document::{field_map, Document};

verus! {

/// What percent-decoding makes of a text: each `%` with two hexadecimal
/// digits behind it becomes the byte they write, and the bytes are read as
/// UTF-8, with U+FFFD in place of what is no UTF-8.
pub uninterp spec fn percent_decoded(text: Seq<char>) -> Seq<char>;

/// Percent-decodes a text.
///
/// Calls `percent_decode_str` of the crate `percent-encoding` and reads its
/// result with `decode_utf8_lossy`. The result depends on the text alone; the
/// contract gives it its name and claims nothing more of it.
#[verifier::external_body]
pub(crate) fn percent_decode(text: &str) -> (r: String)
    ensures
        r@ == percent_decoded(text@),
{
    percent_encoding::percent_decode_str(text).decode_utf8_lossy().into_owned()
}

/// The bytes that a form leaves as they are: letters, digits, `*`, `-`, `.` and `_`.
pub open spec fn is_unchanged_byte(b: u8) -> bool {
    b == 0x2a || b == 0x2d || b == 0x2e || (0x30 <= b && b <= 0x39) || (0x41 <= b && b <= 0x5a)
        || b == 0x5f || (0x61 <= b && b <= 0x7a)
}

/// The hexadecimal digit for a number below sixteen, in upper case.
pub open spec fn hex_digit(n: u8) -> char {
    if n < 10 {
        (0x30 + n) as u8 as char
    } else {
        (0x41 + (n - 10)) as u8 as char
    }
}

/// What a form writes for a byte: the byte itself, `+` for a space, or `%`
/// and the two hexadecimal digits of the byte.
pub open spec fn serialized_byte(b: u8) -> Seq<char> {
    if is_unchanged_byte(b) {
        seq![b as char]
    } else if b == 0x20 {
        seq!['+']
    } else {
        seq!['%', hex_digit(b / 16), hex_digit(b % 16)]
    }
}

/// What a form writes for a run of bytes.
pub open spec fn serialized_bytes(bytes: Seq<u8>) -> Seq<char>
    decreases bytes.len(),
{
    if bytes.len() == 0 {
        Seq::empty()
    } else {
        serialized_bytes(bytes.drop_last()) + serialized_byte(bytes.last())
    }
}

/// What a form writes for a text: its UTF-8 bytes, serialized one by one.
pub open spec fn form_urlencoded(text: Seq<char>) -> Seq<char> {
    serialized_bytes(encode_utf8(text))
}

/// Encodes a text as a form does.
///
/// Calls `form_urlencoded::byte_serialize` of the crate `url` on the bytes of
/// the text and joins the pieces it gives. That function leaves letters,
/// digits, `*`, `-`, `.` and `_` as they are, writes `+` for a space, and for
/// every other byte `%` and its two upper-case hexadecimal digits.
#[verifier::external_body]
pub(crate) fn form_urlencode(text: &str) -> (r: String)
    ensures
        r@ == form_urlencoded(text@),
{
    url::form_urlencoded::byte_serialize(text.as_bytes()).collect()
}

/// Percent-decoding as a mapping of values.
pub open spec fn decoder() -> spec_fn(Seq<char>) -> Seq<char> {
    |v: Seq<char>| percent_decoded(v)
}

/// Form encoding as a mapping of values.
pub open spec fn encoder() -> spec_fn(Seq<char>) -> Seq<char> {
    |v: Seq<char>| form_urlencoded(v)
}

/// Decodes the percent-encoded values of a document. The names stay.
pub fn decode_elements(value: &mut Document)
    ensures
        final(value)@ == old(value)@.map_values(decoder()),
{
    let mut out = Document::new();
    {
        let fields = value.fields();
        let mut i: usize = 0;
        assert(fields@.take(0) =~= Seq::empty());
        assert(out@ =~= field_map(fields@.take(0)).map_values(decoder()));
        while i < fields.len()
            invariant
                i <= fields@.len(),
                out@ == field_map(fields@.take(i as int)).map_values(decoder()),
            decreases fields@.len() - i,
        {
            let field = &fields[i];
            proof {
                assert(fields@.take(i + 1).drop_last() =~= fields@.take(i as int));
                assert(fields@.take(i + 1).last() == fields@[i as int]);
                assert(field_map(fields@.take(i + 1)).map_values(decoder()) =~= field_map(
                    fields@.take(i as int),
                ).map_values(decoder()).insert(field.name@, decoder()(field.value@)));
            }
            out.insert(field.name.clone(), percent_decode(field.value.as_str()));
            i = i + 1;
        }
        assert(fields@.take(fields@.len() as int) =~= fields@);
    }
    *value = out;
}

/// Encodes the values of a document as a form does. The names stay.
pub fn encode_elements(value: &mut Document)
    ensures
        final(value)@ == old(value)@.map_values(encoder()),
{
    let mut out = Document::new();
    {
        let fields = value.fields();
        let mut i: usize = 0;
        assert(fields@.take(0) =~= Seq::empty());
        assert(out@ =~= field_map(fields@.take(0)).map_values(encoder()));
        while i < fields.len()
            invariant
                i <= fields@.len(),
                out@ == field_map(fields@.take(i as int)).map_values(encoder()),
            decreases fields@.len() - i,
        {
            let field = &fields[i];
            proof {
                assert(fields@.take(i + 1).drop_last() =~= fields@.take(i as int));
                assert(fields@.take(i + 1).last() == fields@[i as int]);
                assert(field_map(fields@.take(i + 1)).map_values(encoder()) =~= field_map(
                    fields@.take(i as int),
                ).map_values(encoder()).insert(field.name@, encoder()(field.value@)));
            }
            out.insert(field.name.clone(), form_urlencode(field.value.as_str()));
            i = i + 1;
        }
        assert(fields@.take(fields@.len() as int) =~= fields@);
    }
    *value = out;
}

} // verus!

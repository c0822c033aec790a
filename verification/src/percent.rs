//! Percent-encoding of form field values (`application/x-www-form-urlencoded`).

use vstd::prelude::*;
use vstd::utf8::*;

verus! {

/// Characters that stand for themselves in a form field value: ASCII letters
/// and digits, and `-`, `_`, `.`, `~`.
pub open spec fn is_unreserved_char(c: char) -> bool {
    ||| 'A' <= c <= 'Z'
    ||| 'a' <= c <= 'z'
    ||| '0' <= c <= '9'
    ||| c == '-'
    ||| c == '_'
    ||| c == '.'
    ||| c == '~'
}

/// Bytes that are the code of an unreserved character.
pub open spec fn is_unreserved(b: u8) -> bool {
    is_unreserved_char(b as char)
}

/// Text that is made of unreserved characters only.
pub open spec fn all_unreserved(text: Seq<char>) -> bool {
    forall|i: int| 0 <= i < text.len() ==> is_unreserved_char(#[trigger] text[i])
}

/// The upper-case hexadecimal digit of a value below 16.
pub open spec fn hex_digit(n: u8) -> char {
    if n < 10 {
        ('0' as u8 + n) as char
    } else {
        ('A' as u8 + (n - 10)) as char
    }
}

/// How one byte is written: as itself when unreserved, else as `%` and two
/// upper-case hexadecimal digits.
pub open spec fn encoded_byte(b: u8) -> Seq<char> {
    if is_unreserved(b) {
        seq![b as char]
    } else {
        seq!['%', hex_digit((b / 16) as u8), hex_digit((b % 16) as u8)]
    }
}

/// The percent-encoding of a byte string: each byte in turn.
pub open spec fn percent_encoded(bytes: Seq<u8>) -> Seq<char>
    decreases bytes.len(),
{
    if bytes.len() == 0 {
        seq![]
    } else {
        encoded_byte(bytes[0]) + percent_encoded(bytes.drop_first())
    }
}

/// Gives the standard library's `String::push` its documented meaning: the
/// character is appended to the end of the string.
pub assume_specification[ String::push ](s: &mut String, c: char)
    ensures
        final(s)@ == old(s)@.push(c),
;

fn is_form_unreserved(b: u8) -> (r: bool)
    ensures
        r == is_unreserved(b),
{
    let c = b as char;
    ('A' <= c && c <= 'Z') || ('a' <= c && c <= 'z') || ('0' <= c && c <= '9') || c == '-' || c
        == '_' || c == '.' || c == '~'
}

fn to_hex_digit(n: u8) -> (c: char)
    requires
        n < 16,
    ensures
        c == hex_digit(n),
{
    if n < 10 {
        ('0' as u8 + n) as char
    } else {
        ('A' as u8 + (n - 10)) as char
    }
}

/// Percent-encodes a form field value (`application/x-www-form-urlencoded`).
pub fn percent_encode(value: &str) -> (out: String)
    ensures
        out@ == percent_encoded(encode_utf8(value@)),
{
    let mut out = String::new();
    let bytes = value.as_bytes();
    let n: usize = bytes.len();
    let mut i: usize = 0;
    assert(bytes@.skip(0) =~= bytes@);
    while i < n
        invariant
            i <= n,
            n == bytes@.len(),
            out@ + percent_encoded(bytes@.skip(i as int)) == percent_encoded(bytes@),
        decreases n - i,
    {
        let b: u8 = bytes[i];
        let ghost before = out@;
        if is_form_unreserved(b) {
            out.push(b as char);
        } else {
            out.push('%');
            out.push(to_hex_digit(b / 16));
            out.push(to_hex_digit(b % 16));
        }
        proof {
            let rest = bytes@.skip(i as int);
            assert(rest.drop_first() =~= bytes@.skip(i + 1));
            assert(out@ =~= before + encoded_byte(b));
            assert(out@ + percent_encoded(rest.drop_first()) =~= before + percent_encoded(rest));
        }
        i = i + 1;
    }
    assert(out@ =~= out@ + percent_encoded(bytes@.skip(n as int)));
    out
}

/// The value of an upper- or lower-case hexadecimal digit.
pub open spec fn hex_value(c: char) -> Option<int> {
    if '0' <= c <= '9' {
        Some(c as int - '0' as int)
    } else if 'A' <= c <= 'F' {
        Some(c as int - 'A' as int + 10)
    } else if 'a' <= c <= 'f' {
        Some(c as int - 'a' as int + 10)
    } else {
        None
    }
}

/// What a reader of form data makes of an encoded value: `%` and two
/// hexadecimal digits are one byte, `+` is a space, any other ASCII character
/// is its own byte.
pub open spec fn percent_decoded(text: Seq<char>) -> Option<Seq<u8>>
    decreases text.len(),
{
    if text.len() == 0 {
        Some(seq![])
    } else if text[0] == '%' {
        if text.len() < 3 {
            None
        } else {
            match (hex_value(text[1]), hex_value(text[2]), percent_decoded(text.skip(3))) {
                (Some(high), Some(low), Some(rest)) => Some(seq![(16 * high + low) as u8] + rest),
                _ => None,
            }
        }
    } else if (text[0] as u32) < 0x80 {
        match percent_decoded(text.drop_first()) {
            Some(rest) => Some(
                seq![
                    if text[0] == '+' {
                        0x20u8
                    } else {
                        text[0] as u8
                    },
                ] + rest,
            ),
            None => None,
        }
    } else {
        None
    }
}

/// Decoding gives back the bytes that were encoded, whatever they are.
pub proof fn law_percent_decoding_inverts_encoding(bytes: Seq<u8>)
    ensures
        percent_decoded(percent_encoded(bytes)) == Some(bytes),
    decreases bytes.len(),
{
    let text = percent_encoded(bytes);
    if bytes.len() > 0 {
        let b = bytes[0];
        let rest = percent_encoded(bytes.drop_first());
        law_percent_decoding_inverts_encoding(bytes.drop_first());
        assert(seq![b] + bytes.drop_first() =~= bytes);
        if is_unreserved(b) {
            assert(text[0] == b as char);
            assert(text.drop_first() =~= rest);
        } else {
            assert(text[0] == '%');
            assert(text[1] == hex_digit((b / 16) as u8));
            assert(text[2] == hex_digit((b % 16) as u8));
            assert(text.skip(3) =~= rest);
        }
    }
}

/// Two values with the same encoding are the same value.
pub proof fn law_percent_encoding_is_injective(a: Seq<char>, b: Seq<char>)
    requires
        percent_encoded(encode_utf8(a)) == percent_encoded(encode_utf8(b)),
    ensures
        a == b,
{
    law_percent_decoding_inverts_encoding(encode_utf8(a));
    law_percent_decoding_inverts_encoding(encode_utf8(b));
    encode_utf8_decode_utf8(a);
    encode_utf8_decode_utf8(b);
}

/// An encoded value holds unreserved characters and `%` only, so neither `&`
/// nor `=`, which separate form fields, and no space or control character.
pub proof fn law_percent_encoding_is_form_safe(bytes: Seq<u8>)
    ensures
        forall|i: int|
            0 <= i < percent_encoded(bytes).len() ==> {
                let c = #[trigger] percent_encoded(bytes)[i];
                &&& is_unreserved_char(c) || c == '%'
                &&& c != '&'
                &&& c != '='
            },
    decreases bytes.len(),
{
    if bytes.len() > 0 {
        let head = encoded_byte(bytes[0]);
        let rest = percent_encoded(bytes.drop_first());
        law_percent_encoding_is_form_safe(bytes.drop_first());
        assert forall|i: int| 0 <= i < percent_encoded(bytes).len() implies {
            let c = #[trigger] percent_encoded(bytes)[i];
            is_unreserved_char(c) || c == '%'
        } by {
            if i < head.len() {
                assert(percent_encoded(bytes)[i] == head[i]);
            } else {
                assert(percent_encoded(bytes)[i] == rest[i - head.len()]);
            }
        }
    }
}

/// Text of unreserved characters is its own encoding.
pub proof fn law_percent_encoding_keeps_unreserved(text: Seq<char>)
    requires
        all_unreserved(text),
    ensures
        percent_encoded(encode_utf8(text)) == text,
    decreases text.len(),
{
    let bytes = encode_utf8(text);
    if text.len() > 0 {
        let c = text[0];
        assert(is_unreserved_char(c));
        assert(bytes[0] == c as u8 && bytes.drop_first() == encode_utf8(text.drop_first())) by {
            let v = c as u32;
            assert((v & 0x7f) as u8 == v as u8) by (bit_vector)
                requires
                    v < 0x80,
            ;
            assert(bytes.drop_first() =~= encode_utf8(text.drop_first()));
        }
        assert(all_unreserved(text.drop_first())) by {
            assert forall|i: int| 0 <= i < text.drop_first().len() implies is_unreserved_char(
                #[trigger] text.drop_first()[i],
            ) by {
                assert(text.drop_first()[i] == text[i + 1]);
            }
        }
        law_percent_encoding_keeps_unreserved(text.drop_first());
        assert(percent_encoded(bytes) =~= text);
    }
}

/// One byte is kept where it is the code of an ASCII letter, an ASCII digit or
/// one of `-`, `_`, `.`, `~`. Any other becomes `%` and two digits, each out of
/// `0` to `9` and `A` to `F`, that spell its value in base sixteen.
pub proof fn law_percent_encoding_of_one_byte(b: u8)
    ensures
        ({
            let c = b as char;
            let text = percent_encoded(seq![b]);
            if 'A' <= c <= 'Z' || 'a' <= c <= 'z' || '0' <= c <= '9' || c == '-' || c == '_' || c
                == '.' || c == '~' {
                text == seq![c]
            } else {
                &&& text.len() == 3
                &&& text[0] == '%'
                &&& '0' <= text[1] <= '9' || 'A' <= text[1] <= 'F'
                &&& '0' <= text[2] <= '9' || 'A' <= text[2] <= 'F'
                &&& b == 16 * (if text[1] <= '9' {
                    text[1] as int - '0' as int
                } else {
                    text[1] as int - 'A' as int + 10
                }) + (if text[2] <= '9' {
                    text[2] as int - '0' as int
                } else {
                    text[2] as int - 'A' as int + 10
                })
            }
        }),
{
    assert(seq![b].drop_first() =~= Seq::<u8>::empty());
    assert(percent_encoded(Seq::<u8>::empty()) =~= Seq::<char>::empty());
    assert(percent_encoded(seq![b]) =~= encoded_byte(b));
}

/// Each byte is encoded on its own: the encoding of a concatenation is the
/// concatenation of the encodings, and nothing is encoded as nothing.
pub proof fn law_percent_encoding_of_concatenation(a: Seq<u8>, b: Seq<u8>)
    ensures
        percent_encoded(a + b) == percent_encoded(a) + percent_encoded(b),
        percent_encoded(Seq::<u8>::empty()).len() == 0,
    decreases a.len(),
{
    if a.len() == 0 {
        assert(a + b =~= b);
        assert(percent_encoded(a) + percent_encoded(b) =~= percent_encoded(b));
    } else {
        law_percent_encoding_of_concatenation(a.drop_first(), b);
        assert((a + b).drop_first() =~= a.drop_first() + b);
        assert(percent_encoded(a + b) =~= percent_encoded(a) + percent_encoded(b));
    }
}

} // verus!

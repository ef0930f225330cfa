//! Percent-encoding of resource names for use in URL paths.

use vstd::prelude::*;
use vstd::string::*;

verus! {

/// The bytes that are escaped besides the non-ASCII ones.
#[derive(Clone, Copy, Debug, PartialEq, Eq, Structural)]
pub enum EscapeClass {
    /// Controls and the reserved delimiters `!#$&'()*+,:;=?@[]`; `/` is kept.
    Normal,
    /// As `Normal`, and `/` as well: the name stays one path segment.
    Slash,
    /// Everything but ASCII letters, digits and `*-._`.
    Component,
}

/// The sixteen upper-case hexadecimal digits.
pub open spec fn hex_digits() -> Seq<char> {
    seq!['0', '1', '2', '3', '4', '5', '6', '7', '8', '9', 'A', 'B', 'C', 'D', 'E', 'F']
}

/// `%` followed by the two upper-case hexadecimal digits of `byte`.
pub open spec fn escaped(byte: u8) -> Seq<char> {
    seq!['%', hex_digits()[byte as int / 16], hex_digits()[byte as int % 16]]
}

/// C0 controls and DEL.
pub open spec fn is_control(byte: u8) -> bool {
    byte < 0x20 || byte == 0x7F
}

/// The delimiters that the storage endpoints reserve, `/` excepted.
pub open spec fn is_delimiter(byte: u8) -> bool {
    byte == 0x21 || byte == 0x23 || byte == 0x24 || byte == 0x26 || byte == 0x27 || byte == 0x28
        || byte == 0x29 || byte == 0x2A || byte == 0x2B || byte == 0x2C || byte == 0x3A || byte
        == 0x3B || byte == 0x3D || byte == 0x3F || byte == 0x40 || byte == 0x5B || byte == 0x5D
}

/// ASCII letters and digits.
pub open spec fn is_alphanumeric(byte: u8) -> bool {
    (0x30 <= byte <= 0x39) || (0x41 <= byte <= 0x5A) || (0x61 <= byte <= 0x7A)
}

/// Whether `byte` is written as an escape under `class`.
pub open spec fn is_escaped(class: EscapeClass, byte: u8) -> bool {
    byte >= 0x80 || match class {
        EscapeClass::Normal => is_control(byte) || is_delimiter(byte),
        EscapeClass::Slash => is_control(byte) || is_delimiter(byte) || byte == 0x2F,
        EscapeClass::Component => !is_alphanumeric(byte) && byte != 0x2A && byte != 0x2D && byte
            != 0x2E && byte != 0x5F,
    }
}

/// What one byte contributes to the encoded text.
pub open spec fn encoded_byte(class: EscapeClass, byte: u8) -> Seq<char> {
    if is_escaped(class, byte) {
        escaped(byte)
    } else {
        seq![byte as char]
    }
}

/// The percent-encoding of `bytes` under `class`: the contributions of the bytes, in order.
pub open spec fn percent_encoded(class: EscapeClass, bytes: Seq<u8>) -> Seq<char>
    decreases bytes.len(),
{
    if bytes.len() == 0 {
        Seq::empty()
    } else {
        percent_encoded(class, bytes.drop_last()) + encoded_byte(class, bytes.last())
    }
}

/// Encoding goes byte by byte: the encoding of two runs of bytes, one after the
/// other, is the encoding of the first followed by the encoding of the second.
pub proof fn percent_encoded_concat(class: EscapeClass, first: Seq<u8>, second: Seq<u8>)
    ensures
        percent_encoded(class, first + second) == percent_encoded(class, first) + percent_encoded(
            class,
            second,
        ),
    decreases second.len(),
{
    if second.len() == 0 {
        assert(first + second == first);
        assert(percent_encoded(class, first) + Seq::<char>::empty() == percent_encoded(
            class,
            first,
        ));
    } else {
        percent_encoded_concat(class, first, second.drop_last());
        assert((first + second).drop_last() == first + second.drop_last());
        assert((first + second).last() == second.last());
        assert(percent_encoded(class, first) + (percent_encoded(class, second.drop_last())
            + encoded_byte(class, second.last())) == percent_encoded(class, first)
            + percent_encoded(class, second.drop_last()) + encoded_byte(class, second.last()));
    }
}

/// `percent_encoding::percent_encode_byte`: the escape of one byte, whatever the byte.
pub assume_specification[ percent_encoding::percent_encode_byte ](byte: u8) -> (text: &'static str)
    ensures
        text@ == escaped(byte),
;

/// The base64 text of `bytes` as `base64::encode` writes it: the standard alphabet,
/// with padding.
pub uninterp spec fn base64_text(bytes: Seq<u8>) -> Seq<char>;

/// The bytes that `base64::decode` reads from `text`; `None` where it reads none.
pub uninterp spec fn base64_bytes(text: Seq<char>) -> Option<Seq<u8>>;

/// `base64::encode`.
#[verifier::external_body]
pub(crate) fn base64_encode(bytes: &[u8]) -> (text: String)
    ensures
        text@ == base64_text(bytes@),
{
    base64::encode(bytes)
}

/// `base64::decode`, its error dropped.
#[verifier::external_body]
pub(crate) fn base64_decode(text: &str) -> (bytes: Option<Vec<u8>>)
    ensures
        match bytes {
            Some(bytes) => base64_bytes(text@) == Some(bytes@),
            None => base64_bytes(text@) is None,
        },
{
    base64::decode(text).ok()
}

/// `String::push`: the character is appended.
pub assume_specification[ String::push ](text: &mut String, ch: char)
    ensures
        final(text)@ == old(text)@.push(ch),
;

fn escapes(class: EscapeClass, byte: u8) -> (yes: bool)
    ensures
        yes == is_escaped(class, byte),
{
    if byte >= 0x80 {
        return true;
    }
    let control = byte < 0x20 || byte == 0x7F;
    let delimiter = byte == 0x21 || byte == 0x23 || byte == 0x24 || byte == 0x26 || byte == 0x27
        || byte == 0x28 || byte == 0x29 || byte == 0x2A || byte == 0x2B || byte == 0x2C || byte
        == 0x3A || byte == 0x3B || byte == 0x3D || byte == 0x3F || byte == 0x40 || byte == 0x5B
        || byte == 0x5D;
    match class {
        EscapeClass::Normal => control || delimiter,
        EscapeClass::Slash => control || delimiter || byte == 0x2F,
        EscapeClass::Component => {
            let alphanumeric = (0x30 <= byte && byte <= 0x39) || (0x41 <= byte && byte <= 0x5A)
                || (0x61 <= byte && byte <= 0x7A);
            !alphanumeric && byte != 0x2A && byte != 0x2D && byte != 0x2E && byte != 0x5F
        },
    }
}

/// Percent-encodes the UTF-8 bytes of `input` under `class`.
pub fn encode(class: EscapeClass, input: &str) -> (encoded: String)
    ensures
        encoded@ == percent_encoded(class, input.spec_bytes()),
{
    let bytes = input.as_bytes();
    let mut encoded = String::new();
    let mut i: usize = 0;
    while i < bytes.len()
        invariant
            i <= bytes.len(),
            bytes@ == input.spec_bytes(),
            encoded@ == percent_encoded(class, bytes@.take(i as int)),
        decreases bytes.len() - i,
    {
        let byte = bytes[i];
        proof {
            assert(bytes@.take(i + 1).drop_last() == bytes@.take(i as int));
            assert(bytes@.take(i + 1).last() == byte);
        }
        if escapes(class, byte) {
            encoded.append(percent_encoding::percent_encode_byte(byte));
        } else {
            encoded.push(byte as char);
            assert(seq![byte as char] == Seq::<char>::empty().push(byte as char));
        }
        i += 1;
    }
    proof {
        assert(bytes@.take(i as int) == bytes@);
    }
    encoded
}

/// Encodes a resource name that may span several path segments.
pub fn normal(input: &str) -> (encoded: String)
    ensures
        encoded@ == percent_encoded(EscapeClass::Normal, input.spec_bytes()),
{
    encode(EscapeClass::Normal, input)
}

/// Encodes a resource name as one opaque path segment.
pub fn slash(input: &str) -> (encoded: String)
    ensures
        encoded@ == percent_encoded(EscapeClass::Slash, input.spec_bytes()),
{
    encode(EscapeClass::Slash, input)
}

/// Encodes a name so that only letters, digits and `*-._` stay as they are.
pub fn percent_encode(input: &str) -> (encoded: String)
    ensures
        encoded@ == percent_encoded(EscapeClass::Component, input.spec_bytes()),
{
    encode(EscapeClass::Component, input)
}

} // verus!

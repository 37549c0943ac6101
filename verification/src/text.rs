//! Text and bytes: what the library takes on trust from `std`, and the facts
//! about UTF-8 that the codec rests on.

use vstd::prelude::*;
use vstd::string::*;
use vstd::utf8::*;

verus! {

/// The error of `std::str::from_utf8`. Nothing is read from it.
#[verifier::external_type_specification]
#[verifier::external_body]
pub struct ExUtf8Error(std::str::Utf8Error);

/// `std::str::from_utf8` succeeds exactly on well-formed UTF-8, and the text
/// it hands out is the text that these bytes encode.
pub assume_specification[ std::str::from_utf8 ](v: &[u8]) -> (text: Result<&str, std::str::Utf8Error>)
    ensures
        text is Ok <==> valid_utf8(v@),
        text matches Ok(t) ==> t.spec_bytes() == v@,
;

/// `String::push` appends the character to the end of the text.
pub assume_specification[ String::push ](s: &mut String, ch: char)
    ensures
        final(s)@ == old(s)@.push(ch),
;

/// The text that `String::from_utf8_lossy` makes of `bytes`.
pub uninterp spec fn lossy_text(bytes: Seq<u8>) -> Seq<char>;

/// `String::from_utf8_lossy`: the bytes as text, with a replacement character
/// wherever they are not well-formed UTF-8. Of bytes that are well-formed it
/// gives the text that they encode, unchanged.
#[verifier::external_body]
pub(crate) fn from_utf8_lossy(bytes: &[u8]) -> (text: String)
    ensures
        text@ == lossy_text(bytes@),
        valid_utf8(bytes@) ==> text@ == decode_utf8(bytes@),
{
    String::from_utf8_lossy(bytes).into_owned()
}

/// A position that only ASCII bytes precede is a character boundary.
pub proof fn lemma_boundary_after_ascii(bytes: Seq<u8>, n: int)
    requires
        valid_utf8(bytes),
        0 <= n <= bytes.len(),
        forall|i: int| 0 <= i < n ==> bytes[i] < 0x80,
    ensures
        is_char_boundary(bytes, n),
    decreases n,
{
    if n > 0 {
        // The first byte is a character of its own; go on behind it.
        let rest = pop_first_scalar(bytes);
        assert forall|i: int| 0 <= i < n - 1 implies rest[i] < 0x80 by {
            assert(rest[i] == bytes[i + 1]);
        }
        lemma_boundary_after_ascii(rest, n - 1);
    }
}

/// A sequence of ASCII bytes is well-formed UTF-8.
pub proof fn lemma_ascii_is_utf8(bytes: Seq<u8>)
    requires
        forall|i: int| 0 <= i < bytes.len() ==> bytes[i] < 0x80,
    ensures
        valid_utf8(bytes),
{
    assert(bytes.subrange(0, 0) =~= Seq::<u8>::empty());
    partial_valid_utf8_extend_ascii_block(bytes, 0, bytes.len() as int);
    assert(bytes.subrange(0, bytes.len() as int) =~= bytes);
}

/// Two ASCII characters with the same byte are the same character.
pub proof fn lemma_ascii_char(a: char, b: char)
    requires
        (a as u32) < 0x80,
        (b as u32) < 0x80,
        a as u8 == b as u8,
    ensures
        a == b,
{
    let x = a as u32;
    let y = b as u32;
    assert(x == y) by (bit_vector)
        requires
            x < 0x80,
            y < 0x80,
            x as u8 == y as u8,
    ;
    char_u32_cast(a, x);
    char_u32_cast(b, y);
}

/// No byte of `bytes` is ASCII.
pub open spec fn no_ascii(bytes: Seq<u8>) -> bool {
    forall|i: int| 0 <= i < bytes.len() ==> bytes[i] >= 0x80
}

/// How one character is encoded: an ASCII character as the one byte that it
/// is, any other as two to four bytes of which none is ASCII.
pub proof fn lemma_encode_scalar_bytes(c: char)
    ensures
        1 <= encode_scalar(c as u32).len() <= 4,
        (c as u32) < 0x80 ==> encode_scalar(c as u32) == seq![c as u8],
        (c as u32) >= 0x80 ==> no_ascii(encode_scalar(c as u32)),
{
    let v = c as u32;
    let e = encode_scalar(v);
    if has_width_1_encoding(v) {
        assert(leading_byte_width_1(v) == v as u8) by (bit_vector)
            requires
                v <= 0x7f,
        ;
    } else {
        assert(leading_byte_width_2(v) >= 0x80) by (bit_vector);
        assert(leading_byte_width_3(v) >= 0x80) by (bit_vector);
        assert(leading_byte_width_4(v) >= 0x80) by (bit_vector);
        assert(last_continuation_byte(v) >= 0x80) by (bit_vector);
        assert(second_last_continuation_byte(v) >= 0x80) by (bit_vector);
        assert(third_last_continuation_byte(v) >= 0x80) by (bit_vector);
    }
}

} // verus!

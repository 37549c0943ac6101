//! Text for the speech engine, which takes UTF-16 code units closed by a zero.

use vstd::prelude::*;
use vstd::string::*;

verus! {

/// The UTF-16 code units of one character: the character itself below
/// `0x10000`, else a high and a low surrogate that carry ten bits each of what
/// lies above `0x10000`.
pub open spec fn utf16_units(c: char) -> Seq<u16> {
    let v = c as u32;
    if v < 0x10000 {
        seq![v as u16]
    } else {
        seq![(0xD800 + (v - 0x10000) / 0x400) as u16, (0xDC00 + (v - 0x10000) % 0x400) as u16]
    }
}

/// The UTF-16 code units of a text, character after character.
pub open spec fn utf16(text: Seq<char>) -> Seq<u16>
    decreases text.len(),
{
    if text.len() == 0 {
        seq![]
    } else {
        utf16(text.drop_last()) + utf16_units(text.last())
    }
}

/// A text as the speech engine takes it: its UTF-16 code units and a closing zero.
pub open spec fn wide_null(text: Seq<char>) -> Seq<u16> {
    utf16(text).push(0)
}

/// Fills `buffer` with `text` as the speech engine takes it. What the buffer
/// held before is gone.
pub fn fill_wide_null(buffer: &mut Vec<u16>, text: &str)
    ensures
        final(buffer)@ == wide_null(text@),
{
    buffer.clear();
    for c in it: text.chars()
        invariant
            it.seq() == text@,
            buffer@ == utf16(text@.take(it.index() as int)),
    {
        proof {
            let k = it.index() as int;
            assert(text@.take(k + 1).drop_last() =~= text@.take(k));
        }
        let v = c as u32;
        if v < 0x10000 {
            buffer.push(v as u16);
        } else {
            let high = (v - 0x10000) / 0x400;
            let low = (v - 0x10000) % 0x400;
            buffer.push((0xD800 + high) as u16);
            buffer.push((0xDC00 + low) as u16);
        }
    }
    assert(text@.take(text@.len() as int) =~= text@);
    buffer.push(0);
}

} // verus!

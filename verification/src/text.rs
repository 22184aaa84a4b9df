//! Text for the operating system's wide-character functions.
use vstd::prelude::*;

verus! {

/// The UTF-16 code units of one character.
pub open spec fn utf16_of_char(c: char) -> Seq<u16> {
    let v = c as u32;
    if v < 0x10000 {
        seq![v as u16]
    } else {
        seq![(0xd800 + ((v - 0x10000) / 0x400)) as u16, (0xdc00 + ((v - 0x10000) % 0x400)) as u16]
    }
}

/// The UTF-16 code units of a text.
pub open spec fn utf16_of(s: Seq<char>) -> Seq<u16>
    decreases s.len(),
{
    if s.len() == 0 {
        seq![]
    } else {
        utf16_of(s.drop_last()) + utf16_of_char(s.last())
    }
}

fn push_utf16(v: &mut Vec<u16>, c: char)
    ensures
        final(v)@ == old(v)@ + utf16_of_char(c),
{
    let x = c as u32;
    if x < 0x10000 {
        v.push(x as u16);
    } else {
        let y = x - 0x10000;
        v.push((0xd800 + y / 0x400) as u16);
        v.push((0xdc00 + y % 0x400) as u16);
    }
    assert(v@ =~= old(v)@ + utf16_of_char(c));
}

/// Encode the given `string` as a null-terminated UTF-16 string.
pub fn encode_utf16_null_terminated(string: &str) -> (r: Vec<u16>)
    ensures
        r@ == utf16_of(string@).push(0u16),
{
    let mut out: Vec<u16> = Vec::new();
    let ghost chars = string@;
    for c in it: string.chars()
        invariant
            it.seq() == chars,
            out@ == utf16_of(chars.take(it.index() as int)),
    {
        proof {
            assert(chars.take(it.index() + 1).drop_last() =~= chars.take(it.index() as int));
        }
        push_utf16(&mut out, c);
    }
    assert(chars.take(chars.len() as int) =~= chars);
    out.push(0);
    out
}

/// Encode the given text as a null-terminated UTF-16 string.
pub fn encode_utf16(s: &str) -> (r: Vec<u16>)
    ensures
        r@ == utf16_of(s@).push(0u16),
{
    encode_utf16_null_terminated(s)
}

} // verus!

//! The title of a border window.

use vstd::prelude::*;

verus! {

/// The UTF-16 form of one character: itself, or a pair of surrogates.
pub open spec fn utf16_units(c: char) -> Seq<u16> {
    let n = c as int;
    if n < 0x1_0000 {
        seq![n as u16]
    } else {
        seq![
            (0xd800 + (n - 0x1_0000) / 0x400) as u16,
            (0xdc00 + (n - 0x1_0000) % 0x400) as u16,
        ]
    }
}

/// The UTF-16 form of a text.
pub open spec fn utf16(text: Seq<char>) -> Seq<u16>
    decreases text.len(),
{
    if text.len() == 0 {
        seq![]
    } else {
        utf16(text.drop_last()) + utf16_units(text.last())
    }
}

/// The title of the border window of a window: it names the window by its title and its handle,
/// and ends in a null character.
pub open spec fn border_title(title: Seq<char>, handle: Seq<char>) -> Seq<char> {
    "tacky-border | "@ + title + " | "@ + handle + "\0"@
}

/// Appends the UTF-16 form of a character.
fn push_utf16_units(units: &mut Vec<u16>, c: char)
    ensures
        final(units)@ == old(units)@ + utf16_units(c),
{
    let n: u32 = c as u32;
    if n < 0x1_0000 {
        units.push(n as u16);
    } else {
        units.push((0xd800 + (n - 0x1_0000) / 0x400) as u16);
        units.push((0xdc00 + (n - 0x1_0000) % 0x400) as u16);
    }
    proof {
        assert(units@ =~= old(units)@ + utf16_units(c));
    }
}

/// Appends the UTF-16 form of a text.
fn push_utf16(units: &mut Vec<u16>, text: &str)
    ensures
        final(units)@ == old(units)@ + utf16(text@),
{
    for c in chars: text.chars()
        invariant
            units@ =~= old(units)@ + utf16(text@.take(chars.index() as int)),
            chars.seq() == text@,
    {
        proof {
            let i = chars.index() as int;
            assert(text@.take(i + 1).drop_last() =~= text@.take(i));
        }
        push_utf16_units(units, c);
    }
    proof {
        assert(text@.take(text@.len() as int) =~= text@);
    }
}

/// The UTF-16 form of two texts in a row is that of the one and that of the other.
pub proof fn lemma_utf16_of_two(first: Seq<char>, second: Seq<char>)
    ensures
        utf16(first + second) == utf16(first) + utf16(second),
    decreases second.len(),
{
    if second.len() == 0 {
        assert(first + second =~= first);
        assert(utf16(first) + utf16(second) =~= utf16(first));
    } else {
        assert((first + second).drop_last() =~= first + second.drop_last());
        lemma_utf16_of_two(first, second.drop_last());
        assert(utf16(first + second) =~= utf16(first) + utf16(second));
    }
}

/// The title of the border window of a window, in UTF-16.
pub fn window_title(title: &str, handle: &str) -> (r: Vec<u16>)
    ensures
        r@ == utf16(border_title(title@, handle@)),
        r@.len() > 0 && r@.last() == 0,
{
    let mut units: Vec<u16> = Vec::new();
    push_utf16(&mut units, "tacky-border | ");
    push_utf16(&mut units, title);
    push_utf16(&mut units, " | ");
    push_utf16(&mut units, handle);
    push_utf16(&mut units, "\0");
    proof {
        let a = "tacky-border | "@;
        let b = " | "@;
        lemma_utf16_of_two(a, title@);
        lemma_utf16_of_two(a + title@, b);
        lemma_utf16_of_two(a + title@ + b, handle@);
        lemma_utf16_of_two(a + title@ + b + handle@, "\0"@);
        assert(units@ =~= utf16(border_title(title@, handle@)));
        reveal_strlit("\0");
        assert("\0"@.last() == '\0');
    }
    units
}

} // verus!

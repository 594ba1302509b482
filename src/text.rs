//! Breaking dialogue text into lines of a fixed number of characters.
use vstd::prelude::*;

verus! {

/// The text `s` laid out with at most `len` characters per line, where
/// `count` characters already stand on the current line. Each comma ends a
/// piece and is dropped; within a piece, a newline is put before a character
/// whenever the line already holds `len` characters.
pub open spec fn wrap_from(s: Seq<char>, len: nat, count: nat) -> Seq<char>
    decreases s.len(),
{
    if s.len() == 0 {
        Seq::empty()
    } else if s[0] == ',' {
        wrap_from(s.drop_first(), len, 0)
    } else if count == len {
        seq!['\n', s[0]] + wrap_from(s.drop_first(), len, 1)
    } else {
        seq![s[0]] + wrap_from(s.drop_first(), len, count + 1)
    }
}

/// The number of characters that fit on a line `len_px` pixels wide when
/// each character takes `font_size` pixels.
pub open spec fn chars_per_line(len_px: nat, font_size: nat) -> nat
    recommends
        font_size > 0,
{
    len_px / font_size
}

/// Splits `value` at its commas (which are dropped) and breaks each piece
/// into lines that fit in `len_px` pixels at `font_size` pixels a character.
pub fn string_auto_split(value: &str, len_px: u32, font_size: usize) -> (r: String)
    requires
        font_size > 0,
    ensures
        r@ == wrap_from(value@, chars_per_line(len_px as nat, font_size as nat), 0),
{
    let len: usize = (len_px as usize) / font_size;
    let n: usize = value.unicode_len();
    let ghost s: Seq<char> = value@;
    let newline: &str = "\n";
    proof {
        reveal_strlit("\n");
    }
    let mut out: String = String::new();
    let mut count: usize = 0;
    let mut i: usize = 0;
    assert(s.skip(0) =~= s);
    while i < n
        invariant
            n == s.len(),
            s == value@,
            newline@ == seq!['\n'],
            len == chars_per_line(len_px as nat, font_size as nat),
            i <= n,
            count <= i,
            out@ + wrap_from(s.skip(i as int), len as nat, count as nat) == wrap_from(s, len as nat, 0),
        decreases n - i,
    {
        let c: char = value.get_char(i);
        let piece: &str = value.substring_char(i, i + 1);
        let ghost before: Seq<char> = out@;
        let ghost at: Seq<char> = s.skip(i as int);
        assert(at.drop_first() =~= s.skip(i + 1));
        assert(at[0] == c);
        assert(piece@ =~= seq![c]);
        if c == ',' {
            count = 0;
        } else if count == len {
            out.append(newline);
            out.append(piece);
            count = 1;
            assert(out@ + wrap_from(s.skip(i + 1), len as nat, 1) =~= before + (seq!['\n', c]
                + wrap_from(s.skip(i + 1), len as nat, 1)));
        } else {
            out.append(piece);
            assert(out@ + wrap_from(s.skip(i + 1), len as nat, count as nat + 1) =~= before + (
            seq![c] + wrap_from(s.skip(i + 1), len as nat, count as nat + 1)));
            count = count + 1;
        }
        i = i + 1;
    }
    assert(s.skip(n as int) =~= Seq::<char>::empty());
    assert(out@ + Seq::<char>::empty() =~= out@);
    out
}

} // verus!

//! Rendering of a block of sixteen words as hexadecimal text.

use vstd::prelude::*;
use vstd::string::{StrSliceExecFns, StringExecFns};

verus! {

/// The lowercase hexadecimal digit for a number from 0 to 15.
pub open spec fn hex_digit(n: int) -> char {
    seq!['0', '1', '2', '3', '4', '5', '6', '7', '8', '9', 'a', 'b', 'c', 'd', 'e', 'f'][n]
}

/// The `i`-th group of four bits of `word`, counted from the most significant
/// group, as a number from 0 to 15.
pub open spec fn nibble(word: u32, i: int) -> int {
    ((word >> ((4 * (7 - i)) as u32)) & 0xf) as int
}

/// A word as eight lowercase hexadecimal digits, leading zeros included.
pub open spec fn hex_word(word: u32) -> Seq<char> {
    Seq::new(8, |i: int| hex_digit(nibble(word, i)))
}

/// The first `n` words of `block` as text: each word as eight digits and a
/// space, with a line break after every fourth word.
pub open spec fn words_text(block: Seq<u32>, n: nat) -> Seq<char>
    decreases n,
{
    if n == 0 {
        Seq::empty()
    } else {
        let line_end = if n % 4 == 0 {
            seq!['\n']
        } else {
            Seq::empty()
        };
        words_text(block, (n - 1) as nat) + hex_word(block[n - 1]) + seq![' '] + line_end
    }
}

/// A labelled block as text: the label and a colon on a line of their own,
/// four lines of four words each, and an empty line.
pub open spec fn block_text(label: Seq<char>, block: Seq<u32>) -> Seq<char> {
    label + seq![':', '\n'] + words_text(block, 16) + seq!['\n']
}

/// Appends the eight hexadecimal digits of `word` to `text`.
fn append_hex_word(text: &mut String, word: u32)
    ensures
        final(text)@ == old(text)@ + hex_word(word),
{
    let mut i: u32 = 0;
    while i < 8
        invariant
            i <= 8,
            text@ == old(text)@ + hex_word(word).subrange(0, i as int),
        decreases 8 - i,
    {
        let shift: u32 = 4 * (7 - i);
        let n: usize = ((word >> shift) & 0xf) as usize;
        proof {
            assert((word >> shift) & 0xf < 16) by (bit_vector);
            reveal_strlit("0123456789abcdef");
        }
        text.append("0123456789abcdef".substring_ascii(n, n + 1));
        i += 1;
    }
}

/// Renders `block` under `label`: the words as groups of eight lowercase
/// hexadecimal digits, four to a line, closed by an empty line.
pub fn format_block(label: &str, block: &[u32; 16]) -> (text: String)
    ensures
        text@ == block_text(label@, block@),
{
    let mut text = String::from_str(label);
    proof {
        reveal_strlit(":\n");
        reveal_strlit("\n");
    }
    text.append(":\n");
    for i in 0..16
        invariant
            text@ == label@ + seq![':', '\n'] + words_text(block@, i as nat),
    {
        proof {
            reveal_strlit(" ");
            reveal_strlit("\n");
        }
        append_hex_word(&mut text, block[i]);
        text.append(" ");
        if (i + 1) % 4 == 0 {
            text.append("\n");
        }
    }
    text.append("\n");
    text
}

} // verus!

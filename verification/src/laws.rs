//! Properties of the model, each proved for every input.

use crate::spec::{
    block, column_round, diagonal_round, double_round, double_rounds, initial_state, quarter_round,
    quarter_round_at, rotate_left,
};
use vstd::prelude::*;

verus! {

/// Rotation identity: rotating by zero bits or by all 32 bits gives the word
/// back unchanged.
pub proof fn lemma_rotate_left_identity(v: u32)
    ensures
        rotate_left(v, 0) == v,
        rotate_left(v, 32) == v,
{
}

/// Rotation composition: rotating left by `n` bits and then by the remaining
/// `32 - n` bits gives the word back unchanged, for every `n` from 0 to 32.
pub proof fn lemma_rotate_left_inverse(v: u32, n: u32)
    requires
        n <= 32,
    ensures
        rotate_left(rotate_left(v, n), (32 - n) as u32) == v,
{
    assert(n <= 32 ==> rotate_left(rotate_left(v, n), (32 - n) as u32) == v) by (bit_vector);
}

/// A rotation moves every bit `n` places up, and those that would leave the
/// word come back in at the low end: bit `i` of `v` is bit `(i + n) mod 32` of
/// the rotated word.
pub proof fn lemma_rotate_left_moves_bits(v: u32, n: u32, i: u32)
    requires
        n <= 32,
        i < 32,
    ensures
        (rotate_left(v, n) >> (((i + n) % 32) as u32)) & 1 == (v >> i) & 1,
{
    assert(n <= 32 && i < 32 ==> (rotate_left(v, n) >> (((i + n) % 32) as u32)) & 1 == (v >> i)
        & 1) by (bit_vector);
}

/// The quarter round is a function of its four words: equal inputs give equal
/// outputs.
pub proof fn lemma_quarter_round_deterministic(
    a1: u32,
    b1: u32,
    c1: u32,
    d1: u32,
    a2: u32,
    b2: u32,
    c2: u32,
    d2: u32,
)
    requires
        a1 == a2,
        b1 == b2,
        c1 == c2,
        d1 == d2,
    ensures
        quarter_round(a1, b1, c1, d1) == quarter_round(a2, b2, c2, d2),
{
}

/// The quarter round maps four zero words to four zero words.
pub proof fn lemma_quarter_round_zero()
    ensures
        quarter_round(0, 0, 0, 0) == (0u32, 0u32, 0u32, 0u32),
{
    assert(quarter_round(0, 0, 0, 0) == (0u32, 0u32, 0u32, 0u32)) by (bit_vector);
}

/// The positions that the four steps of a column round work on, written out:
/// the columns of the state laid out as four rows of four words.
pub proof fn lemma_column_round_positions(s: Seq<u32>)
    ensures
        column_round(s) == quarter_round_at(
            quarter_round_at(
                quarter_round_at(quarter_round_at(s, 0, 4, 8, 12), 1, 5, 9, 13),
                2,
                6,
                10,
                14,
            ),
            3,
            7,
            11,
            15,
        ),
{
}

/// The positions that the four steps of a diagonal round work on, written
/// out: the diagonals of the state laid out as four rows of four words.
pub proof fn lemma_diagonal_round_positions(s: Seq<u32>)
    ensures
        diagonal_round(s) == quarter_round_at(
            quarter_round_at(
                quarter_round_at(quarter_round_at(s, 0, 5, 10, 15), 1, 6, 11, 12),
                2,
                7,
                8,
                13,
            ),
            3,
            4,
            9,
            14,
        ),
{
}

/// A quarter round at four positions of a state keeps its length.
pub proof fn lemma_quarter_round_at_len(s: Seq<u32>, ia: int, ib: int, ic: int, id: int)
    requires
        0 <= ia < s.len(),
        0 <= ib < s.len(),
        0 <= ic < s.len(),
        0 <= id < s.len(),
    ensures
        quarter_round_at(s, ia, ib, ic, id).len() == s.len(),
{
    reveal(quarter_round_at);
}

/// A double round takes a state of sixteen words to a state of sixteen words.
pub proof fn lemma_double_round_len(s: Seq<u32>)
    requires
        s.len() == 16,
    ensures
        double_round(s).len() == 16,
{
    assert forall|t: Seq<u32>, ia: int, ib: int, ic: int, id: int|
        t.len() == 16 && 0 <= ia < 16 && 0 <= ib < 16 && 0 <= ic < 16 && 0 <= id < 16
        implies (#[trigger] quarter_round_at(t, ia, ib, ic, id)).len() == 16 by {
        lemma_quarter_round_at_len(t, ia, ib, ic, id);
    }
}

/// Any number of double rounds takes a state of sixteen words to a state of
/// sixteen words.
pub proof fn lemma_double_rounds_len(s: Seq<u32>, n: nat)
    requires
        s.len() == 16,
    ensures
        double_rounds(s, n).len() == 16,
    decreases n,
{
    if n > 0 {
        lemma_double_rounds_len(s, (n - 1) as nat);
        lemma_double_round_len(double_rounds(s, (n - 1) as nat));
    }
}

/// A block has sixteen words.
pub proof fn lemma_block_len(key: Seq<u32>, counter: Seq<u32>, nonce: Seq<u32>)
    requires
        key.len() == 8,
        counter.len() == 2,
        nonce.len() == 2,
    ensures
        block(key, counter, nonce).len() == 16,
{
    lemma_double_rounds_len(initial_state(key, counter, nonce), 10);
}

/// The block is a function of key, counter and nonce: equal inputs give equal
/// blocks.
pub proof fn lemma_block_deterministic(
    key1: Seq<u32>,
    counter1: Seq<u32>,
    nonce1: Seq<u32>,
    key2: Seq<u32>,
    counter2: Seq<u32>,
    nonce2: Seq<u32>,
)
    requires
        key1 == key2,
        counter1 == counter2,
        nonce1 == nonce2,
    ensures
        block(key1, counter1, nonce1) == block(key2, counter2, nonce2),
{
}

} // verus!

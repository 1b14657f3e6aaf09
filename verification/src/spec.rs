//! The mathematical model of the ChaCha20 block function.
//!
//! Words are `u32`, a state is a sequence of sixteen words, and every addition
//! is taken modulo 2^32.

use vstd::prelude::*;

verus! {

/// Circular left rotation of `value` by `amount` bit positions.
///
/// A rotation by zero or by the full width of 32 bits leaves the word as it
/// is; neither can be written as a pair of shifts, so both are singled out.
pub open spec fn rotate_left(value: u32, amount: u32) -> u32 {
    if amount == 0 || amount == 32 {
        value
    } else {
        (value << amount) | (value >> ((32 - amount) as u32))
    }
}

/// One add-xor-rotate step: `x` takes up `y`, then `z` is mixed with the new
/// `x` and rotated left by `amount`. Returns the new `x` and the new `z`.
pub open spec fn arx(x: u32, y: u32, z: u32, amount: u32) -> (u32, u32) {
    let sum = x.wrapping_add(y);
    (sum, rotate_left(z ^ sum, amount))
}

/// The quarter round on the words `(a, b, c, d)`: four add-xor-rotate steps
/// with the rotation amounts 16, 12, 8 and 7, in this order.
pub open spec fn quarter_round(a: u32, b: u32, c: u32, d: u32) -> (u32, u32, u32, u32) {
    let (a, d) = arx(a, b, d, 16);
    let (c, b) = arx(c, d, b, 12);
    let (a, d) = arx(a, b, d, 8);
    let (c, b) = arx(c, d, b, 7);
    (a, b, c, d)
}

/// The state `s` after a quarter round on its words at the positions `ia`,
/// `ib`, `ic` and `id`.
///
/// The definition is opaque, so that a chain of rounds stays a chain of
/// applications to the solver; a proof that needs it reveals it.
#[verifier::opaque]
pub open spec fn quarter_round_at(s: Seq<u32>, ia: int, ib: int, ic: int, id: int) -> Seq<u32> {
    let (a, b, c, d) = quarter_round(s[ia], s[ib], s[ic], s[id]);
    s.update(ia, a).update(ib, b).update(ic, c).update(id, d)
}

/// Position in the state of word `i` of quarter `q`: the quarters are the four
/// consecutive runs of four words.
pub open spec fn position(q: int, i: int) -> int {
    4 * q + i
}

/// Step `i` of a column round: the quarter round on word `i` of each quarter.
pub open spec fn column_step(s: Seq<u32>, i: int) -> Seq<u32> {
    quarter_round_at(s, position(0, i), position(1, i), position(2, i), position(3, i))
}

/// Step `i` of a diagonal round: the quarter round on word `i` of the first
/// quarter and the words one, two and three places further on, cyclically, of
/// the second, third and fourth quarter.
pub open spec fn diagonal_step(s: Seq<u32>, i: int) -> Seq<u32> {
    quarter_round_at(
        s,
        position(0, i),
        position(1, (i + 1) % 4),
        position(2, (i + 2) % 4),
        position(3, (i + 3) % 4),
    )
}

/// A column round: the four column steps.
pub open spec fn column_round(s: Seq<u32>) -> Seq<u32> {
    column_step(column_step(column_step(column_step(s, 0), 1), 2), 3)
}

/// A diagonal round: the four diagonal steps.
pub open spec fn diagonal_round(s: Seq<u32>) -> Seq<u32> {
    diagonal_step(diagonal_step(diagonal_step(diagonal_step(s, 0), 1), 2), 3)
}

/// A column round followed by a diagonal round.
pub open spec fn double_round(s: Seq<u32>) -> Seq<u32> {
    diagonal_round(column_round(s))
}

/// The state `s` after `n` double rounds.
pub open spec fn double_rounds(s: Seq<u32>, n: nat) -> Seq<u32>
    decreases n,
{
    if n == 0 {
        s
    } else {
        double_round(double_rounds(s, (n - 1) as nat))
    }
}

/// The four constant words that open every state, "expand 32-byte k".
pub open spec fn constant() -> Seq<u32> {
    seq![0x61707865u32, 0x3320646eu32, 0x79622d32u32, 0x6b206574u32]
}

/// The initial state: constant, key, counter and nonce, one after the other.
pub open spec fn initial_state(key: Seq<u32>, counter: Seq<u32>, nonce: Seq<u32>) -> Seq<u32> {
    constant() + key + counter + nonce
}

/// Word by word sum of `x` and `y`, modulo 2^32.
pub open spec fn add_words(x: Seq<u32>, y: Seq<u32>) -> Seq<u32> {
    Seq::new(x.len(), |i: int| x[i].wrapping_add(y[i]))
}

/// The keystream block for `key`, `counter` and `nonce`: the initial state
/// after twenty rounds, taken as ten double rounds, with the initial state
/// added back in.
pub open spec fn block(key: Seq<u32>, counter: Seq<u32>, nonce: Seq<u32>) -> Seq<u32> {
    let state = initial_state(key, counter, nonce);
    add_words(double_rounds(state, 10), state)
}

} // verus!

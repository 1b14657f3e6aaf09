//! The executable block function and its two building blocks.

use crate::spec::{
    add_words, block, double_rounds, initial_state, quarter_round, quarter_round_at,
    rotate_left,
};
use vstd::prelude::*;

verus! {

/// Rotates `a` left by `b` bits, for `b` from 0 to 32. Both ends of that
/// range give `a` back.
pub fn rotl(a: u32, b: u32) -> (r: u32)
    requires
        b <= 32,
    ensures
        r == rotate_left(a, b),
        b == 0 || b == 32 ==> r == a,
{
    if b == 0 || b == 32 {
        return a;
    }
    (a << b) | (a >> (32 - b))
}

/// Applies the quarter round to the four words in place: four times an
/// addition modulo 2^32, an exclusive or and a rotation, by 16, 12, 8 and 7
/// bits.
pub fn qr(a: &mut u32, b: &mut u32, c: &mut u32, d: &mut u32)
    ensures
        (*final(a), *final(b), *final(c), *final(d)) == quarter_round(
            *old(a),
            *old(b),
            *old(c),
            *old(d),
        ),
{
    *a = a.wrapping_add(*b);
    *d ^= *a;
    *d = rotl(*d, 16);

    *c = c.wrapping_add(*d);
    *b ^= *c;
    *b = rotl(*b, 12);

    *a = a.wrapping_add(*b);
    *d ^= *a;
    *d = rotl(*d, 8);

    *c = c.wrapping_add(*d);
    *b ^= *c;
    *b = rotl(*b, 7);
}

/// A quarter round on word `i0` of the first quarter, `i1` of the second, `i2`
/// of the third and `i3` of the fourth is a quarter round on the state that
/// the four quarters make up.
proof fn lemma_quarters_step(
    q0: Seq<u32>,
    q1: Seq<u32>,
    q2: Seq<u32>,
    q3: Seq<u32>,
    i0: int,
    i1: int,
    i2: int,
    i3: int,
)
    requires
        q0.len() == 4,
        q1.len() == 4,
        q2.len() == 4,
        q3.len() == 4,
        0 <= i0 < 4,
        0 <= i1 < 4,
        0 <= i2 < 4,
        0 <= i3 < 4,
    ensures
        ({
            let (a, b, c, d) = quarter_round(q0[i0], q1[i1], q2[i2], q3[i3]);
            q0.update(i0, a) + q1.update(i1, b) + q2.update(i2, c) + q3.update(i3, d)
        }) == quarter_round_at(q0 + q1 + q2 + q3, i0, 4 + i1, 8 + i2, 12 + i3),
{
    reveal(quarter_round_at);
}

const ROUNDS: usize = 20;

/// Writes to `out` the keystream block for `key`, `counter` and `nonce`.
///
/// What `out` held before does not matter, and the counter is used as it is
/// given: stepping it from block to block is left to the caller.
pub fn chacha_block(out: &mut [u32; 16], key: &[u32; 8], counter: &[u32; 2], nonce: &[u32; 2])
    ensures
        final(out)@ == block(key@, counter@, nonce@),
{
    let mut state: [u32; 16] = [0; 16];

    // constant "expand 32-byte k"
    state[0] = 0x61707865;
    state[1] = 0x3320646e;
    state[2] = 0x79622d32;
    state[3] = 0x6b206574;

    // 256-bit key
    state[4] = key[0];
    state[5] = key[1];
    state[6] = key[2];
    state[7] = key[3];
    state[8] = key[4];
    state[9] = key[5];
    state[10] = key[6];
    state[11] = key[7];

    // 64-bit counter
    state[12] = counter[0];
    state[13] = counter[1];

    // 64-bit nonce
    state[14] = nonce[0];
    state[15] = nonce[1];

    assert(state@ =~= initial_state(key@, counter@, nonce@));

    // the working copy, split into its four quarters so that one word of each
    // can be borrowed at a time
    let mut x: [u32; 16] = state;
    let (x0, x_rest) = x.split_at_mut(4);
    let (x1, x_rest) = x_rest.split_at_mut(4);
    let (x2, x3) = x_rest.split_at_mut(4);

    let mut done: usize = 0;
    while done < ROUNDS
        invariant
            done <= ROUNDS,
            done % 2 == 0,
            x0@.len() == 4,
            x1@.len() == 4,
            x2@.len() == 4,
            x3@.len() == 4,
            x0@ + x1@ + x2@ + x3@ == double_rounds(state@, (done / 2) as nat),
        decreases ROUNDS - done,
    {
        // column round
        proof {
            lemma_quarters_step(x0@, x1@, x2@, x3@, 0, 0, 0, 0);
        }
        qr(&mut x0[0], &mut x1[0], &mut x2[0], &mut x3[0]);
        proof {
            lemma_quarters_step(x0@, x1@, x2@, x3@, 1, 1, 1, 1);
        }
        qr(&mut x0[1], &mut x1[1], &mut x2[1], &mut x3[1]);
        proof {
            lemma_quarters_step(x0@, x1@, x2@, x3@, 2, 2, 2, 2);
        }
        qr(&mut x0[2], &mut x1[2], &mut x2[2], &mut x3[2]);
        proof {
            lemma_quarters_step(x0@, x1@, x2@, x3@, 3, 3, 3, 3);
        }
        qr(&mut x0[3], &mut x1[3], &mut x2[3], &mut x3[3]);

        // diagonal round
        proof {
            lemma_quarters_step(x0@, x1@, x2@, x3@, 0, 1, 2, 3);
        }
        qr(&mut x0[0], &mut x1[1], &mut x2[2], &mut x3[3]);
        proof {
            lemma_quarters_step(x0@, x1@, x2@, x3@, 1, 2, 3, 0);
        }
        qr(&mut x0[1], &mut x1[2], &mut x2[3], &mut x3[0]);
        proof {
            lemma_quarters_step(x0@, x1@, x2@, x3@, 2, 3, 0, 1);
        }
        qr(&mut x0[2], &mut x1[3], &mut x2[0], &mut x3[1]);
        proof {
            lemma_quarters_step(x0@, x1@, x2@, x3@, 3, 0, 1, 2);
        }
        qr(&mut x0[3], &mut x1[0], &mut x2[1], &mut x3[2]);

        done += 2;
    }

    // the initial state is added to the working copy, word by word
    let ghost working = x0@ + x1@ + x2@ + x3@;
    for i in 0..4
        invariant
            x0@.len() == 4,
            x1@.len() == 4,
            x2@.len() == 4,
            x3@.len() == 4,
            working == x0@ + x1@ + x2@ + x3@,
            forall|k: int| 0 <= k < 16 && k % 4 < i ==> out@[k] == add_words(working, state@)[k],
    {
        out[i] = x0[i].wrapping_add(state[i]);
        out[i + 4] = x1[i].wrapping_add(state[i + 4]);
        out[i + 8] = x2[i].wrapping_add(state[i + 8]);
        out[i + 12] = x3[i].wrapping_add(state[i + 12]);
    }
}

} // verus!

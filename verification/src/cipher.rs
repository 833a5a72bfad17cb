//! The ROT13 substitution on single bytes and on byte sequences.

use vstd::prelude::*;

verus! {

/// ASCII `A`.
pub const UPPER_A: u8 = 65;

/// ASCII `Z`.
pub const UPPER_Z: u8 = 90;

/// ASCII `a`.
pub const LOWER_A: u8 = 97;

/// ASCII `z`.
pub const LOWER_Z: u8 = 122;

/// How far a letter moves round its alphabet.
pub const SHIFT: u8 = 13;

/// How many letters one alphabet has.
pub const LETTERS: u8 = 26;

/// Whether `b` is an upper-case ASCII letter.
pub open spec fn is_upper(b: u8) -> bool {
    UPPER_A <= b <= UPPER_Z
}

/// Whether `b` is a lower-case ASCII letter.
pub open spec fn is_lower(b: u8) -> bool {
    LOWER_A <= b <= LOWER_Z
}

/// The ROT13 image of one byte: a letter moves thirteen places round its own
/// alphabet, every other byte stays as it is.
pub open spec fn rot13(b: u8) -> u8 {
    if is_upper(b) {
        (UPPER_A + (b - UPPER_A + SHIFT) % (LETTERS as int)) as u8
    } else if is_lower(b) {
        (LOWER_A + (b - LOWER_A + SHIFT) % (LETTERS as int)) as u8
    } else {
        b
    }
}

/// Rotates one byte. No byte value makes the arithmetic leave the range of a
/// byte.
pub fn rotate(b: u8) -> (r: u8)
    ensures
        r == rot13(b),
        is_upper(b) ==> is_upper(r),
        is_lower(b) ==> is_lower(r),
        !is_upper(b) && !is_lower(b) ==> r == b,
{
    if UPPER_A <= b && b <= UPPER_Z {
        UPPER_A + (b - UPPER_A + SHIFT) % LETTERS
    } else if LOWER_A <= b && b <= LOWER_Z {
        LOWER_A + (b - LOWER_A + SHIFT) % LETTERS
    } else {
        b
    }
}

/// On an upper-case letter ROT13 yields an upper-case letter, and a second
/// application gives the letter back. A letter of the first half of the
/// alphabet goes thirteen up, one of the second half thirteen down.
pub proof fn lemma_rot13_upper(b: u8)
    requires
        is_upper(b),
    ensures
        is_upper(rot13(b)),
        rot13(rot13(b)) == b,
        rot13(b) == if b < UPPER_A + SHIFT {
            b + SHIFT
        } else {
            b - SHIFT
        },
{
}

/// On a lower-case letter ROT13 yields a lower-case letter, and a second
/// application gives the letter back. A letter of the first half of the
/// alphabet goes thirteen up, one of the second half thirteen down.
pub proof fn lemma_rot13_lower(b: u8)
    requires
        is_lower(b),
    ensures
        is_lower(rot13(b)),
        rot13(rot13(b)) == b,
        rot13(b) == if b < LOWER_A + SHIFT {
            b + SHIFT
        } else {
            b - SHIFT
        },
{
}

/// A byte that is no ASCII letter is left as it is.
pub proof fn lemma_rot13_other(b: u8)
    requires
        !is_upper(b),
        !is_lower(b),
    ensures
        rot13(b) == b,
{
}

/// ROT13 undoes itself on every byte.
pub proof fn lemma_rot13_involution(b: u8)
    ensures
        rot13(rot13(b)) == b,
{
}

/// The ROT13 image of a byte sequence: every byte rotated, in place.
pub open spec fn rot13_seq(s: Seq<u8>) -> Seq<u8> {
    s.map_values(|b: u8| rot13(b))
}

/// Rotates every byte of `buf` into a fresh buffer of the same length. Each
/// byte of the result depends on the byte at the same place in `buf` and on
/// nothing else.
pub fn rotate_bytes(buf: &[u8]) -> (out: Vec<u8>)
    ensures
        out@ == rot13_seq(buf@),
        out@.len() == buf@.len(),
{
    let mut out: Vec<u8> = Vec::with_capacity(buf.len());
    let mut i: usize = 0;
    while i < buf.len()
        invariant
            i <= buf@.len(),
            out@ == rot13_seq(buf@.take(i as int)),
        decreases buf@.len() - i,
    {
        out.push(rotate(buf[i]));
        i += 1;
    }
    assert(buf@.take(i as int) == buf@);
    out
}

/// Rotating a sequence keeps its length and rotates each byte where it
/// stands: what comes out at a place depends on the byte at that place alone.
pub proof fn lemma_rot13_seq_pointwise(s: Seq<u8>)
    ensures
        rot13_seq(s).len() == s.len(),
        forall|i: int| 0 <= i < s.len() ==> #[trigger] rot13_seq(s)[i] == rot13(s[i]),
{
}

/// ROT13 undoes itself on every byte sequence.
pub proof fn lemma_rot13_seq_involution(s: Seq<u8>)
    ensures
        rot13_seq(rot13_seq(s)) == s,
{
}

/// Rotating a concatenation is concatenating the rotations: a stream may be
/// cut into buffers anywhere without changing what comes out.
pub proof fn lemma_rot13_seq_concat(s: Seq<u8>, t: Seq<u8>)
    ensures
        rot13_seq(s + t) == rot13_seq(s) + rot13_seq(t),
{
}

/// Rotating a prefix is taking the prefix of the rotation: the first `n`
/// rotated bytes stand for the first `n` bytes that went in.
pub proof fn lemma_rot13_seq_take(s: Seq<u8>, n: int)
    requires
        0 <= n <= s.len(),
    ensures
        rot13_seq(s.take(n)) == rot13_seq(s).take(n),
{
}

} // verus!

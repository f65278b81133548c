//! Little-endian 64-bit words: the one integer shape of the wire format.
use vstd::prelude::*;

verus! {

/// The eight bytes of `v`, least significant first.
pub open spec fn le_bytes(v: u64) -> Seq<u8> {
    seq![
        v as u8,
        (v >> 8u64) as u8,
        (v >> 16u64) as u8,
        (v >> 24u64) as u8,
        (v >> 32u64) as u8,
        (v >> 40u64) as u8,
        (v >> 48u64) as u8,
        (v >> 56u64) as u8,
    ]
}

/// The word whose little-endian bytes are the first eight of `b`.
pub open spec fn le_value(b: Seq<u8>) -> u64
    recommends
        b.len() >= 8,
{
    (b[0] as u64) | ((b[1] as u64) << 8u64) | ((b[2] as u64) << 16u64) | ((b[3] as u64) << 24u64)
        | ((b[4] as u64) << 32u64) | ((b[5] as u64) << 40u64) | ((b[6] as u64) << 48u64) | ((
    b[7] as u64) << 56u64)
}

/// Reading back the bytes of a word gives the word.
pub proof fn lemma_value_of_bytes(v: u64)
    ensures
        le_value(le_bytes(v)) == v,
{
    assert(v == ((v as u8) as u64) | ((((v >> 8u64) as u8) as u64) << 8u64) | ((((v >> 16u64) as u8)
        as u64) << 16u64) | ((((v >> 24u64) as u8) as u64) << 24u64) | ((((v >> 32u64) as u8) as u64)
        << 32u64) | ((((v >> 40u64) as u8) as u64) << 40u64) | ((((v >> 48u64) as u8) as u64)
        << 48u64) | ((((v >> 56u64) as u8) as u64) << 56u64)) by (bit_vector);
}

/// Writing out the word read from eight bytes gives those bytes back.
pub proof fn lemma_bytes_of_value(b: Seq<u8>)
    requires
        b.len() == 8,
    ensures
        le_bytes(le_value(b)) == b,
{
    let (b0, b1, b2, b3) = (b[0], b[1], b[2], b[3]);
    let (b4, b5, b6, b7) = (b[4], b[5], b[6], b[7]);
    let v = le_value(b);
    assert(v == (b0 as u64) | ((b1 as u64) << 8u64) | ((b2 as u64) << 16u64) | ((b3 as u64)
        << 24u64) | ((b4 as u64) << 32u64) | ((b5 as u64) << 40u64) | ((b6 as u64) << 48u64) | ((
    b7 as u64) << 56u64));
    assert(v as u8 == b0 && (v >> 8u64) as u8 == b1 && (v >> 16u64) as u8 == b2 && (v >> 24u64) as u8
        == b3 && (v >> 32u64) as u8 == b4 && (v >> 40u64) as u8 == b5 && (v >> 48u64) as u8 == b6
        && (v >> 56u64) as u8 == b7) by (bit_vector)
        requires
            v == (b0 as u64) | ((b1 as u64) << 8u64) | ((b2 as u64) << 16u64) | ((b3 as u64)
                << 24u64) | ((b4 as u64) << 32u64) | ((b5 as u64) << 40u64) | ((b6 as u64)
                << 48u64) | ((b7 as u64) << 56u64),
    ;
    assert(le_bytes(v) =~= b);
}

/// A word is zero exactly when all eight of its bytes are.
pub proof fn lemma_zero_word(b: Seq<u8>)
    requires
        b.len() == 8,
    ensures
        le_value(b) == 0 <==> b == le_bytes(0),
{
    lemma_bytes_of_value(b);
    lemma_value_of_bytes(0);
}

/// Reads the word stored at `at..at + 8` of `b`.
pub fn read_word(b: &[u8], at: usize) -> (r: u64)
    requires
        at + 8 <= b@.len(),
    ensures
        r == le_value(b@.subrange(at as int, at + 8)),
{
    proof {
        let w = b@.subrange(at as int, at + 8);
        assert(w[0] == b[at as int] && w[1] == b[at + 1] && w[2] == b[at + 2] && w[3] == b[at + 3]);
        assert(w[4] == b[at + 4] && w[5] == b[at + 5] && w[6] == b[at + 6] && w[7] == b[at + 7]);
    }
    (b[at] as u64) | ((b[at + 1] as u64) << 8u64) | ((b[at + 2] as u64) << 16u64) | ((b[at + 3]
        as u64) << 24u64) | ((b[at + 4] as u64) << 32u64) | ((b[at + 5] as u64) << 40u64) | ((b[at
        + 6] as u64) << 48u64) | ((b[at + 7] as u64) << 56u64)
}

/// Stores the eight bytes of `v` at `at..at + 8` of `out`, leaving the rest as it was.
pub fn write_word<const N: usize>(out: &mut [u8; N], at: usize, v: u64)
    requires
        at + 8 <= N,
    ensures
        final(out)@ == old(out)@.subrange(0, at as int) + le_bytes(v) + old(out)@.subrange(
            at + 8,
            N as int,
        ),
{
    out[at] = v as u8;
    out[at + 1] = (v >> 8u64) as u8;
    out[at + 2] = (v >> 16u64) as u8;
    out[at + 3] = (v >> 24u64) as u8;
    out[at + 4] = (v >> 32u64) as u8;
    out[at + 5] = (v >> 40u64) as u8;
    out[at + 6] = (v >> 48u64) as u8;
    out[at + 7] = (v >> 56u64) as u8;
    assert(out@ =~= old(out)@.subrange(0, at as int) + le_bytes(v) + old(out)@.subrange(
        at + 8,
        N as int,
    ));
}

} // verus!

//! The message record and its fixed little-endian wire layout.
//!
//! A record is `MESSAGE_LEN` bytes: the discriminator word, the 32-byte sender
//! id, the size word, the priority-fee word (zero when no fee is present) and
//! the 1024-byte body, in that order and with no padding.
use vstd::prelude::*;
use crate::word::{le_bytes, le_value, lemma_bytes_of_value, lemma_value_of_bytes, lemma_zero_word, read_word, write_word};

verus! {

/// Width of the sender id.
pub const SENDER_ID_LEN: usize = 32;

/// Width of the message body.
pub const DATA_LEN: usize = 1024;

pub const DISCRIMINATOR_OFFSET: usize = 0;

pub const SENDER_ID_OFFSET: usize = 8;

pub const SIZE_OFFSET: usize = 40;

pub const PRIORITY_FEE_OFFSET: usize = 48;

pub const DATA_OFFSET: usize = 56;

/// Length of every encoded record.
pub const MESSAGE_LEN: usize = 1080;

/// A message record.
///
/// `priority_fee` is `None` when no fee is bid; a present fee is never zero
/// (see `wf`), since zero is how the wire layout says "absent".
#[derive(Clone, Copy, Debug, PartialEq, Eq)]
pub struct Messege {
    /// Record type tag, carried as is: the envelope byte of an instruction,
    /// not this field, selects the operation.
    pub discriminator: u64,
    /// Identity of the originator, opaque bytes.
    pub sender_id: [u8; SENDER_ID_LEN],
    /// Declared payload size, advisory and not checked against `data`.
    pub size: u64,
    /// Fee bid, if any.
    pub priority_fee: Option<u64>,
    /// Message body.
    pub data: [u8; DATA_LEN],
}

/// The mathematical content of a `Messege`.
pub struct MessegeView {
    pub discriminator: u64,
    pub sender_id: Seq<u8>,
    pub size: u64,
    pub priority_fee: Option<u64>,
    pub data: Seq<u8>,
}

impl MessegeView {
    /// The fields have their fixed widths and a present fee is non-zero.
    pub open spec fn wf(self) -> bool {
        &&& self.sender_id.len() == SENDER_ID_LEN
        &&& self.data.len() == DATA_LEN
        &&& self.priority_fee != Some(0u64)
    }
}

impl View for Messege {
    type V = MessegeView;

    open spec fn view(&self) -> MessegeView {
        MessegeView {
            discriminator: self.discriminator,
            sender_id: self.sender_id@,
            size: self.size,
            priority_fee: self.priority_fee,
            data: self.data@,
        }
    }
}

impl Messege {
    /// Length of every encoded record.
    pub const LEN: usize = MESSAGE_LEN;

    /// A present fee is non-zero.
    pub open spec fn wf(&self) -> bool {
        self@.wf()
    }
}

/// Why a buffer is not a record.
#[derive(Clone, Copy, Debug, PartialEq, Eq)]
pub enum CodecError {
    /// The buffer is not exactly `MESSAGE_LEN` bytes long.
    SizeMismatch,
    /// The fee slot claims a fee that is present and zero. The layout writes an
    /// absent fee as the zero word, so no eight bytes say this and `decode`
    /// never returns it; it completes the set of ways a record can be malformed.
    InvalidOptionalEncoding,
}

/// The word stored in the fee slot: the fee, or zero when there is none.
pub open spec fn fee_word(fee: Option<u64>) -> u64 {
    match fee {
        Some(v) => v,
        None => 0,
    }
}

/// The fee that a fee-slot word stands for.
pub open spec fn fee_of_word(w: u64) -> Option<u64> {
    if w == 0 {
        None
    } else {
        Some(w)
    }
}

/// The bytes of a record.
pub open spec fn encode_view(m: MessegeView) -> Seq<u8> {
    le_bytes(m.discriminator) + m.sender_id + le_bytes(m.size) + le_bytes(fee_word(m.priority_fee))
        + m.data
}

/// The record that a buffer holds, or why it holds none.
pub open spec fn decode_view(b: Seq<u8>) -> Result<MessegeView, CodecError> {
    if b.len() != MESSAGE_LEN {
        Err(CodecError::SizeMismatch)
    } else {
        Ok(
            MessegeView {
                discriminator: le_value(b.subrange(DISCRIMINATOR_OFFSET as int, SENDER_ID_OFFSET as int)),
                sender_id: b.subrange(SENDER_ID_OFFSET as int, SIZE_OFFSET as int),
                size: le_value(b.subrange(SIZE_OFFSET as int, PRIORITY_FEE_OFFSET as int)),
                priority_fee: fee_of_word(
                    le_value(b.subrange(PRIORITY_FEE_OFFSET as int, DATA_OFFSET as int)),
                ),
                data: b.subrange(DATA_OFFSET as int, MESSAGE_LEN as int),
            },
        )
    }
}

/// The view of a decoding outcome.
pub open spec fn decoded_view(r: Result<Messege, CodecError>) -> Result<MessegeView, CodecError> {
    match r {
        Ok(m) => Ok(m@),
        Err(e) => Err(e),
    }
}

/// Copies `src` into `out` at `at..at + M`, leaving the rest as it was.
fn put_bytes<const N: usize, const M: usize>(out: &mut [u8; N], at: usize, src: &[u8; M])
    requires
        at + M <= N,
    ensures
        final(out)@ == old(out)@.subrange(0, at as int) + src@ + old(out)@.subrange(
            at + M,
            N as int,
        ),
{
    let mut k: usize = 0;
    while k < M
        invariant
            k <= M,
            at + M <= N,
            out@.len() == N,
            forall|i: int|
                0 <= i < N ==> #[trigger] out@[i] == if at <= i < at + k {
                    src@[i - at]
                } else {
                    old(out)@[i]
                },
        decreases M - k,
    {
        out[at + k] = src[k];
        k = k + 1;
    }
    assert(out@ =~= old(out)@.subrange(0, at as int) + src@ + old(out)@.subrange(
        at + M,
        N as int,
    ));
}

/// The `M` bytes of `b` at `at..at + M`.
fn take_bytes<const M: usize>(b: &[u8], at: usize) -> (r: [u8; M])
    requires
        at + M <= b@.len(),
    ensures
        r@ == b@.subrange(at as int, at + M),
{
    let mut r: [u8; M] = vstd::array::array_fill_for_copy_types(0u8);
    let n = b.len();
    let mut k: usize = 0;
    while k < M
        invariant
            k <= M,
            n == b@.len(),
            at + M <= b@.len(),
            r@.len() == M,
            forall|i: int| 0 <= i < k ==> #[trigger] r@[i] == b@[at + i],
        decreases M - k,
    {
        r[k] = b[at + k];
        k = k + 1;
    }
    assert(r@ =~= b@.subrange(at as int, at + M));
    r
}

/// The canonical bytes of `m`: always `MESSAGE_LEN` of them, the same for
/// equal records.
pub fn encode(m: Messege) -> (r: [u8; MESSAGE_LEN])
    ensures
        r@ == encode_view(m@),
        r@.len() == MESSAGE_LEN,
{
    let mut out: [u8; MESSAGE_LEN] = vstd::array::array_fill_for_copy_types(0u8);
    write_word(&mut out, DISCRIMINATOR_OFFSET, m.discriminator);
    put_bytes(&mut out, SENDER_ID_OFFSET, &m.sender_id);
    write_word(&mut out, SIZE_OFFSET, m.size);
    let fee: u64 = match m.priority_fee {
        Some(v) => v,
        None => 0,
    };
    write_word(&mut out, PRIORITY_FEE_OFFSET, fee);
    put_bytes(&mut out, DATA_OFFSET, &m.data);
    assert(out@ =~= encode_view(m@));
    out
}

/// Reads a record out of `bytes`: fails with `SizeMismatch` exactly when
/// `bytes` is not `MESSAGE_LEN` long, and otherwise returns the fields found
/// at their fixed offsets, with a zero fee word read as "no fee".
pub fn decode(bytes: &[u8]) -> (r: Result<Messege, CodecError>)
    ensures
        decoded_view(r) == decode_view(bytes@),
        r is Err <==> bytes@.len() != MESSAGE_LEN,
        r matches Err(e) ==> e == CodecError::SizeMismatch,
        r matches Ok(m) ==> m.wf(),
{
    if bytes.len() != MESSAGE_LEN {
        return Err(CodecError::SizeMismatch);
    }
    let discriminator = read_word(bytes, DISCRIMINATOR_OFFSET);
    let sender_id: [u8; SENDER_ID_LEN] = take_bytes(bytes, SENDER_ID_OFFSET);
    let size = read_word(bytes, SIZE_OFFSET);
    let fee = read_word(bytes, PRIORITY_FEE_OFFSET);
    let data: [u8; DATA_LEN] = take_bytes(bytes, DATA_OFFSET);
    let priority_fee = if fee == 0 {
        None
    } else {
        Some(fee)
    };
    let m = Messege { discriminator, sender_id, size, priority_fee, data };
    assert(m@ == decode_view(bytes@)->Ok_0);
    Ok(m)
}

/// Decoding the bytes of a well-formed record gives that record back.
pub proof fn lemma_round_trip(m: MessegeView)
    requires
        m.wf(),
    ensures
        decode_view(encode_view(m)) == Ok::<MessegeView, CodecError>(m),
{
    let b = encode_view(m);
    lemma_value_of_bytes(m.discriminator);
    lemma_value_of_bytes(m.size);
    lemma_value_of_bytes(fee_word(m.priority_fee));
    assert(b.subrange(DISCRIMINATOR_OFFSET as int, SENDER_ID_OFFSET as int) =~= le_bytes(
        m.discriminator,
    ));
    assert(b.subrange(SENDER_ID_OFFSET as int, SIZE_OFFSET as int) =~= m.sender_id);
    assert(b.subrange(SIZE_OFFSET as int, PRIORITY_FEE_OFFSET as int) =~= le_bytes(m.size));
    assert(b.subrange(PRIORITY_FEE_OFFSET as int, DATA_OFFSET as int) =~= le_bytes(
        fee_word(m.priority_fee),
    ));
    assert(b.subrange(DATA_OFFSET as int, MESSAGE_LEN as int) =~= m.data);
}

/// Decoding is canonical: a buffer that decodes is exactly the encoding of
/// the well-formed record it decodes to.
pub proof fn lemma_decode_canonical(b: Seq<u8>)
    requires
        decode_view(b) is Ok,
    ensures
        decode_view(b)->Ok_0.wf(),
        encode_view(decode_view(b)->Ok_0) == b,
{
    let w0 = b.subrange(DISCRIMINATOR_OFFSET as int, SENDER_ID_OFFSET as int);
    let w1 = b.subrange(SIZE_OFFSET as int, PRIORITY_FEE_OFFSET as int);
    let w2 = b.subrange(PRIORITY_FEE_OFFSET as int, DATA_OFFSET as int);
    lemma_bytes_of_value(w0);
    lemma_bytes_of_value(w1);
    lemma_bytes_of_value(w2);
    lemma_zero_word(w2);
    assert(le_bytes(fee_word(fee_of_word(le_value(w2)))) == w2);
    assert(encode_view(decode_view(b)->Ok_0) =~= b);
}

/// A decoded fee is never zero, and it is absent exactly when the fee slot
/// holds eight zero bytes.
pub proof fn lemma_fee_slot(b: Seq<u8>)
    requires
        b.len() == MESSAGE_LEN,
    ensures
        decode_view(b)->Ok_0.priority_fee != Some(0u64),
        decode_view(b)->Ok_0.priority_fee is None <==> b.subrange(
            PRIORITY_FEE_OFFSET as int,
            DATA_OFFSET as int,
        ) == le_bytes(0),
{
    lemma_zero_word(b.subrange(PRIORITY_FEE_OFFSET as int, DATA_OFFSET as int));
}

} // verus!

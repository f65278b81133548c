//! Routing of instruction envelopes.
//!
//! An envelope is one instruction byte followed by an encoded record. The byte
//! alone selects the operation (0 Initialize, 1 Close, 2 Update); the record's
//! own discriminator field is carried through untouched. Routing is pure: it
//! yields the operation and the validated record, and running the operation is
//! left to the caller.
use vstd::prelude::*;
use crate::codec::{decode, decode_view, CodecError, Messege, MessegeView};

verus! {

/// The closed set of operations.
#[derive(Clone, Copy, Debug, PartialEq, Eq)]
pub enum Instruction {
    /// Allocation of a new message slot.
    Initialize,
    /// Retirement of a message; needs a fee.
    Close,
    /// Fee collection on a message; needs a fee.
    Update,
}

/// The operation named by an instruction byte, if any.
pub open spec fn instruction_of(code: u8) -> Option<Instruction> {
    if code == 0 {
        Some(Instruction::Initialize)
    } else if code == 1 {
        Some(Instruction::Close)
    } else if code == 2 {
        Some(Instruction::Update)
    } else {
        None
    }
}

impl Instruction {
    /// Whether the operation refuses a record without a fee.
    pub open spec fn needs_fee(self) -> bool {
        self != Instruction::Initialize
    }

    /// The operation named by `code`, or `None` for a byte outside the set.
    pub fn from_code(code: u8) -> (r: Option<Instruction>)
        ensures
            r == instruction_of(code),
    {
        if code == 0 {
            Some(Instruction::Initialize)
        } else if code == 1 {
            Some(Instruction::Close)
        } else if code == 2 {
            Some(Instruction::Update)
        } else {
            None
        }
    }

    /// The instruction byte of the operation.
    pub fn code(self) -> (r: u8)
        ensures
            instruction_of(r) == Some(self),
    {
        match self {
            Instruction::Initialize => 0,
            Instruction::Close => 1,
            Instruction::Update => 2,
        }
    }
}

/// Why an envelope was refused.
#[derive(Clone, Copy, Debug, PartialEq, Eq)]
pub enum DispatchError {
    /// There is no instruction byte.
    EmptyInput,
    /// The instruction byte names no operation.
    UnknownInstruction(u8),
    /// The payload is not a record.
    Codec(CodecError),
    /// The operation needs a fee and the record has none.
    MissingPriorityFee,
}

/// A routed envelope: the operation and the record its handler receives.
#[derive(Clone, Copy, Debug, PartialEq, Eq)]
pub struct Command {
    pub instruction: Instruction,
    pub message: Messege,
}

/// What the handler of `ix` receives for `payload`, or why it is not called.
pub open spec fn handled(ix: Instruction, payload: Seq<u8>) -> Result<MessegeView, DispatchError> {
    match decode_view(payload) {
        Err(e) => Err(DispatchError::Codec(e)),
        Ok(m) => if ix.needs_fee() && m.priority_fee is None {
            Err(DispatchError::MissingPriorityFee)
        } else {
            Ok(m)
        },
    }
}

/// Where instruction byte `code` with `payload` is routed, or why it is not.
pub open spec fn routed(code: u8, payload: Seq<u8>) -> Result<(Instruction, MessegeView), DispatchError> {
    match instruction_of(code) {
        None => Err(DispatchError::UnknownInstruction(code)),
        Some(ix) => match handled(ix, payload) {
            Ok(m) => Ok((ix, m)),
            Err(e) => Err(e),
        },
    }
}

/// Where the envelope `raw` is routed, or why it is not.
pub open spec fn dispatched(raw: Seq<u8>) -> Result<(Instruction, MessegeView), DispatchError> {
    if raw.len() == 0 {
        Err(DispatchError::EmptyInput)
    } else {
        routed(raw[0], raw.drop_first())
    }
}

/// The view of a handler's input.
pub open spec fn message_result_view(r: Result<Messege, DispatchError>) -> Result<
    MessegeView,
    DispatchError,
> {
    match r {
        Ok(m) => Ok(m@),
        Err(e) => Err(e),
    }
}

/// The view of a routing outcome.
pub open spec fn command_result_view(r: Result<Command, DispatchError>) -> Result<
    (Instruction, MessegeView),
    DispatchError,
> {
    match r {
        Ok(c) => Ok((c.instruction, c.message@)),
        Err(e) => Err(e),
    }
}

/// Decodes `data` and, where `ix` needs one, checks that the record has a fee.
fn validate(ix: Instruction, data: &[u8]) -> (r: Result<Messege, DispatchError>)
    ensures
        message_result_view(r) == handled(ix, data@),
{
    match decode(data) {
        Err(e) => Err(DispatchError::Codec(e)),
        Ok(m) => {
            if !matches!(ix, Instruction::Initialize) && m.priority_fee.is_none() {
                Err(DispatchError::MissingPriorityFee)
            } else {
                Ok(m)
            }
        },
    }
}

/// The record for an Initialize: any record, with or without a fee.
pub fn initialize_messege(data: &[u8]) -> (r: Result<Messege, DispatchError>)
    ensures
        message_result_view(r) == handled(Instruction::Initialize, data@),
{
    validate(Instruction::Initialize, data)
}

/// The record for a Close: one that has a fee.
pub fn close_messege(data: &[u8]) -> (r: Result<Messege, DispatchError>)
    ensures
        message_result_view(r) == handled(Instruction::Close, data@),
{
    validate(Instruction::Close, data)
}

/// The record for an Update: one that has a fee.
pub fn update_messege(data: &[u8]) -> (r: Result<Messege, DispatchError>)
    ensures
        message_result_view(r) == handled(Instruction::Update, data@),
{
    validate(Instruction::Update, data)
}

/// Routes instruction byte `discriminator` with the encoded record `data`.
pub fn process_instruction(discriminator: u8, data: &[u8]) -> (r: Result<Command, DispatchError>)
    ensures
        command_result_view(r) == routed(discriminator, data@),
{
    let instruction = match Instruction::from_code(discriminator) {
        Some(ix) => ix,
        None => {
            return Err(DispatchError::UnknownInstruction(discriminator));
        },
    };
    let checked = match instruction {
        Instruction::Initialize => initialize_messege(data),
        Instruction::Close => close_messege(data),
        Instruction::Update => update_messege(data),
    };
    match checked {
        Ok(message) => Ok(Command { instruction, message }),
        Err(e) => Err(e),
    }
}

/// Routes the envelope `raw`: its first byte names the operation, the rest is
/// the encoded record.
pub fn send_instruction(raw: &[u8]) -> (r: Result<Command, DispatchError>)
    ensures
        command_result_view(r) == dispatched(raw@),
{
    if raw.len() == 0 {
        return Err(DispatchError::EmptyInput);
    }
    let (head, payload) = raw.split_at(1);
    assert(payload@ =~= raw@.drop_first());
    process_instruction(head[0], payload)
}

/// A leading byte outside the instruction set is refused as unknown, whatever
/// payload follows it.
pub proof fn lemma_unknown_instruction(code: u8, payload: Seq<u8>)
    requires
        instruction_of(code) is None,
    ensures
        dispatched(seq![code] + payload) == Err::<(Instruction, MessegeView), DispatchError>(
            DispatchError::UnknownInstruction(code),
        ),
{
    assert((seq![code] + payload)[0] == code);
}

/// Close and Update refuse a record without a fee before any handler runs,
/// and route a record that has one.
pub proof fn lemma_fee_requirement(code: u8, payload: Seq<u8>)
    requires
        instruction_of(code) == Some(Instruction::Close) || instruction_of(code) == Some(
            Instruction::Update,
        ),
        decode_view(payload) is Ok,
    ensures
        decode_view(payload)->Ok_0.priority_fee is None ==> dispatched(seq![code] + payload) == Err::<
            (Instruction, MessegeView),
            DispatchError,
        >(DispatchError::MissingPriorityFee),
        decode_view(payload)->Ok_0.priority_fee is Some ==> dispatched(seq![code] + payload) == Ok::<
            (Instruction, MessegeView),
            DispatchError,
        >((instruction_of(code)->Some_0, decode_view(payload)->Ok_0)),
{
    assert((seq![code] + payload)[0] == code);
    assert((seq![code] + payload).drop_first() =~= payload);
}

} // verus!

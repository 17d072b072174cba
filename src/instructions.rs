use vstd::prelude::*;
use vstd::utf8::encode_utf8;
use crate::address::Address;
use crate::error::NescrowError;
use crate::wire::{
    i64_at, key_at, le_i64, le_u64, lemma_le_lengths, read_i64, read_key, read_text, read_u64,
    text_at, text_field, text_len_at, u64_at, write_i64, write_key, write_text, write_u64,
};

verus! {

broadcast use vstd::utf8::encode_utf8_decode_utf8, vstd::utf8::encode_utf8_valid_utf8;

pub const CREATE_ESCROW_TAG: u8 = 0;
pub const ACCEPT_ESCROW_TAG: u8 = 1;
pub const COMPLETE_ESCROW_TAG: u8 = 2;
pub const CANCEL_ESCROW_TAG: u8 = 3;
pub const EXTEND_ESCROW_TAG: u8 = 4;

#[derive(Debug, Clone)]
pub struct CreateEscrowArgs {
    /// Counter that makes the escrow address unique for its creator.
    pub counter: u64,
    /// The stake, in the ledger's smallest unit.
    pub amount: u64,
    pub description: String,
    /// When the escrow expires (Unix timestamp).
    pub expiry_time: i64,
}

#[derive(Debug, Clone, Copy)]
pub struct AcceptEscrowArgs {
    pub creator: Address,
    pub counter: u64,
}

#[derive(Debug, Clone, Copy)]
pub struct CompleteEscrowArgs {
    pub creator: Address,
    pub counter: u64,
}

#[derive(Debug, Clone, Copy, PartialEq, Eq, Structural)]
pub struct CancelEscrowArgs {
    pub counter: u64,
}

#[derive(Debug, Clone, Copy, PartialEq, Eq, Structural)]
pub struct ExtendEscrowArgs {
    pub counter: u64,
    /// The new expiry time (Unix timestamp).
    pub new_expiry_time: i64,
}

/// The five operations, each with its arguments.
#[derive(Debug, Clone)]
pub enum NescrowInstruction {
    CreateEscrow(CreateEscrowArgs),
    AcceptEscrow(AcceptEscrowArgs),
    CompleteEscrow(CompleteEscrowArgs),
    CancelEscrow(CancelEscrowArgs),
    ExtendEscrow(ExtendEscrowArgs),
}

/// The mathematical content of an instruction.
pub ghost enum InstructionView {
    Create { counter: u64, amount: u64, description: Seq<char>, expiry_time: i64 },
    Accept { creator: Seq<u8>, counter: u64 },
    Complete { creator: Seq<u8>, counter: u64 },
    Cancel { counter: u64 },
    Extend { counter: u64, new_expiry_time: i64 },
}

impl View for NescrowInstruction {
    type V = InstructionView;

    open spec fn view(&self) -> InstructionView {
        match self {
            NescrowInstruction::CreateEscrow(a) => InstructionView::Create {
                counter: a.counter,
                amount: a.amount,
                description: a.description@,
                expiry_time: a.expiry_time,
            },
            NescrowInstruction::AcceptEscrow(a) => InstructionView::Accept {
                creator: a.creator@,
                counter: a.counter,
            },
            NescrowInstruction::CompleteEscrow(a) => InstructionView::Complete {
                creator: a.creator@,
                counter: a.counter,
            },
            NescrowInstruction::CancelEscrow(a) => InstructionView::Cancel { counter: a.counter },
            NescrowInstruction::ExtendEscrow(a) => InstructionView::Extend {
                counter: a.counter,
                new_expiry_time: a.new_expiry_time,
            },
        }
    }
}

/// The instruction that a payload holds: a tag byte, then the operation's
/// fields in order, using every byte.
pub open spec fn decode_instruction(b: Seq<u8>) -> Option<InstructionView> {
    if b.len() == 0 {
        None
    } else if b[0] == CREATE_ESCROW_TAG {
        if b.len() >= 21 && text_at(b, 17) is Some && 17 + text_len_at(b, 17) + 8 == b.len() {
            Some(
                InstructionView::Create {
                    counter: u64_at(b, 1),
                    amount: u64_at(b, 9),
                    description: text_at(b, 17)->Some_0,
                    expiry_time: i64_at(b, 17 + text_len_at(b, 17)),
                },
            )
        } else {
            None
        }
    } else if b[0] == ACCEPT_ESCROW_TAG {
        if b.len() == 41 {
            Some(InstructionView::Accept { creator: key_at(b, 1), counter: u64_at(b, 33) })
        } else {
            None
        }
    } else if b[0] == COMPLETE_ESCROW_TAG {
        if b.len() == 41 {
            Some(InstructionView::Complete { creator: key_at(b, 1), counter: u64_at(b, 33) })
        } else {
            None
        }
    } else if b[0] == CANCEL_ESCROW_TAG {
        if b.len() == 9 {
            Some(InstructionView::Cancel { counter: u64_at(b, 1) })
        } else {
            None
        }
    } else if b[0] == EXTEND_ESCROW_TAG {
        if b.len() == 17 {
            Some(
                InstructionView::Extend { counter: u64_at(b, 1), new_expiry_time: i64_at(b, 9) },
            )
        } else {
            None
        }
    } else {
        None
    }
}

/// The payload of an instruction.
pub open spec fn encode_instruction(i: InstructionView) -> Seq<u8> {
    match i {
        InstructionView::Create { counter, amount, description, expiry_time } => seq![
            CREATE_ESCROW_TAG,
        ] + le_u64(counter) + le_u64(amount) + text_field(description) + le_i64(expiry_time),
        InstructionView::Accept { creator, counter } => seq![ACCEPT_ESCROW_TAG] + creator
            + le_u64(counter),
        InstructionView::Complete { creator, counter } => seq![COMPLETE_ESCROW_TAG] + creator
            + le_u64(counter),
        InstructionView::Cancel { counter } => seq![CANCEL_ESCROW_TAG] + le_u64(counter),
        InstructionView::Extend { counter, new_expiry_time } => seq![EXTEND_ESCROW_TAG] + le_u64(
            counter,
        ) + le_i64(new_expiry_time),
    }
}

/// An instruction whose payload can be written: keys of 32 bytes and a
/// description whose length fits its prefix.
pub open spec fn encodable_instruction(i: InstructionView) -> bool {
    match i {
        InstructionView::Create { description, .. } => encode_utf8(description).len()
            <= u32::MAX,
        InstructionView::Accept { creator, .. } => creator.len() == 32,
        InstructionView::Complete { creator, .. } => creator.len() == 32,
        _ => true,
    }
}

/// Decoding the payload of any writable instruction gives that instruction back.
pub proof fn lemma_instruction_round_trip(i: InstructionView)
    requires
        encodable_instruction(i),
    ensures
        decode_instruction(encode_instruction(i)) == Some(i),
{
    let e = encode_instruction(i);
    match i {
        InstructionView::Create { counter, amount, description, expiry_time } => {
            let n = encode_utf8(description).len();
            lemma_le_lengths(counter, expiry_time, n as u32);
            lemma_le_lengths(amount, 0, 0);
            assert(e.subrange(1, 9) =~= le_u64(counter));
            assert(e.subrange(9, 17) =~= le_u64(amount));
            assert(e.subrange(17, 21) =~= crate::wire::le_u32(n as u32));
            assert(text_len_at(e, 17) == 4 + n);
            assert(e.subrange(21, 21 + n as int) =~= encode_utf8(description));
            assert(e.subrange(21 + n as int, 29 + n as int) =~= le_i64(expiry_time));
        },
        InstructionView::Accept { creator, counter } => {
            lemma_le_lengths(counter, 0, 0);
            assert(e.subrange(1, 33) =~= creator);
            assert(e.subrange(33, 41) =~= le_u64(counter));
        },
        InstructionView::Complete { creator, counter } => {
            lemma_le_lengths(counter, 0, 0);
            assert(e.subrange(1, 33) =~= creator);
            assert(e.subrange(33, 41) =~= le_u64(counter));
        },
        InstructionView::Cancel { counter } => {
            lemma_le_lengths(counter, 0, 0);
            assert(e.subrange(1, 9) =~= le_u64(counter));
        },
        InstructionView::Extend { counter, new_expiry_time } => {
            lemma_le_lengths(counter, new_expiry_time, 0);
            assert(e.subrange(1, 9) =~= le_u64(counter));
            assert(e.subrange(9, 17) =~= le_i64(new_expiry_time));
        },
    }
}

impl NescrowInstruction {
    /// Decodes an instruction payload; any malformed payload is an
    /// `InvalidInstruction` error.
    pub fn unpack(input: &[u8]) -> (r: Result<NescrowInstruction, NescrowError>)
        ensures
            r is Ok <==> decode_instruction(input@) is Some,
            r is Ok ==> decode_instruction(input@) == Some(r->Ok_0@),
            r is Err ==> r == Err::<NescrowInstruction, NescrowError>(
                NescrowError::InvalidInstruction,
            ),
    {
        let len = input.len();
        if len == 0 {
            return Err(NescrowError::InvalidInstruction);
        }
        let tag = input[0];
        if tag == CREATE_ESCROW_TAG {
            if len < 21 {
                return Err(NescrowError::InvalidInstruction);
            }
            let (description, p) = match read_text(input, 17) {
                Some(x) => x,
                None => return Err(NescrowError::InvalidInstruction),
            };
            if p > len - 8 || p + 8 != len {
                return Err(NescrowError::InvalidInstruction);
            }
            let args = CreateEscrowArgs {
                counter: read_u64(input, 1),
                amount: read_u64(input, 9),
                description,
                expiry_time: read_i64(input, p),
            };
            Ok(NescrowInstruction::CreateEscrow(args))
        } else if tag == ACCEPT_ESCROW_TAG || tag == COMPLETE_ESCROW_TAG {
            if len != 41 {
                return Err(NescrowError::InvalidInstruction);
            }
            let creator = read_key(input, 1);
            let counter = read_u64(input, 33);
            if tag == ACCEPT_ESCROW_TAG {
                Ok(NescrowInstruction::AcceptEscrow(AcceptEscrowArgs { creator, counter }))
            } else {
                Ok(NescrowInstruction::CompleteEscrow(CompleteEscrowArgs { creator, counter }))
            }
        } else if tag == CANCEL_ESCROW_TAG {
            if len != 9 {
                return Err(NescrowError::InvalidInstruction);
            }
            Ok(NescrowInstruction::CancelEscrow(CancelEscrowArgs { counter: read_u64(input, 1) }))
        } else if tag == EXTEND_ESCROW_TAG {
            if len != 17 {
                return Err(NescrowError::InvalidInstruction);
            }
            let args = ExtendEscrowArgs {
                counter: read_u64(input, 1),
                new_expiry_time: read_i64(input, 9),
            };
            Ok(NescrowInstruction::ExtendEscrow(args))
        } else {
            Err(NescrowError::InvalidInstruction)
        }
    }

    /// Encodes the instruction as a payload, for callers building requests.
    pub fn pack(&self) -> (r: Vec<u8>)
        requires
            encodable_instruction(self@),
        ensures
            r@ == encode_instruction(self@),
    {
        let mut out: Vec<u8> = Vec::new();
        match self {
            NescrowInstruction::CreateEscrow(a) => {
                out.push(CREATE_ESCROW_TAG);
                write_u64(&mut out, a.counter);
                write_u64(&mut out, a.amount);
                write_text(&mut out, &a.description);
                write_i64(&mut out, a.expiry_time);
            },
            NescrowInstruction::AcceptEscrow(a) => {
                out.push(ACCEPT_ESCROW_TAG);
                write_key(&mut out, &a.creator);
                write_u64(&mut out, a.counter);
            },
            NescrowInstruction::CompleteEscrow(a) => {
                out.push(COMPLETE_ESCROW_TAG);
                write_key(&mut out, &a.creator);
                write_u64(&mut out, a.counter);
            },
            NescrowInstruction::CancelEscrow(a) => {
                out.push(CANCEL_ESCROW_TAG);
                write_u64(&mut out, a.counter);
            },
            NescrowInstruction::ExtendEscrow(a) => {
                out.push(EXTEND_ESCROW_TAG);
                write_u64(&mut out, a.counter);
                write_i64(&mut out, a.new_expiry_time);
            },
        }
        assert(out@ =~= encode_instruction(self@));
        out
    }
}

} // verus!

use vstd::prelude::*;
use vstd::utf8::*;
use crate::address::{Address, opt_view};
use crate::wire::{
    read_i64, read_key, read_opt_key, read_text, read_u64, write_i64, write_key, write_opt_key,
    write_text, write_u64, i64_at, key_at, le_i64, le_u32, le_u64, lemma_le_lengths, opt_key_at, opt_key_bytes, text_at,
    text_field, text_len_at, u64_at, zeros,
};

verus! {

broadcast use vstd::utf8::encode_utf8_decode_utf8, vstd::utf8::encode_utf8_valid_utf8;

pub const ESCROW_STATUS_OPEN: u8 = 0;
pub const ESCROW_STATUS_ACCEPTED: u8 = 1;
pub const ESCROW_STATUS_COMPLETED: u8 = 2;
pub const ESCROW_STATUS_CANCELLED: u8 = 3;

/// The size in bytes of a stored escrow record, for its whole lifetime.
pub const ESCROW_SIZE: usize = 383;

/// The most description bytes that the fixed record layout has room for.
pub const MAX_DESCRIPTION_LEN: usize = 255;

/// Status of the escrow.
#[derive(Debug, Clone, Copy, PartialEq, Eq, Structural)]
pub struct EscrowStatus {
    pub status: u8,
}

impl EscrowStatus {
    /// Whether the status byte names one of the four statuses.
    pub fn is_known(&self) -> (r: bool)
        ensures
            r == (self.status <= ESCROW_STATUS_CANCELLED),
    {
        self.status <= ESCROW_STATUS_CANCELLED
    }

    /// Whether no operation can change a record in this status.
    pub fn is_terminal(&self) -> (r: bool)
        ensures
            r == (self.status == ESCROW_STATUS_COMPLETED || self.status
                == ESCROW_STATUS_CANCELLED),
    {
        self.status == ESCROW_STATUS_COMPLETED || self.status == ESCROW_STATUS_CANCELLED
    }
}

/// Escrow account for wagering.
#[derive(Debug, Clone)]
pub struct Escrow {
    pub creator: Address,
    pub taker: Option<Address>,
    pub amount: u64,
    pub status: u8,
    pub winner: Option<Address>,
    pub description: String,
    pub expiry_time: i64,
    pub escrow_bump: u8,
    pub counter: u64,
}

/// The mathematical content of an escrow record.
pub ghost struct EscrowView {
    pub creator: Seq<u8>,
    pub taker: Option<Seq<u8>>,
    pub amount: u64,
    pub status: u8,
    pub winner: Option<Seq<u8>>,
    pub description: Seq<char>,
    pub expiry_time: i64,
    pub escrow_bump: u8,
    pub counter: u64,
}

impl View for Escrow {
    type V = EscrowView;

    open spec fn view(&self) -> EscrowView {
        EscrowView {
            creator: self.creator@,
            taker: opt_view(self.taker),
            amount: self.amount,
            status: self.status,
            winner: opt_view(self.winner),
            description: self.description@,
            expiry_time: self.expiry_time,
            escrow_bump: self.escrow_bump,
            counter: self.counter,
        }
    }
}

pub open spec fn key_ok(o: Option<Seq<u8>>) -> bool {
    o matches Some(k) ==> k.len() == 32
}

impl EscrowView {
    /// The record fits the fixed layout.
    pub open spec fn encodable(self) -> bool {
        &&& self.creator.len() == 32
        &&& key_ok(self.taker)
        &&& key_ok(self.winner)
        &&& self.status <= ESCROW_STATUS_CANCELLED
        &&& encode_utf8(self.description).len() <= MAX_DESCRIPTION_LEN
    }

    /// The record fits the layout and its parties agree with its status:
    /// a taker exactly once accepted, a winner exactly once completed, and
    /// the winner one of the two parties.
    pub open spec fn wf(self) -> bool {
        &&& self.encodable()
        &&& (self.taker is Some <==> (self.status == ESCROW_STATUS_ACCEPTED || self.status
            == ESCROW_STATUS_COMPLETED))
        &&& (self.winner is Some <==> self.status == ESCROW_STATUS_COMPLETED)
        &&& (self.winner is Some ==> self.winner == Some(self.creator) || self.winner
            == self.taker)
    }
}

/// The fields of a record, in layout order, without the trailing padding.
pub open spec fn record_fields(r: EscrowView) -> Seq<u8> {
    r.creator + opt_key_bytes(r.taker) + le_u64(r.amount) + seq![r.status] + opt_key_bytes(
        r.winner,
    ) + text_field(r.description) + le_i64(r.expiry_time) + seq![r.escrow_bump] + le_u64(
        r.counter,
    )
}

/// The stored form of a record: its fields, zero-padded to the fixed size.
pub open spec fn encode_record(r: EscrowView) -> Seq<u8> {
    record_fields(r) + zeros((ESCROW_SIZE - record_fields(r).len()) as nat)
}

/// Offset of the description's length prefix.
pub const DESCRIPTION_OFFSET: usize = 107;

/// The record that the bytes hold; trailing bytes are ignored.
pub open spec fn decode_record(b: Seq<u8>) -> Option<EscrowView> {
    if b.len() < 111 {
        None
    } else {
        let p = DESCRIPTION_OFFSET + text_len_at(b, DESCRIPTION_OFFSET as int);
        let t = opt_key_at(b, 32);
        let w = opt_key_at(b, 74);
        let d = text_at(b, DESCRIPTION_OFFSET as int);
        if t is Some && w is Some && d is Some && p + 17 <= b.len() && b[73]
            <= ESCROW_STATUS_CANCELLED {
            Some(
                EscrowView {
                    creator: key_at(b, 0),
                    taker: t->Some_0,
                    amount: u64_at(b, 65),
                    status: b[73],
                    winner: w->Some_0,
                    description: d->Some_0,
                    expiry_time: i64_at(b, p),
                    escrow_bump: b[p + 8],
                    counter: u64_at(b, p + 9),
                },
            )
        } else {
            None
        }
    }
}

pub proof fn lemma_record_fields_len(r: EscrowView)
    requires
        r.encodable(),
    ensures
        record_fields(r).len() == 128 + encode_utf8(r.description).len(),
        record_fields(r).len() <= ESCROW_SIZE,
{
    lemma_le_lengths(r.amount, r.expiry_time, encode_utf8(r.description).len() as u32);
    lemma_le_lengths(r.counter, 0, 0);
}

/// Decoding the stored form of any record that fits the layout gives that record back.
pub proof fn lemma_round_trip(r: EscrowView)
    requires
        r.encodable(),
    ensures
        decode_record(encode_record(r)) == Some(r),
{
    let n = encode_utf8(r.description).len();
    lemma_record_fields_len(r);
    lemma_le_lengths(r.amount, r.expiry_time, n as u32);
    lemma_le_lengths(r.counter, 0, 0);
    let e = encode_record(r);
    let tb = opt_key_bytes(r.taker);
    let wb = opt_key_bytes(r.winner);
    assert(tb.len() == 33);
    assert(wb.len() == 33);
    let p: int = 111 + n as int;
    assert(e.len() == ESCROW_SIZE);
    assert(e.subrange(0, 32) =~= r.creator);
    assert(e.subrange(32, 65) =~= tb);
    assert(e.subrange(65, 73) =~= le_u64(r.amount));
    assert(e[73] == r.status);
    assert(e.subrange(74, 107) =~= wb);
    assert(e.subrange(107, 111) =~= le_u32(n as u32));
    assert(e.subrange(111, p) =~= encode_utf8(r.description));
    assert(e.subrange(p, p + 8) =~= le_i64(r.expiry_time));
    assert(e[p + 8] == r.escrow_bump);
    assert(e.subrange(p + 9, p + 17) =~= le_u64(r.counter));
    assert(text_len_at(e, 107) == 4 + n);
    match r.taker {
        Some(k) => {
            assert(e[32] == tb[0]);
            assert(key_at(e, 33) =~= k);
        },
        None => {
            assert(e[32] == tb[0]);
        },
    }
    match r.winner {
        Some(k) => {
            assert(e[74] == wb[0]);
            assert(key_at(e, 75) =~= k);
        },
        None => {
            assert(e[74] == wb[0]);
        },
    }
    assert(decode_utf8(encode_utf8(r.description)) == r.description);
}

impl Escrow {
    /// The stored form of the record, exactly `ESCROW_SIZE` bytes.
    pub fn encode(&self) -> (r: Vec<u8>)
        requires
            self@.encodable(),
        ensures
            r@ == encode_record(self@),
            r@.len() == ESCROW_SIZE,
    {
        proof {
            lemma_record_fields_len(self@);
        }
        let mut out: Vec<u8> = Vec::new();
        write_key(&mut out, &self.creator);
        write_opt_key(&mut out, &self.taker);
        write_u64(&mut out, self.amount);
        out.push(self.status);
        write_opt_key(&mut out, &self.winner);
        write_text(&mut out, &self.description);
        write_i64(&mut out, self.expiry_time);
        out.push(self.escrow_bump);
        write_u64(&mut out, self.counter);
        assert(out@ =~= record_fields(self@));
        let used = out.len();
        while out.len() < ESCROW_SIZE
            invariant
                used <= out@.len() <= ESCROW_SIZE,
                used == record_fields(self@).len(),
                out@ == record_fields(self@) + zeros((out@.len() - used) as nat),
            decreases ESCROW_SIZE - out@.len(),
        {
            out.push(0u8);
            assert(out@ =~= record_fields(self@) + zeros((out@.len() - used) as nat));
        }
        assert(out@ =~= encode_record(self@));
        out
    }

    /// The record that the bytes hold, or `None` where they hold none.
    pub fn decode(b: &[u8]) -> (r: Option<Escrow>)
        ensures
            r is Some <==> decode_record(b@) is Some,
            r is Some ==> decode_record(b@) == Some(r->Some_0@),
    {
        if b.len() < 111 {
            return None;
        }
        let creator = read_key(b, 0);
        let taker = match read_opt_key(b, 32) {
            Some(t) => t,
            None => return None,
        };
        let amount = read_u64(b, 65);
        let status = b[73];
        let winner = match read_opt_key(b, 74) {
            Some(w) => w,
            None => return None,
        };
        let (description, p) = match read_text(b, DESCRIPTION_OFFSET) {
            Some(x) => x,
            None => return None,
        };
        if p > b.len() - 17 || status > ESCROW_STATUS_CANCELLED {
            return None;
        }
        let expiry_time = read_i64(b, p);
        let escrow_bump = b[p + 8];
        let counter = read_u64(b, p + 9);
        Some(
            Escrow {
                creator,
                taker,
                amount,
                status,
                winner,
                description,
                expiry_time,
                escrow_bump,
                counter,
            },
        )
    }
}

} // verus!

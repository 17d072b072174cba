use vstd::prelude::*;
use crate::address::{Address, opt_is};
use crate::error::NescrowError;
use crate::state::{
    Escrow, EscrowView, ESCROW_STATUS_ACCEPTED, ESCROW_STATUS_CANCELLED, ESCROW_STATUS_COMPLETED,
    ESCROW_STATUS_OPEN,
};

verus! {

/// Open -> Accepted, while `now` lies before the expiry time.
pub open spec fn accept_result(r: EscrowView, taker: Seq<u8>, now: i64) -> Result<
    EscrowView,
    NescrowError,
> {
    if r.status == ESCROW_STATUS_OPEN {
        if now < r.expiry_time {
            Ok(EscrowView { status: ESCROW_STATUS_ACCEPTED, taker: Some(taker), ..r })
        } else {
            Err(NescrowError::EscrowExpired)
        }
    } else if r.status == ESCROW_STATUS_CANCELLED {
        Err(NescrowError::EscrowNotOpen)
    } else {
        Err(NescrowError::EscrowAlreadyAccepted)
    }
}

/// Whether `k` is one of the record's two parties.
pub open spec fn is_party(r: EscrowView, k: Seq<u8>) -> bool {
    k == r.creator || Some(k) == r.taker
}

/// Accepted -> Completed, by a party, naming a party as winner.
pub open spec fn complete_result(r: EscrowView, authority: Seq<u8>, winner: Seq<u8>) -> Result<
    EscrowView,
    NescrowError,
> {
    if r.status != ESCROW_STATUS_ACCEPTED {
        Err(NescrowError::EscrowNotAccepted)
    } else if !is_party(r, authority) {
        Err(NescrowError::InvalidAuthority)
    } else if !is_party(r, winner) {
        Err(NescrowError::InvalidWinner)
    } else {
        Ok(EscrowView { status: ESCROW_STATUS_COMPLETED, winner: Some(winner), ..r })
    }
}

/// Open -> Cancelled, by the creator.
pub open spec fn cancel_result(r: EscrowView, caller: Seq<u8>) -> Result<EscrowView, NescrowError> {
    if r.status != ESCROW_STATUS_OPEN {
        Err(NescrowError::EscrowAlreadyAccepted)
    } else if caller != r.creator {
        Err(NescrowError::InvalidAuthority)
    } else {
        Ok(EscrowView { status: ESCROW_STATUS_CANCELLED, ..r })
    }
}

/// Open -> Open with a later expiry time, by the creator.
pub open spec fn extend_result(r: EscrowView, caller: Seq<u8>, new_expiry_time: i64) -> Result<
    EscrowView,
    NescrowError,
> {
    if r.status != ESCROW_STATUS_OPEN {
        Err(NescrowError::EscrowNotOpen)
    } else if caller != r.creator {
        Err(NescrowError::InvalidAuthority)
    } else if new_expiry_time <= r.expiry_time {
        Err(NescrowError::InvalidExpiry)
    } else {
        Ok(EscrowView { expiry_time: new_expiry_time, ..r })
    }
}

/// A transition whose outcome `res` was applied to a record in place: on
/// success the record became the new one, on failure it stayed as it was.
pub open spec fn applied(
    res: Result<EscrowView, NescrowError>,
    before: EscrowView,
    after: EscrowView,
    r: Result<(), NescrowError>,
) -> bool {
    match res {
        Ok(n) => r is Ok && after == n,
        Err(e) => r == Err::<(), NescrowError>(e) && after == before,
    }
}

impl Escrow {
    pub fn accept(&mut self, taker: &Address, now: i64) -> (r: Result<(), NescrowError>)
        ensures
            applied(accept_result(old(self)@, taker@, now), old(self)@, final(self)@, r),
    {
        if self.status == ESCROW_STATUS_OPEN {
            if now < self.expiry_time {
                self.status = ESCROW_STATUS_ACCEPTED;
                self.taker = Some(*taker);
                Ok(())
            } else {
                Err(NescrowError::EscrowExpired)
            }
        } else if self.status == ESCROW_STATUS_CANCELLED {
            Err(NescrowError::EscrowNotOpen)
        } else {
            Err(NescrowError::EscrowAlreadyAccepted)
        }
    }

    pub fn is_party(&self, k: &Address) -> (r: bool)
        ensures
            r == is_party(self@, k@),
    {
        k.same_as(&self.creator) || opt_is(&self.taker, k)
    }

    pub fn complete(&mut self, authority: &Address, winner: &Address) -> (r: Result<
        (),
        NescrowError,
    >)
        ensures
            applied(complete_result(old(self)@, authority@, winner@), old(self)@, final(self)@, r),
    {
        if self.status != ESCROW_STATUS_ACCEPTED {
            Err(NescrowError::EscrowNotAccepted)
        } else if !self.is_party(authority) {
            Err(NescrowError::InvalidAuthority)
        } else if !self.is_party(winner) {
            Err(NescrowError::InvalidWinner)
        } else {
            self.status = ESCROW_STATUS_COMPLETED;
            self.winner = Some(*winner);
            Ok(())
        }
    }

    pub fn cancel(&mut self, caller: &Address) -> (r: Result<(), NescrowError>)
        ensures
            applied(cancel_result(old(self)@, caller@), old(self)@, final(self)@, r),
    {
        if self.status != ESCROW_STATUS_OPEN {
            Err(NescrowError::EscrowAlreadyAccepted)
        } else if !caller.same_as(&self.creator) {
            Err(NescrowError::InvalidAuthority)
        } else {
            self.status = ESCROW_STATUS_CANCELLED;
            Ok(())
        }
    }

    pub fn extend(&mut self, caller: &Address, new_expiry_time: i64) -> (r: Result<
        (),
        NescrowError,
    >)
        ensures
            applied(extend_result(old(self)@, caller@, new_expiry_time), old(self)@, final(self)@, r),
    {
        if self.status != ESCROW_STATUS_OPEN {
            Err(NescrowError::EscrowNotOpen)
        } else if !caller.same_as(&self.creator) {
            Err(NescrowError::InvalidAuthority)
        } else if new_expiry_time <= self.expiry_time {
            Err(NescrowError::InvalidExpiry)
        } else {
            self.expiry_time = new_expiry_time;
            Ok(())
        }
    }
}

/// Every (status, operation) pair outside the transition table is rejected,
/// with the error the table lists.
pub proof fn lemma_rejected_pairs(
    r: EscrowView,
    caller: Seq<u8>,
    other: Seq<u8>,
    now: i64,
    new_expiry_time: i64,
)
    ensures
        r.status == ESCROW_STATUS_ACCEPTED || r.status == ESCROW_STATUS_COMPLETED ==> accept_result(
            r,
            caller,
            now,
        ) == Err::<EscrowView, NescrowError>(NescrowError::EscrowAlreadyAccepted),
        r.status == ESCROW_STATUS_CANCELLED ==> accept_result(r, caller, now) == Err::<
            EscrowView,
            NescrowError,
        >(NescrowError::EscrowNotOpen),
        r.status != ESCROW_STATUS_ACCEPTED ==> complete_result(r, caller, other) == Err::<
            EscrowView,
            NescrowError,
        >(NescrowError::EscrowNotAccepted),
        r.status != ESCROW_STATUS_OPEN ==> cancel_result(r, caller) == Err::<
            EscrowView,
            NescrowError,
        >(NescrowError::EscrowAlreadyAccepted),
        r.status != ESCROW_STATUS_OPEN ==> extend_result(r, caller, new_expiry_time) == Err::<
            EscrowView,
            NescrowError,
        >(NescrowError::EscrowNotOpen),
{
}

/// Every transition keeps a well-formed record well-formed, and never
/// changes its creator, amount, description, counter or bump.
pub proof fn lemma_transitions_keep_invariants(
    r: EscrowView,
    caller: Seq<u8>,
    other: Seq<u8>,
    now: i64,
    new_expiry_time: i64,
)
    requires
        r.wf(),
        caller.len() == 32,
        other.len() == 32,
    ensures
        forall|n: EscrowView|
            accept_result(r, caller, now) == Ok::<EscrowView, NescrowError>(n) || complete_result(
                r,
                caller,
                other,
            ) == Ok::<EscrowView, NescrowError>(n) || cancel_result(r, caller) == Ok::<
                EscrowView,
                NescrowError,
            >(n) || extend_result(r, caller, new_expiry_time) == Ok::<EscrowView, NescrowError>(n)
                ==> #[trigger] n.wf() && n.creator == r.creator && n.amount == r.amount
                && n.description == r.description && n.counter == r.counter && n.escrow_bump
                == r.escrow_bump,
{
}

} // verus!

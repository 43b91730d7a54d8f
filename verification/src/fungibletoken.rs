//! Token custody: inbound transfer notifications and outbound transfers
//! with their confirmation continuations.
//!
//! The host executes an outbound call asynchronously: its outcome can only
//! be observed in a strictly later, separate invocation.  Issuing a transfer
//! therefore records a pending operation keyed by a correlation id, and the
//! confirmation entry point — which must be invoked by the system itself —
//! resolves it: `Issued` becomes `Confirmed` or `Failed`, the pending record
//! is destroyed either way, and a failed operation leaves every other part
//! of the state exactly as if it had never started.

use vstd::prelude::*;

use crate::amount::{decimal_digits, decimal_ok, decimal_scale, parse_decimal};
use crate::donations::{parse_target_kind, record_donation_rel};
use crate::errors::LedgerError;
use crate::lookup::{find_by, lemma_find_by_is, lemma_find_by_none};
use crate::text::{char_pred, digits_val, find_char_from};
use crate::{pending_idx, pending_pred, unchanged_but_pending, Contract};

verus! {

/// A pending outbound operation: the correlation id of the issued call and
/// what to settle once its outcome is known.
#[derive(Debug)]
pub struct PendingOp {
    pub correlation_id: String,
    pub account: String,
    pub token: String,
    pub amount: u128,
}

impl Clone for PendingOp {
    fn clone(&self) -> (res: Self)
        ensures
            res == *self,
    {
        PendingOp {
            correlation_id: self.correlation_id.clone(),
            account: self.account.clone(),
            token: self.token.clone(),
            amount: self.amount,
        }
    }
}

/// The acknowledged outcome of an outbound transfer.  A confirmation is
/// delivered at most once, strictly after the outcome is determined.
#[derive(Clone, Copy, Debug, PartialEq, Eq, Structural)]
pub enum TransferOutcome {
    Successful,
    Failed,
}

/// An outbound transfer for the host to perform, together with the
/// correlation id its confirmation must quote.
#[derive(Debug)]
pub struct OutboundTransfer {
    pub token: String,
    pub receiver: String,
    pub amount: u128,
    pub correlation_id: String,
}


/// A decoded transfer memo: the structured donation intent it carries.
#[derive(Debug)]
pub struct DonationIntent {
    pub donation_id: String,
    pub target: crate::donations::TargetKind,
    pub campaign: Option<String>,
    pub event: Option<String>,
    pub amount_usd: crate::amount::DecimalAmount,
}

/// The five colon-separated fields of a memo, or `None` if it does not have
/// exactly five.
pub open spec fn memo_fields(m: Seq<char>) -> Option<
    (Seq<char>, Seq<char>, Seq<char>, Seq<char>, Seq<char>),
> {
    let p1 = find_by(m, char_pred(':'));
    if p1 == -1 {
        None
    } else {
        let r1 = m.skip(p1 + 1);
        let p2 = find_by(r1, char_pred(':'));
        if p2 == -1 {
            None
        } else {
            let r2 = r1.skip(p2 + 1);
            let p3 = find_by(r2, char_pred(':'));
            if p3 == -1 {
                None
            } else {
                let r3 = r2.skip(p3 + 1);
                let p4 = find_by(r3, char_pred(':'));
                if p4 == -1 {
                    None
                } else {
                    let r4 = r3.skip(p4 + 1);
                    if find_by(r4, char_pred(':')) != -1 {
                        None
                    } else {
                        Some((m.take(p1), r1.take(p2), r2.take(p3), r3.take(p4), r4))
                    }
                }
            }
        }
    }
}

/// The memo grammar: exactly five colon-separated fields
/// `donation_id : target_kind : campaign_id_or_null : event_id_or_null :
/// reference_amount`, with a known target kind word and a reference amount
/// that is a decimal numeral small enough to store.
pub open spec fn memo_ok(m: Seq<char>) -> bool {
    &&& memo_fields(m) is Some
    &&& parse_target_kind(memo_fields(m).unwrap().1) is Some
    &&& decimal_ok(memo_fields(m).unwrap().4)
    &&& digits_val(decimal_digits(memo_fields(m).unwrap().4)) <= u128::MAX
}

/// `intent` is what the memo's five fields decode to.
pub open spec fn intent_matches(m: Seq<char>, intent: DonationIntent) -> bool {
    let f = memo_fields(m).unwrap();
    &&& intent.donation_id@ == f.0
    &&& Some(intent.target) == parse_target_kind(f.1)
    &&& match intent.campaign {
        Some(c) => c@ == f.2 && f.2 != "null"@,
        None => f.2 == "null"@,
    }
    &&& match intent.event {
        Some(e) => e@ == f.3 && f.3 != "null"@,
        None => f.3 == "null"@,
    }
    &&& intent.amount_usd.mantissa == digits_val(decimal_digits(f.4))
    &&& intent.amount_usd.scale == decimal_scale(f.4)
}

/// Decode a transfer memo into the donation intent it carries.
///
/// A malformed memo — wrong field count, unknown target kind word, or a
/// non-numeric or oversized reference amount — is rejected whole.
#[verifier::rlimit(90)]
pub fn parse_memo(memo: &str) -> (r: Result<DonationIntent, LedgerError>)
    ensures
        match r {
            Ok(intent) => memo_ok(memo@) && intent_matches(memo@, intent),
            Err(e) => e == LedgerError::InvalidInput && !memo_ok(memo@),
        },
{
    let n = memo.unicode_len();
    proof {
        assert(memo@.skip(0) =~= memo@);
    }
    let p1 = match find_char_from(memo, 0, ':') {
        None => {
            return Err(LedgerError::InvalidInput);
        },
        Some(p) => p,
    };
    let ghost r1 = memo@.skip(p1 + 1);
    let p2 = match find_char_from(memo, p1 + 1, ':') {
        None => {
            return Err(LedgerError::InvalidInput);
        },
        Some(p) => p,
    };
    let ghost r2 = memo@.skip(p2 + 1);
    proof {
        assert(r1.skip(p2 - p1) =~= r2);
    }
    let p3 = match find_char_from(memo, p2 + 1, ':') {
        None => {
            return Err(LedgerError::InvalidInput);
        },
        Some(p) => p,
    };
    let ghost r3 = memo@.skip(p3 + 1);
    proof {
        assert(r2.skip(p3 - p2) =~= r3);
    }
    let p4 = match find_char_from(memo, p3 + 1, ':') {
        None => {
            return Err(LedgerError::InvalidInput);
        },
        Some(p) => p,
    };
    let ghost r4 = memo@.skip(p4 + 1);
    proof {
        assert(r3.skip(p4 - p3) =~= r4);
    }
    match find_char_from(memo, p4 + 1, ':') {
        Some(_) => {
            return Err(LedgerError::InvalidInput);
        },
        None => {},
    }
    let ghost fields = memo_fields(memo@).unwrap();
    let donation_id = memo.substring_char(0, p1).to_owned();
    let target_word = memo.substring_char(p1 + 1, p2).to_owned();
    let campaign_word = memo.substring_char(p2 + 1, p3).to_owned();
    let event_word = memo.substring_char(p3 + 1, p4).to_owned();
    let amount_text = memo.substring_char(p4 + 1, n);
    proof {
        assert(donation_id@ =~= fields.0);
        assert(target_word@ =~= r1.take(p2 - (p1 + 1)));
        assert(campaign_word@ =~= r2.take(p3 - (p2 + 1)));
        assert(event_word@ =~= r3.take(p4 - (p3 + 1)));
        assert(amount_text@ =~= r4);
        assert(target_word@ =~= fields.1);
        assert(campaign_word@ =~= fields.2);
        assert(event_word@ =~= fields.3);
        assert(amount_text@ =~= fields.4);
    }
    let target = if target_word == "general".to_owned() {
        crate::donations::TargetKind::General
    } else if target_word == "event".to_owned() {
        crate::donations::TargetKind::Event
    } else if target_word == "campaign".to_owned() {
        crate::donations::TargetKind::Campaign
    } else {
        return Err(LedgerError::InvalidInput);
    };
    let amount_usd = match parse_decimal(amount_text) {
        None => {
            return Err(LedgerError::InvalidInput);
        },
        Some(a) => a,
    };
    let campaign: Option<String> = if campaign_word == "null".to_owned() {
        None
    } else {
        Some(campaign_word)
    };
    let event: Option<String> = if event_word == "null".to_owned() {
        None
    } else {
        Some(event_word)
    };
    Ok(DonationIntent { donation_id, target, campaign, event, amount_usd })
}

/// What accepting a transfer notification does: a caller other than the
/// system itself is unauthorized; a malformed memo is invalid input; and
/// otherwise the decoded intent is recorded exactly as by
/// [`record_donation_rel`] — so nothing is committed unless every check
/// passes, and re-delivery of a memo (same donation id) cannot record twice.
pub open spec fn deposit_rel(
    pre: Contract,
    caller: String,
    self_account: String,
    donor: String,
    token: String,
    amount: u128,
    msg: String,
    now: u64,
    r: Result<(), LedgerError>,
    post: Contract,
) -> bool {
    if caller@ != self_account@ {
        r == Err::<(), LedgerError>(LedgerError::Unauthorized) && post == pre
    } else if !memo_ok(msg@) {
        r == Err::<(), LedgerError>(LedgerError::InvalidInput) && post == pre
    } else {
        exists|intent: DonationIntent|
            #[trigger] intent_matches(msg@, intent) && record_donation_rel(
                pre,
                intent.donation_id,
                donor,
                token,
                amount,
                intent.amount_usd,
                intent.target,
                intent.event,
                intent.campaign,
                now,
                r,
                post,
            )
    }
}

impl Contract {
    /// The position of the pending operation with this correlation id.
    fn find_pending_index(&self, correlation_id: &String) -> (r: Option<usize>)
        ensures
            match r {
                Some(i) => i < self.pending@.len() && pending_idx(self.pending@, correlation_id@)
                    == i,
                None => pending_idx(self.pending@, correlation_id@) == -1,
            },
    {
        let n = self.pending.len();
        let mut i: usize = 0;
        while i < n
            invariant
                0 <= i <= n,
                n == self.pending@.len(),
                forall|k: int| 0 <= k < i ==> self.pending@[k].correlation_id@ != correlation_id@,
            decreases n - i,
        {
            if self.pending[i].correlation_id == *correlation_id {
                proof {
                    lemma_find_by_is(self.pending@, pending_pred(correlation_id@), i as int);
                }
                return Some(i);
            }
            i = i + 1;
        }
        proof {
            lemma_find_by_none(self.pending@, pending_pred(correlation_id@));
        }
        None
    }

    /// Accept a notification that an external asset transfer landed: decode
    /// the memo's earmark, record the donation once, and grant the donor a
    /// voting credit on the decoded target — atomically.
    ///
    /// This is a continuation the system schedules for itself, so the caller
    /// must be the system's own account.
    pub fn deposit_tokens(
        &mut self,
        caller: String,
        self_account: String,
        donor: String,
        token: String,
        amount: u128,
        msg: String,
        now: u64,
    ) -> (r: Result<(), LedgerError>)
        requires
            old(self).wf(),
            old(self).donations@.len() < u64::MAX,
        ensures
            final(self).wf(),
            deposit_rel(
                *old(self),
                caller,
                self_account,
                donor,
                token,
                amount,
                msg,
                now,
                r,
                *final(self),
            ),
    {
        if !(caller == self_account) {
            return Err(LedgerError::Unauthorized);
        }
        let intent = match parse_memo(msg.as_str()) {
            Err(e) => {
                return Err(e);
            },
            Ok(intent) => intent,
        };
        let ghost wit = intent;
        let r = self.record_donation(
            intent.donation_id,
            donor,
            token,
            amount,
            intent.amount_usd,
            intent.target,
            intent.event,
            intent.campaign,
            now,
        );
        proof {
            assert(intent_matches(msg@, wit));
        }
        r
    }

    /// Issue an outbound transfer of `amount` of `token` from `from` to
    /// `to`, correlated by `chat_id`: record the pending operation and hand
    /// back the transfer for the host to perform.  Only the system itself
    /// may call this; a correlation id already in flight is rejected.
    pub fn send_tokens(
        &mut self,
        caller: String,
        self_account: String,
        from: String,
        to: String,
        token: String,
        amount: u128,
        chat_id: String,
    ) -> (r: Result<OutboundTransfer, LedgerError>)
        requires
            old(self).wf(),
        ensures
            final(self).wf(),
            ({
                if caller@ != self_account@ {
                    r == Err::<OutboundTransfer, LedgerError>(LedgerError::Unauthorized)
                        && *final(self) == *old(self)
                } else if pending_idx(old(self).pending@, chat_id@) != -1 {
                    r == Err::<OutboundTransfer, LedgerError>(LedgerError::InvalidInput) && *final(self) == *old(self)
                } else {
                    &&& r is Ok
                    &&& ({
                        let out = r.unwrap();
                        let op = final(self).pending@.last();
                        &&& final(self).pending@.len() == old(self).pending@.len() + 1
                        &&& forall|k: int|
                            0 <= k < old(self).pending@.len() ==> final(self).pending@[k] == old(
                                self,
                            ).pending@[k]
                        &&& op.correlation_id@ == chat_id@
                        &&& op.account == from
                        &&& op.token@ == token@
                        &&& op.amount == amount
                        &&& out.token == token
                        &&& out.receiver == to
                        &&& out.amount == amount
                        &&& out.correlation_id == chat_id
                    })
                }
            }),
            unchanged_but_pending(old(self), final(self)),
    {
        if !(caller == self_account) {
            return Err(LedgerError::Unauthorized);
        }
        if self.find_pending_index(&chat_id).is_some() {
            return Err(LedgerError::InvalidInput);
        }
        let op = PendingOp {
            correlation_id: chat_id.clone(),
            account: from,
            token: token.clone(),
            amount,
        };
        let ghost o = op;
        self.pending.push(op);
        proof {
            let pre = old(self).pending@;
            let post = self.pending@;
            crate::lookup::lemma_find_by(pre, pending_pred(o.correlation_id@));
            assert forall|a: int, b: int|
                0 <= a < b < post.len() implies post[a].correlation_id@
                != post[b].correlation_id@ by {
                if b == post.len() - 1 {
                    assert(post[a] == pre[a]);
                }
            }
        }
        Ok(OutboundTransfer { token, receiver: to, amount, correlation_id: chat_id })
    }

    /// Issue an outbound withdrawal of `amount` of `token` back to the
    /// caller, correlated by `correlation_id`.  Only the system itself may
    /// call this.
    pub fn withdraw_named_asset(
        &mut self,
        caller: String,
        self_account: String,
        token: String,
        amount: u128,
        correlation_id: String,
    ) -> (r: Result<OutboundTransfer, LedgerError>)
        requires
            old(self).wf(),
        ensures
            final(self).wf(),
            ({
                if caller@ != self_account@ {
                    r == Err::<OutboundTransfer, LedgerError>(LedgerError::Unauthorized)
                        && *final(self) == *old(self)
                } else if pending_idx(old(self).pending@, correlation_id@) != -1 {
                    r == Err::<OutboundTransfer, LedgerError>(LedgerError::InvalidInput) && *final(self) == *old(self)
                } else {
                    &&& r is Ok
                    &&& ({
                        let out = r.unwrap();
                        let op = final(self).pending@.last();
                        &&& final(self).pending@.len() == old(self).pending@.len() + 1
                        &&& forall|k: int|
                            0 <= k < old(self).pending@.len() ==> final(self).pending@[k] == old(
                                self,
                            ).pending@[k]
                        &&& op.correlation_id@ == correlation_id@
                        &&& op.account@ == caller@
                        &&& op.token@ == token@
                        &&& op.amount == amount
                        &&& out.token == token
                        &&& out.receiver@ == caller@
                        &&& out.amount == amount
                        &&& out.correlation_id == correlation_id
                    })
                }
            }),
            unchanged_but_pending(old(self), final(self)),
    {
        if !(caller == self_account) {
            return Err(LedgerError::Unauthorized);
        }
        if self.find_pending_index(&correlation_id).is_some() {
            return Err(LedgerError::InvalidInput);
        }
        let op = PendingOp {
            correlation_id: correlation_id.clone(),
            account: caller.clone(),
            token: token.clone(),
            amount,
        };
        let ghost o = op;
        self.pending.push(op);
        proof {
            let pre = old(self).pending@;
            let post = self.pending@;
            crate::lookup::lemma_find_by(pre, pending_pred(o.correlation_id@));
            assert forall|a: int, b: int|
                0 <= a < b < post.len() implies post[a].correlation_id@
                != post[b].correlation_id@ by {
                if b == post.len() - 1 {
                    assert(post[a] == pre[a]);
                }
            }
        }
        Ok(OutboundTransfer { token, receiver: caller, amount, correlation_id })
    }

    /// The confirmation continuation of an outbound transfer: only the
    /// system itself may deliver it, exactly once per correlation id.
    ///
    /// Whichever way the transfer went, the pending operation is destroyed;
    /// a failed transfer leaves every other part of the state exactly as if
    /// the operation had never started, and is terminal — any retry is a new
    /// operation.
    pub fn withdraw_tokens(
        &mut self,
        caller: String,
        self_account: String,
        correlation_id: String,
        outcome: TransferOutcome,
    ) -> (r: Result<(), LedgerError>)
        requires
            old(self).wf(),
        ensures
            final(self).wf(),
            ({
                let pi = pending_idx(old(self).pending@, correlation_id@);
                if caller@ != self_account@ {
                    r == Err::<(), LedgerError>(LedgerError::Unauthorized) && *final(self)
                        == *old(self)
                } else if pi == -1 {
                    r == Err::<(), LedgerError>(LedgerError::NotFound) && *final(self) == *old(self)
                } else {
                    &&& r == Ok::<(), LedgerError>(())
                    &&& final(self).pending@ == old(self).pending@.remove(pi)
                }
            }),
            unchanged_but_pending(old(self), final(self)),
    {
        if !(caller == self_account) {
            return Err(LedgerError::Unauthorized);
        }
        let pi = match self.find_pending_index(&correlation_id) {
            None => {
                return Err(LedgerError::NotFound);
            },
            Some(pi) => pi,
        };
        let _op = self.pending.remove(pi);
        match outcome {
            TransferOutcome::Successful => {
                // Confirmed: the pending record was the only local
                // bookkeeping for the withdrawal, and it is now cleared.
            },
            TransferOutcome::Failed => {
                // Failed: terminal for this correlation id; nothing else was
                // touched when the operation was issued, so nothing needs
                // undoing.
            },
        }
        proof {
            let pre = old(self).pending@;
            let post = self.pending@;
            assert(forall|k: int|
                0 <= k < post.len() ==> post[k] == (if k < pi {
                    pre[k]
                } else {
                    pre[k + 1]
                }));
            assert forall|a: int, b: int|
                0 <= a < b < post.len() implies post[a].correlation_id@
                != post[b].correlation_id@ by {}
        }
        Ok(())
    }
}

} // verus!

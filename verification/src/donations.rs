//! The donation ledger: an append-only record of who gave what to what.
//!
//! A donation is immutable once created; there is no update or delete.  Its
//! target kind determines which ids it may carry: a general donation carries
//! none, an event donation an event id only, a campaign donation a campaign
//! id only.  Donation ids are unique: a notification that reuses an id is
//! rejected rather than silently recorded twice, which is what makes intake
//! exactly-once.

use vstd::prelude::*;

use crate::amount::DecimalAmount;
use crate::errors::LedgerError;
use crate::lookup::{filter_seq, lemma_find_by, lemma_find_by_is, lemma_find_by_none};
use crate::pagination::{page_bounds, page_of};
use crate::voting::{has_voter, sum_votes};
use crate::{
    campaign_idx, donation_idx, donation_pred, event_idx, token_lookup, Contract, Response,
};

verus! {

/// A donation's destination class.
#[derive(Clone, Copy, Debug, PartialEq, Eq, Structural)]
pub enum TargetKind {
    General,
    Event,
    Campaign,
}

/// One recorded donation.
#[derive(Debug)]
pub struct Donation {
    pub id: String,
    pub donor: String,
    pub token: String,
    pub amount: u128,
    pub amount_usd: DecimalAmount,
    pub target: TargetKind,
    pub event: Option<String>,
    pub campaign: Option<String>,
    pub created_at: u64,
}

impl Clone for Donation {
    fn clone(&self) -> (res: Self)
        ensures
            res == *self,
    {
        Donation {
            id: self.id.clone(),
            donor: self.donor.clone(),
            token: self.token.clone(),
            amount: self.amount,
            amount_usd: self.amount_usd,
            target: self.target,
            event: crate::events::clone_opt_string(&self.event),
            campaign: crate::events::clone_opt_string(&self.campaign),
            created_at: self.created_at,
        }
    }
}

/// A donation together with the metadata of the asset it was made in, as
/// listing queries return it.
#[derive(Debug)]
pub struct DonationDetails {
    pub donation: Donation,
    pub tokenmetadata: Option<crate::TokenMetadata>,
}

/// The target-kind invariant: the ids present are exactly those the kind
/// calls for.
pub open spec fn donation_wf(d: Donation) -> bool {
    match d.target {
        TargetKind::General => d.event is None && d.campaign is None,
        TargetKind::Event => d.event is Some && d.campaign is None,
        TargetKind::Campaign => d.campaign is Some && d.event is None,
    }
}

impl Donation {
    /// Assemble a donation record; the ids handed in must already fit the
    /// target kind.
    pub fn new(
        id: String,
        donor: String,
        token: String,
        amount: u128,
        amount_usd: DecimalAmount,
        target: TargetKind,
        event: Option<String>,
        campaign: Option<String>,
        created_at: u64,
    ) -> (d: Donation)
        requires
            match target {
                TargetKind::General => event is None && campaign is None,
                TargetKind::Event => event is Some && campaign is None,
                TargetKind::Campaign => campaign is Some && event is None,
            },
        ensures
            d.id == id,
            d.donor == donor,
            d.token == token,
            d.amount == amount,
            d.amount_usd == amount_usd,
            d.target == target,
            d.event == event,
            d.campaign == campaign,
            d.created_at == created_at,
            donation_wf(d),
    {
        Donation { id, donor, token, amount, amount_usd, target, event, campaign, created_at }
    }
}


/// The ids handed in are exactly those the target kind calls for.
pub open spec fn target_ids_consistent(
    target: TargetKind,
    event: Option<String>,
    campaign: Option<String>,
) -> bool {
    match target {
        TargetKind::General => event is None && campaign is None,
        TargetKind::Event => event is Some && campaign is None,
        TargetKind::Campaign => campaign is Some && event is None,
    }
}

/// Which check a donation request fails, if any, in the order the checks
/// are made: inconsistent ids or a duplicate donation id are invalid input;
/// a missing target campaign or event is not found.
pub open spec fn record_donation_err(
    pre: Contract,
    id: String,
    target: TargetKind,
    event: Option<String>,
    campaign: Option<String>,
) -> Option<LedgerError> {
    if !target_ids_consistent(target, event, campaign) {
        Some(LedgerError::InvalidInput)
    } else if donation_idx(pre.donations@, id@) != -1 {
        Some(LedgerError::InvalidInput)
    } else {
        match target {
            TargetKind::General => None,
            TargetKind::Event => match event {
                Some(e) => if event_idx(pre.events@, e@) == -1 {
                    Some(LedgerError::NotFound)
                } else {
                    None
                },
                None => Some(LedgerError::InvalidInput),
            },
            TargetKind::Campaign => match campaign {
                Some(c) => if campaign_idx(pre.campaigns@, c@) == -1 {
                    Some(LedgerError::NotFound)
                } else {
                    None
                },
                None => Some(LedgerError::InvalidInput),
            },
        }
    }
}

/// What recording a donation does: either one of the checks fails, nothing
/// changes and the failed check's error is returned, or the donation is
/// appended to the ledger and — atomically with the append — the donor is
/// granted a voting credit on the target (idempotently), with every other
/// part of the state untouched.
pub open spec fn record_donation_rel(
    pre: Contract,
    id: String,
    donor: String,
    token: String,
    amount: u128,
    amount_usd: DecimalAmount,
    target: TargetKind,
    event: Option<String>,
    campaign: Option<String>,
    now: u64,
    r: Result<(), LedgerError>,
    post: Contract,
) -> bool {
    match record_donation_err(pre, id, target, event, campaign) {
        Some(e) => r == Err::<(), LedgerError>(e) && post == pre,
        None => {
            &&& r == Ok::<(), LedgerError>(())
            &&& post.donations@ == pre.donations@.push(
                (Donation {
                    id: id,
                    donor: donor,
                    token: token,
                    amount: amount,
                    amount_usd: amount_usd,
                    target: target,
                    event: event,
                    campaign: campaign,
                    created_at: now,
                }),
            )
            &&& post.donations_count == pre.donations_count + 1
            &&& match target {
                TargetKind::General => post.events == pre.events && post.campaigns
                    == pre.campaigns,
                TargetKind::Event => {
                    let ei = event_idx(pre.events@, event.unwrap()@);
                    let e0 = pre.events@[ei];
                    let e1 = post.events@[ei];
                    &&& post.campaigns == pre.campaigns
                    &&& post.events@.len() == pre.events@.len()
                    &&& forall|k: int|
                        0 <= k < pre.events@.len() && k != ei ==> post.events@[k]
                            == pre.events@[k]
                    &&& if has_voter(e0.voters@, donor@) {
                        e1.voters@ == e0.voters@
                    } else {
                        e1.voters@ == e0.voters@.push(donor)
                    }
                    &&& has_voter(e1.voters@, donor@)
                    &&& crate::events::unchanged_but_voters(&e0, &e1)
                },
                TargetKind::Campaign => {
                    let ci = campaign_idx(pre.campaigns@, campaign.unwrap()@);
                    let c0 = pre.campaigns@[ci];
                    let c1 = post.campaigns@[ci];
                    &&& post.events == pre.events
                    &&& post.campaigns@.len() == pre.campaigns@.len()
                    &&& forall|k: int|
                        0 <= k < pre.campaigns@.len() && k != ci ==> post.campaigns@[k]
                            == pre.campaigns@[k]
                    &&& if has_voter(c0.voters@, donor@) {
                        c1.voters@ == c0.voters@
                    } else {
                        c1.voters@ == c0.voters@.push(donor)
                    }
                    &&& has_voter(c1.voters@, donor@)
                    &&& crate::campaign::unchanged_but_voters(&c0, &c1)
                },
            }
            &&& post.gurdians == pre.gurdians
            &&& post.running == pre.running
            &&& post.causes == pre.causes
            &&& post.courses == pre.courses
            &&& post.tokens == pre.tokens
            &&& post.partners == pre.partners
            &&& post.total_usd == pre.total_usd
            &&& post.pending == pre.pending
            &&& post.causes_count == pre.causes_count
            &&& post.events_count == pre.events_count
            &&& post.campaigns_count == pre.campaigns_count
            &&& post.tokens_count == pre.tokens_count
            &&& post.partners_count == pre.partners_count
        },
    }
}

/// The word a target kind is written as in memos and creation calls.
pub open spec fn parse_target_kind(t: Seq<char>) -> Option<TargetKind> {
    if t == "general"@ {
        Some(TargetKind::General)
    } else if t == "event"@ {
        Some(TargetKind::Event)
    } else if t == "campaign"@ {
        Some(TargetKind::Campaign)
    } else {
        None
    }
}

/// The `"null"` sentinel reads as no id at all.
pub open spec fn opt_id(s: String) -> Option<String> {
    if s@ == "null"@ {
        None
    } else {
        Some(s)
    }
}

/// What the string-field donation entry point does: an unknown target word
/// is invalid input; otherwise the words and `"null"` sentinels are decoded
/// and the donation is recorded as by [`record_donation_rel`].
pub open spec fn create_donation_rel(
    pre: Contract,
    id: String,
    donor: String,
    token: String,
    amount: u128,
    amount_usd: DecimalAmount,
    target: String,
    event: String,
    campaign: String,
    now: u64,
    r: Result<(), LedgerError>,
    post: Contract,
) -> bool {
    match parse_target_kind(target@) {
        None => r == Err::<(), LedgerError>(LedgerError::InvalidInput) && post == pre,
        Some(k) => record_donation_rel(
            pre,
            id,
            donor,
            token,
            amount,
            amount_usd,
            k,
            opt_id(event),
            opt_id(campaign),
            now,
            r,
            post,
        ),
    }
}

/// The filter "this donation is earmarked for campaign `id`".
pub open spec fn donation_campaign_pred(id: Seq<char>) -> spec_fn(Donation) -> bool {
    |d: Donation|
        match d.campaign {
            Some(c) => c@ == id,
            None => false,
        }
}

/// The filter "this donation is earmarked for event `id`".
pub open spec fn donation_event_pred(id: Seq<char>) -> spec_fn(Donation) -> bool {
    |d: Donation|
        match d.event {
            Some(e) => e@ == id,
            None => false,
        }
}

impl Contract {
    /// The position of the donation with this id.
    fn find_donation_index(&self, id: &String) -> (r: Option<usize>)
        ensures
            match r {
                Some(i) => i < self.donations@.len() && donation_idx(self.donations@, id@)
                    == i,
                None => donation_idx(self.donations@, id@) == -1,
            },
    {
        let n = self.donations.len();
        let mut i: usize = 0;
        while i < n
            invariant
                0 <= i <= n,
                n == self.donations@.len(),
                forall|k: int| 0 <= k < i ==> self.donations@[k].id@ != id@,
            decreases n - i,
        {
            if self.donations[i].id == *id {
                proof {
                    lemma_find_by_is(self.donations@, donation_pred(id@), i as int);
                }
                return Some(i);
            }
            i = i + 1;
        }
        proof {
            lemma_find_by_none(self.donations@, donation_pred(id@));
        }
        None
    }

    /// Record a donation with typed fields: validate it completely, then —
    /// in one step, from the caller's point of view — append it to the
    /// ledger and grant the donor a voting credit on its target.
    ///
    /// No state is touched unless every check passes, and a donation id is
    /// accepted at most once, ever: re-sending a notification cannot record
    /// a second copy.
    pub fn record_donation(
        &mut self,
        id: String,
        donor: String,
        token: String,
        amount: u128,
        amount_usd: DecimalAmount,
        target: TargetKind,
        event: Option<String>,
        campaign: Option<String>,
        now: u64,
    ) -> (r: Result<(), LedgerError>)
        requires
            old(self).wf(),
            old(self).donations@.len() < u64::MAX,
        ensures
            final(self).wf(),
            record_donation_rel(
                *old(self),
                id,
                donor,
                token,
                amount,
                amount_usd,
                target,
                event,
                campaign,
                now,
                r,
                *final(self),
            ),
    {
        let consistent = match (&target, &event, &campaign) {
            (TargetKind::General, None, None) => true,
            (TargetKind::Event, Some(_), None) => true,
            (TargetKind::Campaign, None, Some(_)) => true,
            _ => false,
        };
        if !consistent {
            return Err(LedgerError::InvalidInput);
        }
        if self.find_donation_index(&id).is_some() {
            return Err(LedgerError::InvalidInput);
        }
        match &target {
            TargetKind::General => {},
            TargetKind::Event => {
                let eid = match &event {
                    Some(e) => e,
                    None => {
                        return Err(LedgerError::InvalidInput);
                    },
                };
                let ei = match self.find_event_index(eid) {
                    None => {
                        return Err(LedgerError::NotFound);
                    },
                    Some(ei) => ei,
                };
                let e = &mut self.events[ei];
                e.add_voter(donor.clone());
            },
            TargetKind::Campaign => {
                let cid = match &campaign {
                    Some(c) => c,
                    None => {
                        return Err(LedgerError::InvalidInput);
                    },
                };
                let ci = match self.find_campaign_index(cid) {
                    None => {
                        return Err(LedgerError::NotFound);
                    },
                    Some(ci) => ci,
                };
                let c = &mut self.campaigns[ci];
                c.add_voter(donor.clone());
            },
        }
        let d = Donation::new(id, donor, token, amount, amount_usd, target, event, campaign, now);
        let ghost stored = d;
        self.donations.push(d);
        self.donations_count = self.donations.len() as u64;
        proof {
            let pre = *old(self);
            let post = *self;
            lemma_find_by(pre.donations@, donation_pred(stored.id@));
            assert forall|a: int, b: int|
                0 <= a < b < post.donations@.len() implies post.donations@[a].id@
                != post.donations@[b].id@ by {
                if b == post.donations@.len() - 1 {
                    assert(post.donations@[a] == pre.donations@[a]);
                }
            }
            assert forall|k: int|
                0 <= k < post.campaigns@.len() implies sum_votes(
                (#[trigger] post.campaigns@[k]).partners@,
            ) + post.campaigns@[k].voters@.len() <= post.donations@.len() by {
                if post.campaigns@[k] == pre.campaigns@[k] {
                    assert(sum_votes(pre.campaigns@[k].partners@)
                        + pre.campaigns@[k].voters@.len() <= pre.donations@.len());
                }
            }
            assert forall|k: int|
                0 <= k < post.events@.len() implies sum_votes(
                (#[trigger] post.events@[k]).partners@,
            ) + post.events@[k].voters@.len() <= post.donations@.len() by {
                if post.events@[k] == pre.events@[k] {
                    assert(sum_votes(pre.events@[k].partners@) + pre.events@[k].voters@.len()
                        <= pre.donations@.len());
                }
            }
        }
        Ok(())
    }

    /// Record a donation given with string fields: `target` is one of the
    /// words `general`, `event` or `campaign`, and the ids use the `"null"`
    /// sentinel for absence.
    pub fn create_donation(
        &mut self,
        id: String,
        donor: String,
        token: String,
        amount: u128,
        amount_usd: DecimalAmount,
        target: String,
        event: String,
        campaign: String,
        now: u64,
    ) -> (r: Result<(), LedgerError>)
        requires
            old(self).wf(),
            old(self).donations@.len() < u64::MAX,
        ensures
            final(self).wf(),
            create_donation_rel(
                *old(self),
                id,
                donor,
                token,
                amount,
                amount_usd,
                target,
                event,
                campaign,
                now,
                r,
                *final(self),
            ),
    {
        let kind = if target == "general".to_owned() {
            TargetKind::General
        } else if target == "event".to_owned() {
            TargetKind::Event
        } else if target == "campaign".to_owned() {
            TargetKind::Campaign
        } else {
            return Err(LedgerError::InvalidInput);
        };
        let eid: Option<String> = if event == "null".to_owned() {
            None
        } else {
            Some(event)
        };
        let cid: Option<String> = if campaign == "null".to_owned() {
            None
        } else {
            Some(campaign)
        };
        self.record_donation(id, donor, token, amount, amount_usd, kind, eid, cid, now)
    }

    /// The donation entry point for the chain's native asset: the caller is
    /// the donor.
    pub fn near_donation(
        &mut self,
        donor: String,
        id: String,
        token: String,
        amount: u128,
        amount_usd: DecimalAmount,
        target: String,
        event: String,
        campaign: String,
        now: u64,
    ) -> (r: Result<(), LedgerError>)
        requires
            old(self).wf(),
            old(self).donations@.len() < u64::MAX,
        ensures
            final(self).wf(),
            create_donation_rel(
                *old(self),
                id,
                donor,
                token,
                amount,
                amount_usd,
                target,
                event,
                campaign,
                now,
                r,
                *final(self),
            ),
    {
        self.create_donation(id, donor, token, amount, amount_usd, target, event, campaign, now)
    }

    /// Donations in other assets are recorded by the transfer-notification
    /// pipeline; this entry point exists for interface parity and does
    /// nothing.
    pub fn token_donation(&mut self)
        ensures
            *final(self) == *old(self),
    {
    }

    /// One page of the donations earmarked for campaign `id`, each with its
    /// asset metadata, plus the total count of matching donations.  Page
    /// numbers start at 1; page 0 is rejected.
    pub fn get_campaign_donations(&self, id: String, page: usize, limit: usize) -> (r: Result<
        Response<DonationDetails>,
        LedgerError,
    >)
        ensures
            match r {
                Ok(resp) => {
                    let m = filter_seq(self.donations@, donation_campaign_pred(id@));
                    let pg = page_of(m, page as int, limit as int);
                    &&& page >= 1
                    &&& resp.count == m.len()
                    &&& resp.results@.len() == pg.len()
                    &&& forall|k: int|
                        0 <= k < pg.len() ==> (#[trigger] resp.results@[k]).donation == pg[k]
                            && resp.results@[k].tokenmetadata == token_lookup(
                            self.tokens@,
                            pg[k].token@,
                        )
                },
                Err(e) => e == LedgerError::InvalidInput && page == 0,
            },
    {
        if page == 0 {
            return Err(LedgerError::InvalidInput);
        }
        let ghost p = donation_campaign_pred(id@);
        let n = self.donations.len();
        let mut all: Vec<Donation> = Vec::new();
        let mut i: usize = 0;
        while i < n
            invariant
                0 <= i <= n,
                n == self.donations@.len(),
                p == donation_campaign_pred(id@),
                all@ == filter_seq(self.donations@.take(i as int), p),
            decreases n - i,
        {
            proof {
                assert(self.donations@.take(i + 1).drop_last() =~= self.donations@.take(i as int));
                assert(self.donations@.take(i + 1).last() == self.donations@[i as int]);
            }
            let d = &self.donations[i];
            let hit = match &d.campaign {
                Some(c) => *c == id,
                None => false,
            };
            if hit {
                all.push(d.clone());
            }
            i = i + 1;
        }
        proof {
            assert(self.donations@.take(n as int) =~= self.donations@);
        }
        let total = all.len();
        let (a, b) = page_bounds(total, page, limit);
        let mut results: Vec<DonationDetails> = Vec::new();
        let mut j: usize = a;
        while j < b
            invariant
                a <= j <= b <= total,
                total == all@.len(),
                all@ == filter_seq(self.donations@, p),
                p == donation_campaign_pred(id@),
                a == crate::pagination::page_start(total as int, page as int, limit as int),
                b == crate::pagination::page_end(total as int, page as int, limit as int),
                results@.len() == j - a,
                forall|k: int|
                    0 <= k < results@.len() ==> (#[trigger] results@[k]).donation == all@[a + k]
                        && results@[k].tokenmetadata == token_lookup(
                        self.tokens@,
                        all@[a + k].token@,
                    ),
            decreases b - j,
        {
            let metadata = self.get_token(all[j].token.clone());
            results.push(DonationDetails { donation: all[j].clone(), tokenmetadata: metadata });
            j = j + 1;
        }
        Ok(Response { results, count: total as u64 })
    }

    /// One page of the donations earmarked for event `id`, each with its
    /// asset metadata, plus the total count of matching donations.  Page
    /// numbers start at 1; page 0 is rejected.
    pub fn get_event_donations(&self, id: String, page: usize, limit: usize) -> (r: Result<
        Response<DonationDetails>,
        LedgerError,
    >)
        ensures
            match r {
                Ok(resp) => {
                    let m = filter_seq(self.donations@, donation_event_pred(id@));
                    let pg = page_of(m, page as int, limit as int);
                    &&& page >= 1
                    &&& resp.count == m.len()
                    &&& resp.results@.len() == pg.len()
                    &&& forall|k: int|
                        0 <= k < pg.len() ==> (#[trigger] resp.results@[k]).donation == pg[k]
                            && resp.results@[k].tokenmetadata == token_lookup(
                            self.tokens@,
                            pg[k].token@,
                        )
                },
                Err(e) => e == LedgerError::InvalidInput && page == 0,
            },
    {
        if page == 0 {
            return Err(LedgerError::InvalidInput);
        }
        let ghost p = donation_event_pred(id@);
        let n = self.donations.len();
        let mut all: Vec<Donation> = Vec::new();
        let mut i: usize = 0;
        while i < n
            invariant
                0 <= i <= n,
                n == self.donations@.len(),
                p == donation_event_pred(id@),
                all@ == filter_seq(self.donations@.take(i as int), p),
            decreases n - i,
        {
            proof {
                assert(self.donations@.take(i + 1).drop_last() =~= self.donations@.take(i as int));
                assert(self.donations@.take(i + 1).last() == self.donations@[i as int]);
            }
            let d = &self.donations[i];
            let hit = match &d.event {
                Some(e) => *e == id,
                None => false,
            };
            if hit {
                all.push(d.clone());
            }
            i = i + 1;
        }
        proof {
            assert(self.donations@.take(n as int) =~= self.donations@);
        }
        let total = all.len();
        let (a, b) = page_bounds(total, page, limit);
        let mut results: Vec<DonationDetails> = Vec::new();
        let mut j: usize = a;
        while j < b
            invariant
                a <= j <= b <= total,
                total == all@.len(),
                all@ == filter_seq(self.donations@, p),
                p == donation_event_pred(id@),
                a == crate::pagination::page_start(total as int, page as int, limit as int),
                b == crate::pagination::page_end(total as int, page as int, limit as int),
                results@.len() == j - a,
                forall|k: int|
                    0 <= k < results@.len() ==> (#[trigger] results@[k]).donation == all@[a + k]
                        && results@[k].tokenmetadata == token_lookup(
                        self.tokens@,
                        all@[a + k].token@,
                    ),
            decreases b - j,
        {
            let metadata = self.get_token(all[j].token.clone());
            results.push(DonationDetails { donation: all[j].clone(), tokenmetadata: metadata });
            j = j + 1;
        }
        Ok(Response { results, count: total as u64 })
    }
}

} // verus!

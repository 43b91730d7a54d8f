//! Voting-bearing fundraising campaigns.
//!
//! A campaign is structurally parallel to an event: a cause-tagged,
//! time-boxed target with a funding goal, a voter set of donor addresses and
//! partner-candidate tallies.  Campaigns are created by an explicit call,
//! mutated only by donation attribution and voting, and never deleted.

use vstd::prelude::*;

use crate::amount::DecimalAmount;
use crate::errors::LedgerError;
use crate::events::{clone_opt_string, date_in_range, parse_date, spec_parse_date};
use crate::voting::{
    cast_vote_in, clone_strings, clone_tallies, has_partner, has_voter, spec_vote, sum_votes,
    vote_status_string, vote_status_text, voter_idx, voters_add, voters_remove, voters_wf,
    partners_register, partners_wf, PartnerTally, VoteStatus,
};
use crate::pagination::{page_bounds, page_of};
use crate::{campaign_idx, campaign_pred, unchanged_but_campaigns, Contract, Response};

verus! {

/// A fundraising campaign.
#[derive(Debug)]
pub struct Campaign {
    pub id: String,
    pub created_by: String,
    pub managers: Vec<String>,
    pub title: String,
    pub cause: String,
    pub start_date: String,
    pub end_date: String,
    pub description: String,
    pub target: u128,
    pub current: u128,
    pub current_usd: DecimalAmount,
    pub token: String,
    pub voters: Vec<String>,
    pub partner: Option<String>,
    pub partners: Vec<PartnerTally>,
    pub start_year: i32,
    pub start_month: i32,
    pub start_day: i32,
    pub end_year: i32,
    pub end_month: i32,
    pub end_day: i32,
    pub created_on: u64,
    pub img: String,
}

impl Clone for Campaign {
    fn clone(&self) -> (res: Self)
        ensures
            same_campaign(self, &res),
    {
        Campaign {
            id: self.id.clone(),
            created_by: self.created_by.clone(),
            managers: clone_strings(&self.managers),
            title: self.title.clone(),
            cause: self.cause.clone(),
            start_date: self.start_date.clone(),
            end_date: self.end_date.clone(),
            description: self.description.clone(),
            target: self.target,
            current: self.current,
            current_usd: self.current_usd,
            token: self.token.clone(),
            voters: clone_strings(&self.voters),
            partner: clone_opt_string(&self.partner),
            partners: clone_tallies(&self.partners),
            start_year: self.start_year,
            start_month: self.start_month,
            start_day: self.start_day,
            end_year: self.end_year,
            end_month: self.end_month,
            end_day: self.end_day,
            created_on: self.created_on,
            img: self.img.clone(),
        }
    }
}

impl Campaign {
    /// The campaign's internal consistency: one credit per address, one
    /// tally per candidate.
    pub open spec fn wf(&self) -> bool {
        &&& voters_wf(self.voters@)
        &&& partners_wf(self.partners@)
    }

    /// Build a campaign from its creation fields.  `start_dates` and
    /// `end_dates` must each begin `year,month,day`; a malformed one is
    /// rejected before any state exists.
    pub fn new(
        id: String,
        title: String,
        cause: String,
        description: String,
        start_date: String,
        end_date: String,
        target: u128,
        token: String,
        start_dates: String,
        end_dates: String,
        img: String,
        created_by: String,
        created_on: u64,
    ) -> (r: Result<Campaign, LedgerError>)
        ensures
            match r {
                Ok(c) => is_fresh_campaign(
                    c,
                    id,
                    title,
                    cause,
                    description,
                    start_date,
                    end_date,
                    target,
                    token,
                    start_dates,
                    end_dates,
                    img,
                    created_by,
                    created_on,
                ),
                Err(er) => {
                    &&& er == LedgerError::InvalidInput
                    &&& !((spec_parse_date(start_dates@) matches Some((y, m, d)) && date_in_range(
                        y,
                        m,
                        d,
                    )) && (spec_parse_date(end_dates@) matches Some((y2, m2, d2)) && date_in_range(
                        y2,
                        m2,
                        d2,
                    )))
                },
            },
    {
        let start = match parse_date(start_dates.as_str()) {
            None => {
                return Err(LedgerError::InvalidInput);
            },
            Some(dt) => dt,
        };
        let end = match parse_date(end_dates.as_str()) {
            None => {
                return Err(LedgerError::InvalidInput);
            },
            Some(dt) => dt,
        };
        Ok(
            Campaign {
                id,
                created_by,
                managers: Vec::new(),
                title,
                cause,
                start_date,
                end_date,
                description,
                target,
                current: 0,
                current_usd: DecimalAmount::zero(),
                token,
                created_on,
                voters: Vec::new(),
                partner: None,
                partners: Vec::new(),
                start_year: start.year,
                start_month: start.month,
                start_day: start.day,
                end_year: end.year,
                end_month: end.month,
                end_day: end.day,
                img,
            },
        )
    }

    /// Consume `v`'s voting credit if it holds one; report whether it did.
    pub fn get_voter(&mut self, v: String) -> (found: bool)
        requires
            old(self).wf(),
        ensures
            final(self).wf(),
            found == has_voter(old(self).voters@, v@),
            found ==> final(self).voters@ == old(self).voters@.remove(
                voter_idx(old(self).voters@, v@),
            ),
            !found ==> final(self).voters@ == old(self).voters@,
            !has_voter(final(self).voters@, v@),
            unchanged_but_voters(old(self), final(self)),
    {
        voters_remove(&mut self.voters, &v)
    }

    /// Grant `v` a voting credit; granting to a holder changes nothing.
    pub fn add_voter(&mut self, v: String)
        requires
            old(self).wf(),
        ensures
            final(self).wf(),
            has_voter(old(self).voters@, v@) ==> final(self).voters@ == old(self).voters@,
            !has_voter(old(self).voters@, v@) ==> final(self).voters@ == old(self).voters@.push(v),
            has_voter(final(self).voters@, v@),
            unchanged_but_voters(old(self), final(self)),
    {
        voters_add(&mut self.voters, v)
    }
}

/// What a freshly created campaign holds: the creation fields, parsed
/// dates, zero totals, and empty voting state.
pub open spec fn is_fresh_campaign(
    c: Campaign,
    id: String,
    title: String,
    cause: String,
    description: String,
    start_date: String,
    end_date: String,
    target: u128,
    token: String,
    start_dates: String,
    end_dates: String,
    img: String,
    created_by: String,
    created_on: u64,
) -> bool {
    &&& spec_parse_date(start_dates@) == Some(
        (c.start_year as int, c.start_month as int, c.start_day as int),
    )
    &&& spec_parse_date(end_dates@) == Some(
        (c.end_year as int, c.end_month as int, c.end_day as int),
    )
    &&& c.id == id
    &&& c.created_by == created_by
    &&& c.managers@ == Seq::<String>::empty()
    &&& c.title == title
    &&& c.cause == cause
    &&& c.start_date == start_date
    &&& c.end_date == end_date
    &&& c.description == description
    &&& c.target == target
    &&& c.current == 0
    &&& c.current_usd.mantissa == 0
    &&& c.token == token
    &&& c.voters@ == Seq::<String>::empty()
    &&& c.partner is None
    &&& c.partners@ == Seq::<PartnerTally>::empty()
    &&& c.created_on == created_on
    &&& c.img == img
    &&& c.wf()
}

/// `b` holds the same content as `a`: every field equal, list fields
/// element for element.  What [`Clone`] yields.
pub open spec fn same_campaign(a: &Campaign, b: &Campaign) -> bool {
    &&& b.id == a.id
    &&& b.created_by == a.created_by
    &&& b.managers@ == a.managers@
    &&& b.title == a.title
    &&& b.cause == a.cause
    &&& b.start_date == a.start_date
    &&& b.end_date == a.end_date
    &&& b.description == a.description
    &&& b.target == a.target
    &&& b.current == a.current
    &&& b.current_usd == a.current_usd
    &&& b.token == a.token
    &&& b.voters@ == a.voters@
    &&& b.partner == a.partner
    &&& b.partners@ == a.partners@
    &&& b.start_year == a.start_year
    &&& b.start_month == a.start_month
    &&& b.start_day == a.start_day
    &&& b.end_year == a.end_year
    &&& b.end_month == a.end_month
    &&& b.end_day == a.end_day
    &&& b.created_on == a.created_on
    &&& b.img == a.img
}

/// The two campaigns agree on every field except the voter set.
pub open spec fn unchanged_but_voters(a: &Campaign, b: &Campaign) -> bool {
    &&& b.id == a.id
    &&& b.created_by == a.created_by
    &&& b.managers == a.managers
    &&& b.title == a.title
    &&& b.cause == a.cause
    &&& b.start_date == a.start_date
    &&& b.end_date == a.end_date
    &&& b.description == a.description
    &&& b.target == a.target
    &&& b.current == a.current
    &&& b.current_usd == a.current_usd
    &&& b.token == a.token
    &&& b.partner == a.partner
    &&& b.partners == a.partners
    &&& b.start_year == a.start_year
    &&& b.start_month == a.start_month
    &&& b.start_day == a.start_day
    &&& b.end_year == a.end_year
    &&& b.end_month == a.end_month
    &&& b.end_day == a.end_day
    &&& b.created_on == a.created_on
    &&& b.img == a.img
}

/// The two campaigns agree on every field except the voter set and the
/// partner tallies.
pub open spec fn unchanged_but_voting(a: &Campaign, b: &Campaign) -> bool {
    &&& b.id == a.id
    &&& b.created_by == a.created_by
    &&& b.managers == a.managers
    &&& b.title == a.title
    &&& b.cause == a.cause
    &&& b.start_date == a.start_date
    &&& b.end_date == a.end_date
    &&& b.description == a.description
    &&& b.target == a.target
    &&& b.current == a.current
    &&& b.current_usd == a.current_usd
    &&& b.token == a.token
    &&& b.partner == a.partner
    &&& b.start_year == a.start_year
    &&& b.start_month == a.start_month
    &&& b.start_day == a.start_day
    &&& b.end_year == a.end_year
    &&& b.end_month == a.end_month
    &&& b.end_day == a.end_day
    &&& b.created_on == a.created_on
    &&& b.img == a.img
}

impl Campaign {
    /// Register `name` as a beneficiary candidate with a zero tally;
    /// registering a name already standing changes nothing.
    pub fn register_partner(&mut self, name: String)
        requires
            old(self).wf(),
        ensures
            final(self).wf(),
            has_partner(old(self).partners@, name@) ==> final(self).partners@ == old(
                self,
            ).partners@,
            !has_partner(old(self).partners@, name@) ==> final(self).partners@ == old(
                self,
            ).partners@.push((PartnerTally { name: name, votes: 0u64 })),
            has_partner(final(self).partners@, name@),
            sum_votes(final(self).partners@) == sum_votes(old(self).partners@),
            final(self).voters == old(self).voters,
            unchanged_but_voting(old(self), final(self)),
    {
        partners_register(&mut self.partners, name)
    }

    /// Cast `voter`'s vote for `partner` on this campaign.
    pub fn cast_vote(&mut self, voter: &String, partner: &String) -> (st: VoteStatus)
        requires
            old(self).wf(),
            sum_votes(old(self).partners@) + old(self).voters@.len() <= u64::MAX,
        ensures
            final(self).wf(),
            ({
                let (st2, vs2, ps2) = spec_vote(
                    old(self).voters@,
                    old(self).partners@,
                    voter@,
                    partner@,
                );
                st == st2 && final(self).voters@ == vs2 && final(self).partners@ == ps2
            }),
            sum_votes(final(self).partners@) + final(self).voters@.len() == sum_votes(
                old(self).partners@,
            ) + old(self).voters@.len(),
            unchanged_but_voting(old(self), final(self)),
    {
        cast_vote_in(&mut self.voters, &mut self.partners, voter, partner)
    }
}

impl Contract {
    /// The position of the campaign with this id.
    pub(crate) fn find_campaign_index(&self, id: &String) -> (r: Option<usize>)
        ensures
            match r {
                Some(i) => i < self.campaigns@.len() && self.campaigns@[i as int].id@ == id@
                    && campaign_idx(self.campaigns@, id@) == i,
                None => campaign_idx(self.campaigns@, id@) == -1,
            },
    {
        let n = self.campaigns.len();
        let mut i: usize = 0;
        while i < n
            invariant
                0 <= i <= n,
                n == self.campaigns@.len(),
                forall|k: int| 0 <= k < i ==> self.campaigns@[k].id@ != id@,
            decreases n - i,
        {
            if self.campaigns[i].id == *id {
                proof {
                    crate::lookup::lemma_find_by_is(self.campaigns@, campaign_pred(id@), i as int);
                }
                return Some(i);
            }
            i = i + 1;
        }
        proof {
            crate::lookup::lemma_find_by_none(self.campaigns@, campaign_pred(id@));
        }
        None
    }

    /// Create a campaign.  A malformed date string or an id already in use
    /// is rejected, and rejection changes nothing.
    pub fn create_campaign(
        &mut self,
        id: String,
        title: String,
        cause: String,
        description: String,
        target: u128,
        token: String,
        start_date: String,
        start_dates: String,
        end_date: String,
        end_dates: String,
        img: String,
        created_by: String,
        now: u64,
    ) -> (r: Result<(), LedgerError>)
        requires
            old(self).wf(),
        ensures
            final(self).wf(),
            match r {
                Ok(()) => {
                    &&& campaign_idx(old(self).campaigns@, id@) == -1
                    &&& final(self).campaigns@.len() == old(self).campaigns@.len() + 1
                    &&& forall|k: int|
                        0 <= k < old(self).campaigns@.len() ==> final(self).campaigns@[k] == old(self).campaigns@[k]
                    &&& is_fresh_campaign(
                        final(self).campaigns@.last(),
                        id,
                        title,
                        cause,
                        description,
                        start_date,
                        end_date,
                        target,
                        token,
                        start_dates,
                        end_dates,
                        img,
                        created_by,
                        now,
                    )
                    &&& final(self).campaigns_count == old(self).campaigns_count + 1
                },
                Err(e) => {
                    &&& e == LedgerError::InvalidInput
                    &&& *final(self) == *old(self)
                    &&& !(campaign_idx(old(self).campaigns@, id@) == -1 && (spec_parse_date(
                        start_dates@,
                    ) matches Some((y, m, d)) && date_in_range(y, m, d)) && (spec_parse_date(
                        end_dates@,
                    ) matches Some((y2, m2, d2)) && date_in_range(y2, m2, d2)))
                },
            },
            crate::unchanged_but_campaigns(old(self), final(self)),
    {
        let c = match Campaign::new(
            id.clone(),
            title,
            cause,
            description,
            start_date,
            end_date,
            target,
            token,
            start_dates,
            end_dates,
            img,
            created_by,
            now,
        ) {
            Err(e) => {
                return Err(e);
            },
            Ok(c) => c,
        };
        if self.find_campaign_index(&id).is_some() {
            return Err(LedgerError::InvalidInput);
        }
        self.campaigns.push(c);
        self.campaigns_count = self.campaigns.len() as u64;
        proof {
            let pre = old(self).campaigns@;
            let post = self.campaigns@;
            crate::lookup::lemma_find_by(pre, campaign_pred(id@));
            assert forall|a: int, b: int| 0 <= a < b < post.len() implies post[a].id@ != post[b].id@
            by {
                if b == post.len() - 1 {
                    assert(post[a] == pre[a]);
                    assert(post[b].id@ == id@);
                }
            }
            assert(sum_votes(post.last().partners@) == 0);
        }
        Ok(())
    }

    /// The campaign with this id, if any.
    pub fn get_campaign(&self, id: String) -> (r: Option<Campaign>)
        ensures
            ({
                let ci = campaign_idx(self.campaigns@, id@);
                match r {
                    Some(c) => ci != -1 && 0 <= ci < self.campaigns@.len() && same_campaign(
                        &self.campaigns@[ci],
                        &c,
                    ),
                    None => ci == -1,
                }
            }),
    {
        match self.find_campaign_index(&id) {
            None => None,
            Some(i) => Some(self.campaigns[i].clone()),
        }
    }

    /// Register a partner candidate on the campaign with this id.
    ///
    /// Returns `"done"` when the campaign exists — registering a candidate
    /// that already stands is a no-op — and `"not found"` otherwise.
    pub fn add_campaign_partner(&mut self, id: String, partner: String) -> (r: String)
        requires
            old(self).wf(),
        ensures
            final(self).wf(),
            ({
                let ci = campaign_idx(old(self).campaigns@, id@);
                if ci == -1 {
                    r@ == "not found"@ && *final(self) == *old(self)
                } else {
                    let c0 = old(self).campaigns@[ci];
                    let c1 = final(self).campaigns@[ci];
                    &&& r@ == "done"@
                    &&& final(self).campaigns@.len() == old(self).campaigns@.len()
                    &&& forall|k: int|
                        0 <= k < old(self).campaigns@.len() && k != ci ==> final(self).campaigns@[k] == old(self).campaigns@[k]
                    &&& if has_partner(c0.partners@, partner@) {
                        c1.partners@ == c0.partners@
                    } else {
                        c1.partners@ == c0.partners@.push((PartnerTally { name: partner, votes: 0u64 }))
                    }
                    &&& has_partner(c1.partners@, partner@)
                    &&& c1.voters == c0.voters
                    &&& unchanged_but_voting(&c0, &c1)
                    &&& final(self).campaigns_count == old(self).campaigns_count
                }
            }),
            crate::unchanged_but_campaigns(old(self), final(self)),
    {
        let ci = match self.find_campaign_index(&id) {
            None => {
                return "not found".to_owned();
            },
            Some(ci) => ci,
        };
        let c = &mut self.campaigns[ci];
        c.register_partner(partner);
        proof {
            let pre = old(self).campaigns@;
            let post = self.campaigns@;
            assert(forall|k: int| 0 <= k < post.len() ==> post[k].id@ == pre[k].id@);
            assert forall|a: int, b: int| 0 <= a < b < post.len() implies post[a].id@ != post[b].id@
            by {}
            assert forall|k: int|
                0 <= k < post.len() implies sum_votes((#[trigger] post[k]).partners@)
                + post[k].voters@.len() <= self.donations@.len() by {
                if k != ci {
                    assert(post[k] == pre[k]);
                }
            }
        }
        "done".to_owned()
    }

    /// Cast the calling `voter`'s vote for `partner` on the campaign with
    /// this id.
    ///
    /// Returns `"not found"` if the campaign does not exist, `"voter not
    /// found"` if the voter holds no credit on it, `"unknown partner"` if a
    /// credit holder names a partner that is no candidate there (the credit
    /// is kept), and `"done"` when the credit was consumed and the partner's
    /// tally rose by one.  Every outcome but `"done"` changes nothing.
    pub fn campaign_vote(&mut self, id: String, voter: String, partner: String) -> (r: String)
        requires
            old(self).wf(),
        ensures
            final(self).wf(),
            campaign_vote_rel(*old(self), id, voter, partner, r, *final(self)),
    {
        let ci = match self.find_campaign_index(&id) {
            None => {
                return "not found".to_owned();
            },
            Some(ci) => ci,
        };
        proof {
            assert(self.donations@.len() <= u64::MAX) by {
                assert(self.donations.len() == self.donations@.len());
            }
        }
        let c = &mut self.campaigns[ci];
        let st = c.cast_vote(&voter, &partner);
        proof {
            let pre = old(self).campaigns@;
            let post = self.campaigns@;
            assert(forall|k: int| 0 <= k < post.len() ==> post[k].id@ == pre[k].id@);
            assert forall|a: int, b: int| 0 <= a < b < post.len() implies post[a].id@ != post[b].id@
            by {}
            assert forall|k: int|
                0 <= k < post.len() implies sum_votes((#[trigger] post[k]).partners@)
                + post[k].voters@.len() <= self.donations@.len() by {
                if k != ci {
                    assert(post[k] == pre[k]);
                }
            }
        }
        vote_status_string(st)
    }

    /// The campaigns whose start (or, for any other period word, end) date
    /// falls in the given year and month.
    pub fn filter_campaigns(&self, period: String, year: i32, month: i32) -> (r: Vec<Campaign>)
        ensures
            ({
                let m = crate::lookup::filter_seq(
                    self.campaigns@,
                    campaign_period_pred(period@, year as int, month as int),
                );
                r@.len() == m.len() && forall|k: int|
                    0 <= k < m.len() ==> same_campaign(&m[k], &r@[k])
            }),
    {
        let ghost p = campaign_period_pred(period@, year as int, month as int);
        let is_start = period == "start".to_owned();
        let n = self.campaigns.len();
        let mut r: Vec<Campaign> = Vec::new();
        let mut i: usize = 0;
        while i < n
            invariant
                0 <= i <= n,
                n == self.campaigns@.len(),
                p == campaign_period_pred(period@, year as int, month as int),
                is_start == (period@ == "start"@),
                ({
                    let m = crate::lookup::filter_seq(self.campaigns@.take(i as int), p);
                    r@.len() == m.len() && forall|k: int|
                        0 <= k < m.len() ==> same_campaign(&m[k], &r@[k])
                }),
            decreases n - i,
        {
            proof {
                assert(self.campaigns@.take(i + 1).drop_last() =~= self.campaigns@.take(i as int));
                assert(self.campaigns@.take(i + 1).last() == self.campaigns@[i as int]);
            }
            let c = &self.campaigns[i];
            let hit = if is_start {
                c.start_year == year && c.start_month == month
            } else {
                c.end_year == year && c.end_month == month
            };
            if hit {
                r.push(c.clone());
            }
            i = i + 1;
        }
        proof {
            assert(self.campaigns@.take(n as int) =~= self.campaigns@);
        }
        r
    }

    /// One page of all campaigns, plus their total number.  Page numbers
    /// start at 1; page 0 is rejected.
    pub fn get_campaigns(&self, page: usize, limit: usize) -> (r: Result<
        Response<Campaign>,
        LedgerError,
    >)
        ensures
            match r {
                Ok(resp) => {
                    let m = page_of(self.campaigns@, page as int, limit as int);
                    &&& page >= 1
                    &&& resp.count == self.campaigns@.len()
                    &&& resp.results@.len() == m.len()
                    &&& forall|k: int| 0 <= k < m.len() ==> same_campaign(&m[k], &resp.results@[k])
                },
                Err(e) => e == LedgerError::InvalidInput && page == 0,
            },
    {
        if page == 0 {
            return Err(LedgerError::InvalidInput);
        }
        let n = self.campaigns.len();
        let (a, b) = page_bounds(n, page, limit);
        let mut results: Vec<Campaign> = Vec::new();
        let mut j: usize = a;
        while j < b
            invariant
                a <= j <= b <= n,
                n == self.campaigns@.len(),
                a == crate::pagination::page_start(n as int, page as int, limit as int),
                b == crate::pagination::page_end(n as int, page as int, limit as int),
                results@.len() == j - a,
                forall|k: int|
                    0 <= k < results@.len() ==> same_campaign(
                        &self.campaigns@[a + k],
                        &results@[k],
                    ),
            decreases b - j,
        {
            results.push(self.campaigns[j].clone());
            j = j + 1;
        }
        Ok(Response { results, count: self.campaigns.len() as u64 })
    }
}


/// What casting a campaign vote does, relating the state before the call to
/// the state after it and to the returned status word.
pub open spec fn campaign_vote_rel(
    pre: Contract,
    id: String,
    voter: String,
    partner: String,
    r: String,
    post: Contract,
) -> bool {
    &&& ({
        let ci = campaign_idx(pre.campaigns@, id@);
        if ci == -1 {
            r@ == vote_status_text(VoteStatus::NotFound) && post == pre
        } else {
            let c0 = pre.campaigns@[ci];
            let c1 = post.campaigns@[ci];
            let (st, vs2, ps2) = spec_vote(c0.voters@, c0.partners@, voter@, partner@);
            &&& r@ == vote_status_text(st)
            &&& post.campaigns@.len() == pre.campaigns@.len()
            &&& forall|k: int|
                0 <= k < pre.campaigns@.len() && k != ci ==> post.campaigns@[k]
                    == pre.campaigns@[k]
            &&& c1.voters@ == vs2
            &&& c1.partners@ == ps2
            &&& unchanged_but_voting(&c0, &c1)
            &&& post.campaigns_count == pre.campaigns_count
        }
    })
    &&& crate::unchanged_but_campaigns(&pre, &post)
}

/// The filter used by [`Contract::filter_campaigns`]: matching the start
/// date for the period word `start`, the end date otherwise.
pub open spec fn campaign_period_pred(period: Seq<char>, year: int, month: int) -> spec_fn(
    Campaign,
) -> bool {
    |c: Campaign|
        if period == "start"@ {
            c.start_year == year && c.start_month == month
        } else {
            c.end_year == year && c.end_month == month
        }
}

} // verus!

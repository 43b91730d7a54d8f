//! Voting-bearing fundraising events.
//!
//! An event is a time-boxed, cause-tagged target: it carries a funding
//! target, a voter set of donor addresses, and partner-candidate tallies.
//! Events are created by an explicit call, mutated only by donation
//! attribution and voting, and never deleted.

use vstd::prelude::*;

use crate::errors::LedgerError;
use crate::lookup::find_by;
use crate::text::{char_pred, find_char_from, int_component, parse_i32};
use crate::voting::{
    cast_vote_in, clone_strings, clone_tallies, has_partner, has_voter, spec_vote, sum_votes,
    vote_status_string, vote_status_text, voter_idx, voters_add, voters_remove, voters_wf,
    partners_register, partners_wf, PartnerTally, VoteStatus,
};
use crate::pagination::{page_bounds, page_of};
use crate::{event_idx, event_pred, unchanged_but_events, Contract, Response};

verus! {

/// A kind of event (online, physical, ...).
#[derive(Debug)]
pub struct EventType {
    pub name: String,
}

/// A calendar date as plain components; what the comma-separated date
/// strings of campaigns and events decode to.
#[derive(Clone, Copy, Debug, PartialEq, Eq, Structural)]
pub struct Date {
    pub year: i32,
    pub month: i32,
    pub day: i32,
}

/// The first three integer components of a comma-separated date string, or
/// `None` if it has fewer than three components or one of the first three is
/// not an integer.  Anything after the third component is ignored.
pub open spec fn spec_parse_date(s: Seq<char>) -> Option<(int, int, int)> {
    let a = find_by(s, char_pred(','));
    if a == -1 {
        None
    } else {
        let rest = s.skip(a + 1);
        let b = find_by(rest, char_pred(','));
        if b == -1 {
            None
        } else {
            let tail = rest.skip(b + 1);
            let c = find_by(tail, char_pred(','));
            let third = if c == -1 {
                tail
            } else {
                tail.take(c)
            };
            match (int_component(s.take(a)), int_component(rest.take(b)), int_component(third)) {
                (Some(y), Some(m), Some(d)) => Some((y, m, d)),
                _ => None,
            }
        }
    }
}

/// The date components are in signed 32-bit range.
pub open spec fn date_in_range(y: int, m: int, d: int) -> bool {
    &&& -0x8000_0000 <= y <= 0x7fff_ffff
    &&& -0x8000_0000 <= m <= 0x7fff_ffff
    &&& -0x8000_0000 <= d <= 0x7fff_ffff
}

/// Read the first three components of a `year,month,day` string (blanks
/// around components allowed; components past the third are ignored).
pub fn parse_date(s: &str) -> (r: Option<Date>)
    ensures
        match r {
            Some(dt) => spec_parse_date(s@) == Some((dt.year as int, dt.month as int, dt.day as int)),
            None => !(spec_parse_date(s@) matches Some((y, m, d)) && date_in_range(y, m, d)),
        },
{
    let n = s.unicode_len();
    proof {
        assert(s@.skip(0) =~= s@);
    }
    let a = match find_char_from(s, 0, ',') {
        None => {
            return None;
        },
        Some(a) => a,
    };
    let b = match find_char_from(s, a + 1, ',') {
        None => {
            return None;
        },
        Some(b) => b,
    };
    let ghost rest = s@.skip(a + 1);
    proof {
        assert(find_by(rest, char_pred(',')) == b - (a + 1));
    }
    let third_end = match find_char_from(s, b + 1, ',') {
        Some(c) => c,
        None => n,
    };
    proof {
        let tail = rest.skip(b - a);
        assert(tail =~= s@.skip(b + 1));
    }
    let ys = s.substring_char(0, a);
    let ms = s.substring_char(a + 1, b);
    let ds = s.substring_char(b + 1, third_end);
    proof {
        let tail = s@.skip(b + 1);
        assert(ys@ =~= s@.take(a as int));
        assert(ms@ =~= rest.take(b - (a + 1)));
        if find_by(tail, char_pred(',')) == -1 {
            assert(ds@ =~= tail);
        } else {
            assert(ds@ =~= tail.take(third_end - (b + 1)));
        }
    }
    match (parse_i32(ys), parse_i32(ms), parse_i32(ds)) {
        (Some(y), Some(m), Some(d)) => Some(Date { year: y, month: m, day: d }),
        _ => None,
    }
}

/// A fundraising event.
#[derive(Debug)]
pub struct Event {
    pub id: String,
    pub title: String,
    pub created_by: String,
    pub managers: Vec<String>,
    pub cause: String,
    pub date: String,
    pub description: String,
    pub target: u128,
    pub current: u128,
    pub current_usd: crate::amount::DecimalAmount,
    pub token: String,
    pub attendees: Vec<String>,
    pub venue: Option<String>,
    pub event_type: String,
    pub channel: Option<String>,
    pub channel_url: Option<String>,
    pub year: i32,
    pub month: i32,
    pub day: i32,
    pub created_on: u64,
    pub voters: Vec<String>,
    pub partner: Option<String>,
    pub partners: Vec<PartnerTally>,
    pub img: String,
}

impl Clone for Event {
    fn clone(&self) -> (res: Self)
        ensures
            same_event(self, &res),
    {
        Event {
            id: self.id.clone(),
            title: self.title.clone(),
            created_by: self.created_by.clone(),
            managers: clone_strings(&self.managers),
            cause: self.cause.clone(),
            date: self.date.clone(),
            description: self.description.clone(),
            target: self.target,
            current: self.current,
            current_usd: self.current_usd,
            token: self.token.clone(),
            attendees: clone_strings(&self.attendees),
            venue: clone_opt_string(&self.venue),
            event_type: self.event_type.clone(),
            channel: clone_opt_string(&self.channel),
            channel_url: clone_opt_string(&self.channel_url),
            year: self.year,
            month: self.month,
            day: self.day,
            created_on: self.created_on,
            voters: clone_strings(&self.voters),
            partner: clone_opt_string(&self.partner),
            partners: clone_tallies(&self.partners),
            img: self.img.clone(),
        }
    }
}

/// Copy an optional string by value.
pub fn clone_opt_string(v: &Option<String>) -> (r: Option<String>)
    ensures
        r == *v,
{
    match v {
        None => None,
        Some(s) => Some(s.clone()),
    }
}

impl Event {
    /// The event's internal consistency: one credit per address, one tally
    /// per candidate.
    pub open spec fn wf(&self) -> bool {
        &&& voters_wf(self.voters@)
        &&& partners_wf(self.partners@)
    }

    /// Build an event from its creation fields.  The `dates` string must
    /// begin `year,month,day`; a malformed one is rejected before any state
    /// exists.
    pub fn new(
        id: String,
        title: String,
        date: String,
        cause: String,
        description: String,
        target: u128,
        token: String,
        venue: String,
        event_type: String,
        channel: String,
        channel_url: String,
        dates: String,
        img: String,
        created_by: String,
        created_on: u64,
    ) -> (r: Result<Event, LedgerError>)
        ensures
            match r {
                Ok(e) => {
                    &&& spec_parse_date(dates@) == Some(
                        (e.year as int, e.month as int, e.day as int),
                    )
                    &&& e.id == id
                    &&& e.title == title
                    &&& e.created_by == created_by
                    &&& e.managers@ == Seq::<String>::empty()
                    &&& e.cause == cause
                    &&& e.date == date
                    &&& e.description == description
                    &&& e.target == target
                    &&& e.current == 0
                    &&& e.current_usd.mantissa == 0
                    &&& e.token == token
                    &&& e.attendees@ == Seq::<String>::empty()
                    &&& e.venue == Some(venue)
                    &&& e.event_type == event_type
                    &&& e.channel == Some(channel)
                    &&& e.channel_url == Some(channel_url)
                    &&& e.created_on == created_on
                    &&& e.voters@ == Seq::<String>::empty()
                    &&& e.partner is None
                    &&& e.partners@ == Seq::<PartnerTally>::empty()
                    &&& e.img == img
                    &&& e.wf()
                },
                Err(er) => er == LedgerError::InvalidInput && !(spec_parse_date(dates@) matches Some(
                    (y, m, d),
                ) && date_in_range(y, m, d)),
            },
    {
        let dt = match parse_date(dates.as_str()) {
            None => {
                return Err(LedgerError::InvalidInput);
            },
            Some(dt) => dt,
        };
        Ok(
            Event {
                id,
                title,
                created_by,
                managers: Vec::new(),
                cause,
                date,
                description,
                target,
                current: 0,
                current_usd: crate::amount::DecimalAmount::zero(),
                token,
                attendees: Vec::new(),
                venue: Some(venue),
                event_type,
                channel: Some(channel),
                channel_url: Some(channel_url),
                created_on,
                year: dt.year,
                month: dt.month,
                day: dt.day,
                voters: Vec::new(),
                partner: None,
                partners: Vec::new(),
                img,
            },
        )
    }

    /// Consume `v`'s voting credit if it holds one; report whether it did.
    pub fn get_voter(&mut self, v: String) -> (found: bool)
        requires
            old(self).wf(),
        ensures
            final(self).wf(),
            found == has_voter(old(self).voters@, v@),
            found ==> final(self).voters@ == old(self).voters@.remove(
                voter_idx(old(self).voters@, v@),
            ),
            !found ==> final(self).voters@ == old(self).voters@,
            !has_voter(final(self).voters@, v@),
            unchanged_but_voters(old(self), final(self)),
    {
        voters_remove(&mut self.voters, &v)
    }

    /// Grant `v` a voting credit; granting to a holder changes nothing.
    pub fn add_voter(&mut self, v: String)
        requires
            old(self).wf(),
        ensures
            final(self).wf(),
            has_voter(old(self).voters@, v@) ==> final(self).voters@ == old(self).voters@,
            !has_voter(old(self).voters@, v@) ==> final(self).voters@ == old(self).voters@.push(v),
            has_voter(final(self).voters@, v@),
            unchanged_but_voters(old(self), final(self)),
    {
        voters_add(&mut self.voters, v)
    }
}

/// `b` holds the same content as `a`: every field equal, list fields
/// element for element.  What [`Clone`] yields.
pub open spec fn same_event(a: &Event, b: &Event) -> bool {
    &&& b.id == a.id
    &&& b.title == a.title
    &&& b.created_by == a.created_by
    &&& b.managers@ == a.managers@
    &&& b.cause == a.cause
    &&& b.date == a.date
    &&& b.description == a.description
    &&& b.target == a.target
    &&& b.current == a.current
    &&& b.current_usd == a.current_usd
    &&& b.token == a.token
    &&& b.attendees@ == a.attendees@
    &&& b.venue == a.venue
    &&& b.event_type == a.event_type
    &&& b.channel == a.channel
    &&& b.channel_url == a.channel_url
    &&& b.year == a.year
    &&& b.month == a.month
    &&& b.day == a.day
    &&& b.created_on == a.created_on
    &&& b.voters@ == a.voters@
    &&& b.partner == a.partner
    &&& b.partners@ == a.partners@
    &&& b.img == a.img
}

/// The two events agree on every field except the voter set.
pub open spec fn unchanged_but_voters(a: &Event, b: &Event) -> bool {
    &&& b.id == a.id
    &&& b.title == a.title
    &&& b.created_by == a.created_by
    &&& b.managers == a.managers
    &&& b.cause == a.cause
    &&& b.date == a.date
    &&& b.description == a.description
    &&& b.target == a.target
    &&& b.current == a.current
    &&& b.current_usd == a.current_usd
    &&& b.token == a.token
    &&& b.attendees == a.attendees
    &&& b.venue == a.venue
    &&& b.event_type == a.event_type
    &&& b.channel == a.channel
    &&& b.channel_url == a.channel_url
    &&& b.year == a.year
    &&& b.month == a.month
    &&& b.day == a.day
    &&& b.created_on == a.created_on
    &&& b.partner == a.partner
    &&& b.partners == a.partners
    &&& b.img == a.img
}


/// The two events agree on every field except the voter set and the partner
/// tallies.
pub open spec fn unchanged_but_voting(a: &Event, b: &Event) -> bool {
    &&& b.id == a.id
    &&& b.title == a.title
    &&& b.created_by == a.created_by
    &&& b.managers == a.managers
    &&& b.cause == a.cause
    &&& b.date == a.date
    &&& b.description == a.description
    &&& b.target == a.target
    &&& b.current == a.current
    &&& b.current_usd == a.current_usd
    &&& b.token == a.token
    &&& b.attendees == a.attendees
    &&& b.venue == a.venue
    &&& b.event_type == a.event_type
    &&& b.channel == a.channel
    &&& b.channel_url == a.channel_url
    &&& b.year == a.year
    &&& b.month == a.month
    &&& b.day == a.day
    &&& b.created_on == a.created_on
    &&& b.partner == a.partner
    &&& b.img == a.img
}

/// What a freshly created event holds: the creation fields, the parsed
/// date, zero totals, and empty voting state.
pub open spec fn is_fresh_event(
    e: Event,
    id: String,
    title: String,
    date: String,
    cause: String,
    description: String,
    target: u128,
    token: String,
    venue: String,
    event_type: String,
    channel: String,
    channel_url: String,
    dates: String,
    img: String,
    created_by: String,
    created_on: u64,
) -> bool {
    &&& spec_parse_date(dates@) == Some((e.year as int, e.month as int, e.day as int))
    &&& e.id == id
    &&& e.title == title
    &&& e.created_by == created_by
    &&& e.managers@ == Seq::<String>::empty()
    &&& e.cause == cause
    &&& e.date == date
    &&& e.description == description
    &&& e.target == target
    &&& e.current == 0
    &&& e.current_usd.mantissa == 0
    &&& e.token == token
    &&& e.attendees@ == Seq::<String>::empty()
    &&& e.venue == Some(venue)
    &&& e.event_type == event_type
    &&& e.channel == Some(channel)
    &&& e.channel_url == Some(channel_url)
    &&& e.created_on == created_on
    &&& e.voters@ == Seq::<String>::empty()
    &&& e.partner is None
    &&& e.partners@ == Seq::<PartnerTally>::empty()
    &&& e.img == img
    &&& e.wf()
}

impl Event {
    /// Register `name` as a beneficiary candidate with a zero tally;
    /// registering a name already standing changes nothing.
    pub fn register_partner(&mut self, name: String)
        requires
            old(self).wf(),
        ensures
            final(self).wf(),
            has_partner(old(self).partners@, name@) ==> final(self).partners@ == old(
                self,
            ).partners@,
            !has_partner(old(self).partners@, name@) ==> final(self).partners@ == old(
                self,
            ).partners@.push((PartnerTally { name: name, votes: 0u64 })),
            has_partner(final(self).partners@, name@),
            sum_votes(final(self).partners@) == sum_votes(old(self).partners@),
            final(self).voters == old(self).voters,
            unchanged_but_voting(old(self), final(self)),
    {
        partners_register(&mut self.partners, name)
    }

    /// Cast `voter`'s vote for `partner` on this event.
    pub fn cast_vote(&mut self, voter: &String, partner: &String) -> (st: VoteStatus)
        requires
            old(self).wf(),
            sum_votes(old(self).partners@) + old(self).voters@.len() <= u64::MAX,
        ensures
            final(self).wf(),
            ({
                let (st2, vs2, ps2) = spec_vote(
                    old(self).voters@,
                    old(self).partners@,
                    voter@,
                    partner@,
                );
                st == st2 && final(self).voters@ == vs2 && final(self).partners@ == ps2
            }),
            sum_votes(final(self).partners@) + final(self).voters@.len() == sum_votes(
                old(self).partners@,
            ) + old(self).voters@.len(),
            unchanged_but_voting(old(self), final(self)),
    {
        cast_vote_in(&mut self.voters, &mut self.partners, voter, partner)
    }
}

impl Contract {
    /// The position of the event with this id.
    pub(crate) fn find_event_index(&self, id: &String) -> (r: Option<usize>)
        ensures
            match r {
                Some(i) => i < self.events@.len() && self.events@[i as int].id@ == id@ && event_idx(
                    self.events@,
                    id@,
                ) == i,
                None => event_idx(self.events@, id@) == -1,
            },
    {
        let n = self.events.len();
        let mut i: usize = 0;
        while i < n
            invariant
                0 <= i <= n,
                n == self.events@.len(),
                forall|k: int| 0 <= k < i ==> self.events@[k].id@ != id@,
            decreases n - i,
        {
            if self.events[i].id == *id {
                proof {
                    crate::lookup::lemma_find_by_is(self.events@, event_pred(id@), i as int);
                }
                return Some(i);
            }
            i = i + 1;
        }
        proof {
            crate::lookup::lemma_find_by_none(self.events@, event_pred(id@));
        }
        None
    }

    /// Create an event.  A malformed date string or an id already in use is
    /// rejected, and rejection changes nothing.
    pub fn create_event(
        &mut self,
        id: String,
        title: String,
        date: String,
        cause: String,
        description: String,
        target: u128,
        token: String,
        venue: String,
        event_type: String,
        channel: String,
        channel_url: String,
        dates: String,
        img: String,
        created_by: String,
        now: u64,
    ) -> (r: Result<(), LedgerError>)
        requires
            old(self).wf(),
        ensures
            final(self).wf(),
            match r {
                Ok(()) => {
                    &&& event_idx(old(self).events@, id@) == -1
                    &&& final(self).events@.len() == old(self).events@.len() + 1
                    &&& forall|k: int|
                        0 <= k < old(self).events@.len() ==> final(self).events@[k] == old(
                            self,
                        ).events@[k]
                    &&& is_fresh_event(
                        final(self).events@.last(),
                        id,
                        title,
                        date,
                        cause,
                        description,
                        target,
                        token,
                        venue,
                        event_type,
                        channel,
                        channel_url,
                        dates,
                        img,
                        created_by,
                        now,
                    )
                    &&& final(self).events_count == old(self).events_count + 1
                },
                Err(e) => {
                    &&& e == LedgerError::InvalidInput
                    &&& *final(self) == *old(self)
                    &&& !(event_idx(old(self).events@, id@) == -1 && (spec_parse_date(
                        dates@,
                    ) matches Some((y, m, d)) && date_in_range(y, m, d)))
                },
            },
            unchanged_but_events(old(self), final(self)),
    {
        let e = match Event::new(
            id.clone(),
            title,
            date,
            cause,
            description,
            target,
            token,
            venue,
            event_type,
            channel,
            channel_url,
            dates,
            img,
            created_by,
            now,
        ) {
            Err(er) => {
                return Err(er);
            },
            Ok(e) => e,
        };
        if self.find_event_index(&id).is_some() {
            return Err(LedgerError::InvalidInput);
        }
        self.events.push(e);
        self.events_count = self.events.len() as u64;
        proof {
            let pre = old(self).events@;
            let post = self.events@;
            crate::lookup::lemma_find_by(pre, event_pred(id@));
            assert forall|a: int, b: int| 0 <= a < b < post.len() implies post[a].id@ != post[b].id@
            by {
                if b == post.len() - 1 {
                    assert(post[a] == pre[a]);
                    assert(post[b].id@ == id@);
                }
            }
            assert(sum_votes(post.last().partners@) == 0);
        }
        Ok(())
    }

    /// The event with this id, if any.
    pub fn get_event(&self, id: String) -> (r: Option<Event>)
        ensures
            ({
                let ei = event_idx(self.events@, id@);
                match r {
                    Some(e) => ei != -1 && 0 <= ei < self.events@.len() && same_event(
                        &self.events@[ei],
                        &e,
                    ),
                    None => ei == -1,
                }
            }),
    {
        match self.find_event_index(&id) {
            None => None,
            Some(i) => Some(self.events[i].clone()),
        }
    }

    /// Register a partner candidate on the event with this id.
    ///
    /// Returns `"done"` when the event exists — registering a candidate that
    /// already stands is a no-op — and `"not found"` otherwise.
    pub fn add_event_partner(&mut self, id: String, partner: String) -> (r: String)
        requires
            old(self).wf(),
        ensures
            final(self).wf(),
            ({
                let ei = event_idx(old(self).events@, id@);
                if ei == -1 {
                    r@ == "not found"@ && *final(self) == *old(self)
                } else {
                    let e0 = old(self).events@[ei];
                    let e1 = final(self).events@[ei];
                    &&& r@ == "done"@
                    &&& final(self).events@.len() == old(self).events@.len()
                    &&& forall|k: int|
                        0 <= k < old(self).events@.len() && k != ei ==> final(self).events@[k]
                            == old(self).events@[k]
                    &&& if has_partner(e0.partners@, partner@) {
                        e1.partners@ == e0.partners@
                    } else {
                        e1.partners@ == e0.partners@.push((PartnerTally { name: partner, votes: 0u64 }))
                    }
                    &&& has_partner(e1.partners@, partner@)
                    &&& e1.voters == e0.voters
                    &&& unchanged_but_voting(&e0, &e1)
                    &&& final(self).events_count == old(self).events_count
                }
            }),
            unchanged_but_events(old(self), final(self)),
    {
        let ei = match self.find_event_index(&id) {
            None => {
                return "not found".to_owned();
            },
            Some(ei) => ei,
        };
        let e = &mut self.events[ei];
        e.register_partner(partner);
        proof {
            let pre = old(self).events@;
            let post = self.events@;
            assert(forall|k: int| 0 <= k < post.len() ==> post[k].id@ == pre[k].id@);
            assert forall|a: int, b: int| 0 <= a < b < post.len() implies post[a].id@ != post[b].id@
            by {}
            assert forall|k: int|
                0 <= k < post.len() implies sum_votes((#[trigger] post[k]).partners@)
                + post[k].voters@.len() <= self.donations@.len() by {
                if k != ei {
                    assert(post[k] == pre[k]);
                }
            }
        }
        "done".to_owned()
    }

    /// Cast the calling `voter`'s vote for `partner` on the event with this
    /// id.
    ///
    /// Returns `"not found"` if the event does not exist, `"voter not
    /// found"` if the voter holds no credit on it, `"unknown partner"` if a
    /// credit holder names a partner that is no candidate there (the credit
    /// is kept), and `"done"` when the credit was consumed and the partner's
    /// tally rose by one.  Every outcome but `"done"` changes nothing.
    pub fn event_vote(&mut self, id: String, voter: String, partner: String) -> (r: String)
        requires
            old(self).wf(),
        ensures
            final(self).wf(),
            event_vote_rel(*old(self), id, voter, partner, r, *final(self)),
    {
        let ei = match self.find_event_index(&id) {
            None => {
                return "not found".to_owned();
            },
            Some(ei) => ei,
        };
        proof {
            assert(self.donations@.len() <= u64::MAX) by {
                assert(self.donations.len() == self.donations@.len());
            }
        }
        let e = &mut self.events[ei];
        let st = e.cast_vote(&voter, &partner);
        proof {
            let pre = old(self).events@;
            let post = self.events@;
            assert(forall|k: int| 0 <= k < post.len() ==> post[k].id@ == pre[k].id@);
            assert forall|a: int, b: int| 0 <= a < b < post.len() implies post[a].id@ != post[b].id@
            by {}
            assert forall|k: int|
                0 <= k < post.len() implies sum_votes((#[trigger] post[k]).partners@)
                + post[k].voters@.len() <= self.donations@.len() by {
                if k != ei {
                    assert(post[k] == pre[k]);
                }
            }
        }
        vote_status_string(st)
    }

    /// The events whose date falls in the given year and month.
    pub fn filter_events(&self, year: i32, month: i32) -> (r: Vec<Event>)
        ensures
            ({
                let m = crate::lookup::filter_seq(
                    self.events@,
                    event_period_pred(year as int, month as int),
                );
                r@.len() == m.len() && forall|k: int|
                    0 <= k < m.len() ==> same_event(&m[k], &r@[k])
            }),
    {
        let ghost p = event_period_pred(year as int, month as int);
        let n = self.events.len();
        let mut r: Vec<Event> = Vec::new();
        let mut i: usize = 0;
        while i < n
            invariant
                0 <= i <= n,
                n == self.events@.len(),
                p == event_period_pred(year as int, month as int),
                ({
                    let m = crate::lookup::filter_seq(self.events@.take(i as int), p);
                    r@.len() == m.len() && forall|k: int|
                        0 <= k < m.len() ==> same_event(&m[k], &r@[k])
                }),
            decreases n - i,
        {
            proof {
                assert(self.events@.take(i + 1).drop_last() =~= self.events@.take(i as int));
                assert(self.events@.take(i + 1).last() == self.events@[i as int]);
            }
            let e = &self.events[i];
            if e.year == year && e.month == month {
                r.push(e.clone());
            }
            i = i + 1;
        }
        proof {
            assert(self.events@.take(n as int) =~= self.events@);
        }
        r
    }

    /// One page of all events, plus their total number.  Page numbers start
    /// at 1; page 0 is rejected.
    pub fn get_events(&self, page: usize, limit: usize) -> (r: Result<Response<Event>, LedgerError>)
        ensures
            match r {
                Ok(resp) => {
                    let m = page_of(self.events@, page as int, limit as int);
                    &&& page >= 1
                    &&& resp.count == self.events@.len()
                    &&& resp.results@.len() == m.len()
                    &&& forall|k: int| 0 <= k < m.len() ==> same_event(&m[k], &resp.results@[k])
                },
                Err(e) => e == LedgerError::InvalidInput && page == 0,
            },
    {
        if page == 0 {
            return Err(LedgerError::InvalidInput);
        }
        let n = self.events.len();
        let (a, b) = page_bounds(n, page, limit);
        let mut results: Vec<Event> = Vec::new();
        let mut j: usize = a;
        while j < b
            invariant
                a <= j <= b <= n,
                n == self.events@.len(),
                a == crate::pagination::page_start(n as int, page as int, limit as int),
                b == crate::pagination::page_end(n as int, page as int, limit as int),
                results@.len() == j - a,
                forall|k: int|
                    0 <= k < results@.len() ==> same_event(&self.events@[a + k], &results@[k]),
            decreases b - j,
        {
            results.push(self.events[j].clone());
            j = j + 1;
        }
        Ok(Response { results, count: self.events.len() as u64 })
    }
}


/// What casting an event vote does, relating the state before the call to
/// the state after it and to the returned status word.
pub open spec fn event_vote_rel(
    pre: Contract,
    id: String,
    voter: String,
    partner: String,
    r: String,
    post: Contract,
) -> bool {
    &&& ({
        let ei = event_idx(pre.events@, id@);
        if ei == -1 {
            r@ == vote_status_text(VoteStatus::NotFound) && post == pre
        } else {
            let e0 = pre.events@[ei];
            let e1 = post.events@[ei];
            let (st, vs2, ps2) = spec_vote(e0.voters@, e0.partners@, voter@, partner@);
            &&& r@ == vote_status_text(st)
            &&& post.events@.len() == pre.events@.len()
            &&& forall|k: int|
                0 <= k < pre.events@.len() && k != ei ==> post.events@[k] == pre.events@[k]
            &&& e1.voters@ == vs2
            &&& e1.partners@ == ps2
            &&& unchanged_but_voting(&e0, &e1)
            &&& post.events_count == pre.events_count
        }
    })
    &&& unchanged_but_events(&pre, &post)
}

/// The filter used by [`Contract::filter_events`].
pub open spec fn event_period_pred(year: int, month: int) -> spec_fn(Event) -> bool {
    |e: Event| e.year == year && e.month == month
}

} // verus!

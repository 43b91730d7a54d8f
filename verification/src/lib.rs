//! A fundraising ledger: donors contribute funds earmarked for a cause-tagged
//! campaign or event, and each campaign or event selects a beneficiary
//! partner by donor-weighted voting.
//!
//! The whole application state lives in one explicit [`Contract`] value that
//! is constructed at startup and passed by reference into every operation.
//! Host concerns — who called, what time it is, performing the actual asset
//! transfers — enter only as plain parameters, so that every rule of the
//! ledger is stated and proved here:
//!
//! - the ledger is append-only and donation ids are unique, so a transfer
//!   notification is recorded exactly once;
//! - a donation is recorded and attributed atomically: either the whole
//!   notification takes effect or none of it does;
//! - per target, credits outstanding plus votes cast never exceed the
//!   donations recorded, and a credit is consumed by exactly one vote.

use vstd::prelude::*;

pub mod amount;
pub mod campaign;
pub mod causes;
pub mod courses;
pub mod donations;
pub mod errors;
pub mod events;
pub mod fungibletoken;
pub mod laws;
pub mod lookup;
pub mod pagination;
pub mod partners;
pub mod text;
pub mod voting;

use crate::amount::DecimalAmount;
use crate::campaign::Campaign;
use crate::causes::Cause;
use crate::courses::Course;
use crate::donations::Donation;
use crate::events::Event;
use crate::fungibletoken::PendingOp;
use crate::lookup::find_by;
use crate::partners::Partner;
use crate::voting::sum_votes;

verus! {

/// Metadata describing a third-party asset that donations may be made in.
#[derive(Debug)]
pub struct TokenMetadata {
    pub address: String,
    pub name: String,
    pub symbol: String,
    pub icon: String,
    pub decimals: u8,
}

impl Clone for TokenMetadata {
    fn clone(&self) -> (res: Self)
        ensures
            res == *self,
    {
        TokenMetadata {
            address: self.address.clone(),
            name: self.name.clone(),
            symbol: self.symbol.clone(),
            icon: self.icon.clone(),
            decimals: self.decimals,
        }
    }
}

/// A registered asset: the address it is known under, and its metadata.
#[derive(Debug)]
pub struct TokenEntry {
    pub address: String,
    pub metadata: TokenMetadata,
}

impl Clone for TokenEntry {
    fn clone(&self) -> (res: Self)
        ensures
            res == *self,
    {
        TokenEntry { address: self.address.clone(), metadata: self.metadata.clone() }
    }
}

/// One page of query results plus the total number of matching records.
#[derive(Debug)]
pub struct Response<T> {
    pub results: Vec<T>,
    pub count: u64,
}

/// Whole-ledger counters.
#[derive(Clone, Copy, Debug, PartialEq, Eq, Structural)]
pub struct ContractStats {
    pub causes: u64,
    pub events: u64,
    pub campaigns: u64,
    pub donations: u64,
    pub tokens: u64,
    pub partners: u64,
    pub total_usd: DecimalAmount,
}

/// The predicate "this token entry is registered under `addr`".
pub open spec fn token_pred(addr: Seq<char>) -> spec_fn(TokenEntry) -> bool {
    |t: TokenEntry| t.address@ == addr
}

/// The index of the token registered under `addr`, or `-1`.
pub open spec fn token_idx(ts: Seq<TokenEntry>, addr: Seq<char>) -> int {
    find_by(ts, token_pred(addr))
}

/// The metadata registered under `addr`, if any — what [`Contract::get_token`]
/// returns.
pub open spec fn token_lookup(ts: Seq<TokenEntry>, addr: Seq<char>) -> Option<TokenMetadata> {
    let ti = token_idx(ts, addr);
    if ti == -1 {
        None
    } else {
        Some(ts[ti].metadata)
    }
}

/// The predicate "this campaign has id `id`".
pub open spec fn campaign_pred(id: Seq<char>) -> spec_fn(Campaign) -> bool {
    |c: Campaign| c.id@ == id
}

/// The index of the campaign with id `id`, or `-1`.
pub open spec fn campaign_idx(cs: Seq<Campaign>, id: Seq<char>) -> int {
    find_by(cs, campaign_pred(id))
}

/// The predicate "this event has id `id`".
pub open spec fn event_pred(id: Seq<char>) -> spec_fn(Event) -> bool {
    |e: Event| e.id@ == id
}

/// The index of the event with id `id`, or `-1`.
pub open spec fn event_idx(es: Seq<Event>, id: Seq<char>) -> int {
    find_by(es, event_pred(id))
}

/// The predicate "this partner has id `id`".
pub open spec fn partner_entry_pred(id: Seq<char>) -> spec_fn(Partner) -> bool {
    |p: Partner| p.id@ == id
}

/// The index of the registered partner with id `id`, or `-1`.
pub open spec fn partner_entry_idx(ps: Seq<Partner>, id: Seq<char>) -> int {
    find_by(ps, partner_entry_pred(id))
}

/// The predicate "this donation has id `id`".
pub open spec fn donation_pred(id: Seq<char>) -> spec_fn(Donation) -> bool {
    |d: Donation| d.id@ == id
}

/// The index of the donation with id `id`, or `-1`.
pub open spec fn donation_idx(ds: Seq<Donation>, id: Seq<char>) -> int {
    find_by(ds, donation_pred(id))
}

/// The predicate "this pending operation has correlation id `id`".
pub open spec fn pending_pred(id: Seq<char>) -> spec_fn(PendingOp) -> bool {
    |p: PendingOp| p.correlation_id@ == id
}

/// The index of the pending operation with correlation id `id`, or `-1`.
pub open spec fn pending_idx(ps: Seq<PendingOp>, id: Seq<char>) -> int {
    find_by(ps, pending_pred(id))
}

/// The whole application state.
#[derive(Debug)]
pub struct Contract {
    pub gurdians: Vec<String>,
    pub running: bool,
    pub causes: Vec<Cause>,
    pub courses: Vec<Course>,
    pub events: Vec<Event>,
    pub campaigns: Vec<Campaign>,
    pub donations: Vec<Donation>,
    pub tokens: Vec<TokenEntry>,
    pub partners: Vec<Partner>,
    pub total_usd: DecimalAmount,
    pub pending: Vec<PendingOp>,
    pub causes_count: u64,
    pub events_count: u64,
    pub campaigns_count: u64,
    pub donations_count: u64,
    pub tokens_count: u64,
    pub partners_count: u64,
}

impl Contract {
    /// The ledger-wide invariant.
    ///
    /// - every keyed collection has unique keys, and each campaign and event
    ///   is internally consistent;
    /// - each stored donation satisfies the target-kind invariant;
    /// - the counters equal the collection lengths;
    /// - per target, votes already cast plus credits still outstanding never
    ///   exceed the number of donations recorded: credits come only from
    ///   donations and are consumed one per vote.
    pub open spec fn wf(&self) -> bool {
        &&& forall|i: int, j: int|
            0 <= i < j < self.campaigns@.len() ==> self.campaigns@[i].id@ != self.campaigns@[j].id@
        &&& forall|i: int|
            0 <= i < self.campaigns@.len() ==> (#[trigger] self.campaigns@[i]).wf()
        &&& forall|i: int|
            0 <= i < self.campaigns@.len() ==> sum_votes((#[trigger] self.campaigns@[i]).partners@)
                + self.campaigns@[i].voters@.len() <= self.donations@.len()
        &&& forall|i: int, j: int|
            0 <= i < j < self.events@.len() ==> self.events@[i].id@ != self.events@[j].id@
        &&& forall|i: int| 0 <= i < self.events@.len() ==> (#[trigger] self.events@[i]).wf()
        &&& forall|i: int|
            0 <= i < self.events@.len() ==> sum_votes((#[trigger] self.events@[i]).partners@)
                + self.events@[i].voters@.len() <= self.donations@.len()
        &&& forall|i: int, j: int|
            0 <= i < j < self.donations@.len() ==> self.donations@[i].id@ != self.donations@[j].id@
        &&& forall|i: int|
            0 <= i < self.donations@.len() ==> crate::donations::donation_wf(
                #[trigger] self.donations@[i],
            )
        &&& forall|i: int, j: int|
            0 <= i < j < self.partners@.len() ==> self.partners@[i].id@ != self.partners@[j].id@
        &&& forall|i: int, j: int|
            0 <= i < j < self.tokens@.len() ==> self.tokens@[i].address@
                != self.tokens@[j].address@
        &&& forall|i: int, j: int|
            0 <= i < j < self.causes@.len() ==> self.causes@[i].title@ != self.causes@[j].title@
        &&& forall|i: int, j: int|
            0 <= i < j < self.courses@.len() ==> self.courses@[i].title@ != self.courses@[j].title@
        &&& forall|i: int, j: int|
            0 <= i < j < self.pending@.len() ==> self.pending@[i].correlation_id@
                != self.pending@[j].correlation_id@
        &&& self.causes_count == self.causes@.len()
        &&& self.events_count == self.events@.len()
        &&& self.campaigns_count == self.campaigns@.len()
        &&& self.donations_count == self.donations@.len()
        &&& self.tokens_count == self.tokens@.len()
        &&& self.partners_count == self.partners@.len()
    }

    /// A fresh, empty ledger.
    pub fn new() -> (c: Contract)
        ensures
            c.wf(),
            c.running == true,
            c.gurdians@.len() == 0,
            c.causes@.len() == 0,
            c.courses@.len() == 0,
            c.events@.len() == 0,
            c.campaigns@.len() == 0,
            c.donations@.len() == 0,
            c.tokens@.len() == 0,
            c.partners@.len() == 0,
            c.pending@.len() == 0,
            c.total_usd.mantissa == 0,
            c.causes_count == 0,
            c.events_count == 0,
            c.campaigns_count == 0,
            c.donations_count == 0,
            c.tokens_count == 0,
            c.partners_count == 0,
    {
        Contract {
            gurdians: Vec::new(),
            running: true,
            causes: Vec::new(),
            courses: Vec::new(),
            events: Vec::new(),
            campaigns: Vec::new(),
            donations: Vec::new(),
            tokens: Vec::new(),
            partners: Vec::new(),
            total_usd: DecimalAmount::zero(),
            pending: Vec::new(),
            causes_count: 0,
            events_count: 0,
            campaigns_count: 0,
            donations_count: 0,
            tokens_count: 0,
            partners_count: 0,
        }
    }

    /// Register asset metadata under `token`; a second registration under
    /// the same address replaces the metadata.
    pub fn add_token(&mut self, token: String, metadata: TokenMetadata)
        requires
            old(self).wf(),
        ensures
            final(self).wf(),
            ({
                let ti = token_idx(old(self).tokens@, token@);
                if ti == -1 {
                    final(self).tokens@ == old(self).tokens@.push(
                        (TokenEntry { address: token, metadata: metadata }),
                    )
                } else {
                    final(self).tokens@ == old(self).tokens@.update(
                        ti,
                        (TokenEntry { address: token, metadata: metadata }),
                    )
                }
            }),
            final(self).tokens_count == final(self).tokens@.len(),
            unchanged_but_tokens(old(self), final(self)),
    {
        let n = self.tokens.len();
        let mut i: usize = 0;
        while i < n
            invariant
                0 <= i <= n,
                n == self.tokens@.len(),
                *self == *old(self),
                old(self).wf(),
                forall|k: int| 0 <= k < i ==> self.tokens@[k].address@ != token@,
            decreases n - i,
        {
            if self.tokens[i].address == token {
                proof {
                    crate::lookup::lemma_find_by_is(self.tokens@, token_pred(token@), i as int);
                }
                let entry = TokenEntry { address: token, metadata };
                let r = &mut self.tokens[i];
                *r = entry;
                proof {
                    assert(forall|a: int|
                        0 <= a < self.tokens@.len() ==> self.tokens@[a].address@ == old(
                            self,
                        ).tokens@[a].address@);
                }
                return ;
            }
            i = i + 1;
        }
        proof {
            crate::lookup::lemma_find_by_none(self.tokens@, token_pred(token@));
        }
        self.tokens.push(TokenEntry { address: token, metadata });
        self.tokens_count = self.tokens.len() as u64;
        proof {
            let post = self.tokens@;
            assert forall|a: int, b: int|
                0 <= a < b < post.len() implies post[a].address@ != post[b].address@ by {
                if b == post.len() - 1 {
                    assert(!(token_pred(post[b].address@))(old(self).tokens@[a]));
                }
            }
        }
    }

    /// All registered asset metadata, in registration order.
    pub fn get_tokens(&self) -> (r: Vec<TokenMetadata>)
        ensures
            r@.len() == self.tokens@.len(),
            forall|i: int| 0 <= i < r@.len() ==> r@[i] == self.tokens@[i].metadata,
    {
        let n = self.tokens.len();
        let mut r: Vec<TokenMetadata> = Vec::new();
        let mut i: usize = 0;
        while i < n
            invariant
                0 <= i <= n,
                n == self.tokens@.len(),
                r@.len() == i,
                forall|k: int| 0 <= k < i ==> r@[k] == self.tokens@[k].metadata,
            decreases n - i,
        {
            r.push(self.tokens[i].metadata.clone());
            i = i + 1;
        }
        r
    }

    /// The metadata registered under `address`, if any.
    pub fn get_token(&self, address: String) -> (r: Option<TokenMetadata>)
        ensures
            ({
                let ti = token_idx(self.tokens@, address@);
                match r {
                    Some(m) => ti != -1 && 0 <= ti < self.tokens@.len() && m == self.tokens@[ti].metadata,
                    None => ti == -1,
                }
            }),
    {
        let n = self.tokens.len();
        let mut i: usize = 0;
        while i < n
            invariant
                0 <= i <= n,
                n == self.tokens@.len(),
                forall|k: int| 0 <= k < i ==> self.tokens@[k].address@ != address@,
            decreases n - i,
        {
            if self.tokens[i].address == address {
                proof {
                    crate::lookup::lemma_find_by_is(self.tokens@, token_pred(address@), i as int);
                }
                return Some(self.tokens[i].metadata.clone());
            }
            i = i + 1;
        }
        proof {
            crate::lookup::lemma_find_by_none(self.tokens@, token_pred(address@));
        }
        None
    }

    /// The ledger-wide counters.
    pub fn get_donations_stats(&self) -> (r: ContractStats)
        ensures
            r.causes == self.causes_count,
            r.events == self.events_count,
            r.campaigns == self.campaigns_count,
            r.donations == self.donations_count,
            r.tokens == self.tokens_count,
            r.partners == self.partners_count,
            r.total_usd == self.total_usd,
    {
        ContractStats {
            causes: self.causes_count,
            events: self.events_count,
            campaigns: self.campaigns_count,
            donations: self.donations_count,
            tokens: self.tokens_count,
            partners: self.partners_count,
            total_usd: self.total_usd,
        }
    }
}

impl Default for Contract {
    /// The same fresh state as [`Contract::new`].
    fn default() -> (c: Contract)
        ensures
            c.wf(),
            c.campaigns@.len() == 0,
            c.events@.len() == 0,
            c.donations@.len() == 0,
    {
        Contract::new()
    }
}

/// The two states agree on everything except the campaign list and its
/// counter.
pub open spec fn unchanged_but_campaigns(a: &Contract, b: &Contract) -> bool {
    &&& b.gurdians == a.gurdians
    &&& b.running == a.running
    &&& b.causes == a.causes
    &&& b.courses == a.courses
    &&& b.events == a.events
    &&& b.donations == a.donations
    &&& b.tokens == a.tokens
    &&& b.partners == a.partners
    &&& b.total_usd == a.total_usd
    &&& b.pending == a.pending
    &&& b.causes_count == a.causes_count
    &&& b.events_count == a.events_count
    &&& b.donations_count == a.donations_count
    &&& b.tokens_count == a.tokens_count
    &&& b.partners_count == a.partners_count
}

/// The two states agree on everything except the event list and its counter.
pub open spec fn unchanged_but_events(a: &Contract, b: &Contract) -> bool {
    &&& b.gurdians == a.gurdians
    &&& b.running == a.running
    &&& b.causes == a.causes
    &&& b.courses == a.courses
    &&& b.campaigns == a.campaigns
    &&& b.donations == a.donations
    &&& b.tokens == a.tokens
    &&& b.partners == a.partners
    &&& b.total_usd == a.total_usd
    &&& b.pending == a.pending
    &&& b.causes_count == a.causes_count
    &&& b.campaigns_count == a.campaigns_count
    &&& b.donations_count == a.donations_count
    &&& b.tokens_count == a.tokens_count
    &&& b.partners_count == a.partners_count
}

/// The two states agree on everything except the partner registry and its
/// counter.
pub open spec fn unchanged_but_partners(a: &Contract, b: &Contract) -> bool {
    &&& b.gurdians == a.gurdians
    &&& b.running == a.running
    &&& b.causes == a.causes
    &&& b.courses == a.courses
    &&& b.events == a.events
    &&& b.campaigns == a.campaigns
    &&& b.donations == a.donations
    &&& b.tokens == a.tokens
    &&& b.total_usd == a.total_usd
    &&& b.pending == a.pending
    &&& b.causes_count == a.causes_count
    &&& b.events_count == a.events_count
    &&& b.campaigns_count == a.campaigns_count
    &&& b.donations_count == a.donations_count
    &&& b.tokens_count == a.tokens_count
}

/// The two states agree on everything except the cause set and its counter.
pub open spec fn unchanged_but_causes(a: &Contract, b: &Contract) -> bool {
    &&& b.gurdians == a.gurdians
    &&& b.running == a.running
    &&& b.courses == a.courses
    &&& b.events == a.events
    &&& b.campaigns == a.campaigns
    &&& b.donations == a.donations
    &&& b.tokens == a.tokens
    &&& b.partners == a.partners
    &&& b.total_usd == a.total_usd
    &&& b.pending == a.pending
    &&& b.events_count == a.events_count
    &&& b.campaigns_count == a.campaigns_count
    &&& b.donations_count == a.donations_count
    &&& b.tokens_count == a.tokens_count
    &&& b.partners_count == a.partners_count
}

/// The two states agree on everything except the course set.
pub open spec fn unchanged_but_courses(a: &Contract, b: &Contract) -> bool {
    &&& b.gurdians == a.gurdians
    &&& b.running == a.running
    &&& b.causes == a.causes
    &&& b.events == a.events
    &&& b.campaigns == a.campaigns
    &&& b.donations == a.donations
    &&& b.tokens == a.tokens
    &&& b.partners == a.partners
    &&& b.total_usd == a.total_usd
    &&& b.pending == a.pending
    &&& b.causes_count == a.causes_count
    &&& b.events_count == a.events_count
    &&& b.campaigns_count == a.campaigns_count
    &&& b.donations_count == a.donations_count
    &&& b.tokens_count == a.tokens_count
    &&& b.partners_count == a.partners_count
}

/// The two states agree on everything except the pending operations.
pub open spec fn unchanged_but_pending(a: &Contract, b: &Contract) -> bool {
    &&& b.gurdians == a.gurdians
    &&& b.running == a.running
    &&& b.causes == a.causes
    &&& b.courses == a.courses
    &&& b.events == a.events
    &&& b.campaigns == a.campaigns
    &&& b.donations == a.donations
    &&& b.tokens == a.tokens
    &&& b.partners == a.partners
    &&& b.total_usd == a.total_usd
    &&& b.causes_count == a.causes_count
    &&& b.events_count == a.events_count
    &&& b.campaigns_count == a.campaigns_count
    &&& b.donations_count == a.donations_count
    &&& b.tokens_count == a.tokens_count
    &&& b.partners_count == a.partners_count
}

/// The two states agree on everything except the token registry.
pub open spec fn unchanged_but_tokens(a: &Contract, b: &Contract) -> bool {
    &&& b.gurdians == a.gurdians
    &&& b.running == a.running
    &&& b.causes == a.causes
    &&& b.courses == a.courses
    &&& b.events == a.events
    &&& b.campaigns == a.campaigns
    &&& b.donations == a.donations
    &&& b.partners == a.partners
    &&& b.total_usd == a.total_usd
    &&& b.pending == a.pending
    &&& b.causes_count == a.causes_count
    &&& b.events_count == a.events_count
    &&& b.campaigns_count == a.campaigns_count
    &&& b.donations_count == a.donations_count
    &&& b.partners_count == a.partners_count
}

} // verus!

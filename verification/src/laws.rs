//! System-wide laws, proved from the operations' contracts.
//!
//! Each proof function here states a property of whole operations — not of a
//! chosen input — and is verified once and for all.

use vstd::prelude::*;

use crate::campaign::campaign_vote_rel;
use crate::events::event_vote_rel;
use crate::donations::{donation_campaign_pred, record_donation_rel, TargetKind};
use crate::lookup::{filter_seq, lemma_find_by, lemma_find_by_congruent, lemma_find_by_none};
use crate::errors::LedgerError;
use crate::pagination::{lemma_pagination_round_trip, page_of, pages_concat};
use crate::voting::{
    has_voter, partner_idx, partner_pred, spec_vote, voter_idx, voter_pred, voters_wf,
    PartnerTally, VoteStatus,
};
use crate::{campaign_idx, donation_idx, donation_pred, event_idx, Contract};

verus! {

/// Vote-consumption idempotence, at the level of one target's voter set and
/// tallies: if a vote by `v` for `p` is counted, an immediately repeated vote
/// by the same `v` for the same `p`, with nothing in between, reports that
/// the voter holds no credit — a credit is consumed by exactly one vote.
pub proof fn lemma_vote_consumes_credit(
    vs: Seq<String>,
    ps: Seq<PartnerTally>,
    v: Seq<char>,
    p: Seq<char>,
)
    requires
        voters_wf(vs),
    ensures
        ({
            let (st1, vs1, ps1) = spec_vote(vs, ps, v, p);
            st1 == VoteStatus::Done ==> spec_vote(vs1, ps1, v, p).0 == VoteStatus::VoterNotFound
        }),
{
    let (st1, vs1, ps1) = spec_vote(vs, ps, v, p);
    if st1 == VoteStatus::Done {
        let vi = voter_idx(vs, v);
        lemma_find_by(vs, voter_pred(v));
        // the voter's credit is gone: `vs` held `v` once, at `vi`
        assert(forall|k: int|
            0 <= k < vs1.len() ==> vs1[k] == (if k < vi {
                vs[k]
            } else {
                vs[k + 1]
            }));
        assert(forall|k: int| 0 <= k < vs1.len() ==> !(voter_pred(v))(vs1[k]));
        lemma_find_by_none(vs1, voter_pred(v));
    }
}

/// Vote-consumption idempotence for whole campaign-vote operations: two
/// consecutive `campaign_vote` calls by the same voter, for the same partner
/// on the same campaign, with no operation in between, answer `"done"` and
/// then `"voter not found"`.
pub proof fn lemma_vote_consumption_idempotent(
    pre: Contract,
    mid: Contract,
    post: Contract,
    id: String,
    voter: String,
    partner: String,
    r1: String,
    r2: String,
)
    requires
        pre.wf(),
        campaign_vote_rel(pre, id, voter, partner, r1, mid),
        campaign_vote_rel(mid, id, voter, partner, r2, post),
        r1@ == "done"@,
    ensures
        r2@ == "voter not found"@,
{
    reveal_strlit("done");
    reveal_strlit("not found");
    reveal_strlit("voter not found");
    reveal_strlit("unknown partner");
    assert("done"@.len() == 4);
    assert("not found"@.len() == 9);
    assert("voter not found"@.len() == 15);
    assert("unknown partner"@.len() == 15);
    assert("voter not found"@[0] == 'v');
    assert("unknown partner"@[0] == 'u');
    let ci = campaign_idx(pre.campaigns@, id@);
    assert(ci != -1);
    lemma_find_by(pre.campaigns@, crate::campaign_pred(id@));
    let c0 = pre.campaigns@[ci];
    let (st1, vs1, ps1) = spec_vote(c0.voters@, c0.partners@, voter@, partner@);
    assert(st1 == VoteStatus::Done);
    // the campaign keeps its id and position, so the second call finds it
    assert(mid.campaigns@.len() == pre.campaigns@.len());
    assert(forall|k: int|
        0 <= k < mid.campaigns@.len() ==> (crate::campaign_pred(id@))(mid.campaigns@[k])
            == (crate::campaign_pred(id@))(pre.campaigns@[k]));
    lemma_find_by_congruent(mid.campaigns@, pre.campaigns@, crate::campaign_pred(id@));
    assert(campaign_idx(mid.campaigns@, id@) == ci);
    let c1 = mid.campaigns@[ci];
    assert(c1.voters@ == vs1 && c1.partners@ == ps1);
    lemma_vote_consumes_credit(c0.voters@, c0.partners@, voter@, partner@);
    assert(spec_vote(vs1, ps1, voter@, partner@).0 == VoteStatus::VoterNotFound);
}

/// Attribution is exclusive: when a donor who holds no voting credit
/// anywhere donates to campaign `cid`, the donor afterwards holds a credit
/// on that campaign and on no other target.
pub proof fn lemma_attribution_is_exclusive(
    pre: Contract,
    post: Contract,
    id: String,
    donor: String,
    token: String,
    amount: u128,
    amount_usd: crate::amount::DecimalAmount,
    cid: String,
    now: u64,
)
    requires
        pre.wf(),
        record_donation_rel(
            pre,
            id,
            donor,
            token,
            amount,
            amount_usd,
            TargetKind::Campaign,
            Option::<String>::None,
            Some(cid),
            now,
            Ok(()),
            post,
        ),
        forall|k: int|
            0 <= k < pre.campaigns@.len() ==> !has_voter(
                (#[trigger] pre.campaigns@[k]).voters@,
                donor@,
            ),
        forall|k: int|
            0 <= k < pre.events@.len() ==> !has_voter((#[trigger] pre.events@[k]).voters@, donor@),
    ensures
        ({
            let ci = campaign_idx(pre.campaigns@, cid@);
            &&& 0 <= ci < post.campaigns@.len()
            &&& has_voter(post.campaigns@[ci].voters@, donor@)
            &&& forall|k: int|
                0 <= k < post.campaigns@.len() && k != ci ==> !has_voter(
                    (#[trigger] post.campaigns@[k]).voters@,
                    donor@,
                )
            &&& forall|k: int|
                0 <= k < post.events@.len() ==> !has_voter(
                    (#[trigger] post.events@[k]).voters@,
                    donor@,
                )
        }),
{
    let ci = campaign_idx(pre.campaigns@, cid@);
    lemma_find_by(pre.campaigns@, crate::campaign_pred(cid@));
    assert forall|k: int|
        0 <= k < post.campaigns@.len() && k != ci implies !has_voter(
        (#[trigger] post.campaigns@[k]).voters@,
        donor@,
    ) by {
        assert(post.campaigns@[k] == pre.campaigns@[k]);
    }
    assert(post.events@ == pre.events@);
}

/// Pagination round-trip for the campaign-donations query: for any fixed
/// page size of at least one, the pages of the donations earmarked for a
/// campaign, concatenated in page order until they cover the total count,
/// reproduce exactly the full filtered ledger — no duplicates, no omissions.
pub proof fn lemma_campaign_donations_round_trip(
    c: Contract,
    id: String,
    limit: int,
    pages: int,
)
    requires
        limit >= 1,
        pages >= 0,
        pages * limit >= filter_seq(c.donations@, donation_campaign_pred(id@)).len(),
    ensures
        pages_concat(filter_seq(c.donations@, donation_campaign_pred(id@)), limit, pages)
            == filter_seq(c.donations@, donation_campaign_pred(id@)),
{
    lemma_pagination_round_trip(
        filter_seq(c.donations@, donation_campaign_pred(id@)),
        limit,
        pages,
    );
}

/// The count-only boundary query: page 1 with limit 0 returns no results —
/// while the query's `count` is the true total, not zero.
pub proof fn lemma_count_only_page<T>(s: Seq<T>)
    ensures
        page_of(s, 1, 0) == Seq::<T>::empty(),
{
    assert(page_of(s, 1, 0) =~= Seq::<T>::empty());
}


/// Vote-consumption idempotence for whole event-vote operations: the same
/// law as for campaigns, on the structurally parallel event targets.
pub proof fn lemma_event_vote_consumption_idempotent(
    pre: Contract,
    mid: Contract,
    post: Contract,
    id: String,
    voter: String,
    partner: String,
    r1: String,
    r2: String,
)
    requires
        pre.wf(),
        event_vote_rel(pre, id, voter, partner, r1, mid),
        event_vote_rel(mid, id, voter, partner, r2, post),
        r1@ == "done"@,
    ensures
        r2@ == "voter not found"@,
{
    reveal_strlit("done");
    reveal_strlit("not found");
    reveal_strlit("voter not found");
    reveal_strlit("unknown partner");
    assert("done"@.len() == 4);
    assert("not found"@.len() == 9);
    assert("voter not found"@.len() == 15);
    assert("unknown partner"@.len() == 15);
    assert("voter not found"@[0] == 'v');
    assert("unknown partner"@[0] == 'u');
    let ei = event_idx(pre.events@, id@);
    assert(ei != -1);
    lemma_find_by(pre.events@, crate::event_pred(id@));
    let e0 = pre.events@[ei];
    let (st1, vs1, ps1) = spec_vote(e0.voters@, e0.partners@, voter@, partner@);
    assert(st1 == VoteStatus::Done);
    assert(mid.events@.len() == pre.events@.len());
    assert(forall|k: int|
        0 <= k < mid.events@.len() ==> (crate::event_pred(id@))(mid.events@[k])
            == (crate::event_pred(id@))(pre.events@[k]));
    lemma_find_by_congruent(mid.events@, pre.events@, crate::event_pred(id@));
    let e1 = mid.events@[ei];
    assert(e1.voters@ == vs1 && e1.partners@ == ps1);
    lemma_vote_consumes_credit(e0.voters@, e0.partners@, voter@, partner@);
}

/// Intake is exactly-once: once a donation has been recorded under an id,
/// any later attempt to record under the same id — whatever its other
/// fields — is rejected as invalid input and changes nothing.  Re-delivery
/// of a transfer notification therefore cannot double-credit.
pub proof fn lemma_replayed_donation_id_rejected(
    pre: Contract,
    mid: Contract,
    post: Contract,
    id: String,
    donor1: String,
    token1: String,
    amount1: u128,
    usd1: crate::amount::DecimalAmount,
    target1: TargetKind,
    event1: Option<String>,
    campaign1: Option<String>,
    now1: u64,
    donor2: String,
    token2: String,
    amount2: u128,
    usd2: crate::amount::DecimalAmount,
    target2: TargetKind,
    event2: Option<String>,
    campaign2: Option<String>,
    now2: u64,
    r2: Result<(), LedgerError>,
)
    requires
        record_donation_rel(
            pre,
            id,
            donor1,
            token1,
            amount1,
            usd1,
            target1,
            event1,
            campaign1,
            now1,
            Ok(()),
            mid,
        ),
        record_donation_rel(
            mid,
            id,
            donor2,
            token2,
            amount2,
            usd2,
            target2,
            event2,
            campaign2,
            now2,
            r2,
            post,
        ),
    ensures
        r2 == Err::<(), LedgerError>(LedgerError::InvalidInput),
        post == mid,
{
    let n = mid.donations@.len();
    assert(mid.donations@[n - 1].id@ == id@);
    if donation_idx(mid.donations@, id@) == -1 {
        lemma_find_by(mid.donations@, donation_pred(id@));
        assert(!(donation_pred(id@))(mid.donations@[n - 1]));
        assert(false);
    }
}

} // verus!

//! Voter credits and partner tallies.
//!
//! A campaign or event carries a voter set — each donor address holds at most
//! one outstanding voting credit — and a list of candidate partners with
//! their vote counts.  Granting a credit is idempotent; casting a vote
//! consumes the credit and raises exactly one tally by one.  Both campaigns
//! and events vote through the functions here.

use vstd::prelude::*;

use crate::lookup::{find_by, lemma_find_by, lemma_find_by_is, lemma_find_by_none};

verus! {

/// A candidate beneficiary on one target, with its running vote count.
#[derive(Debug)]
pub struct PartnerTally {
    pub name: String,
    pub votes: u64,
}

impl Clone for PartnerTally {
    fn clone(&self) -> (res: Self)
        ensures
            res == *self,
    {
        PartnerTally { name: self.name.clone(), votes: self.votes }
    }
}

/// The outcome of casting a vote.
#[derive(Clone, Copy, Debug, PartialEq, Eq, Structural)]
pub enum VoteStatus {
    /// The vote was counted.
    Done,
    /// The target campaign or event does not exist.
    NotFound,
    /// The caller holds no voting credit on the target.
    VoterNotFound,
    /// The named partner is not a candidate on the target.
    UnknownPartner,
}

/// The caller-visible word for each outcome.
pub open spec fn vote_status_text(st: VoteStatus) -> Seq<char> {
    match st {
        VoteStatus::Done => "done"@,
        VoteStatus::NotFound => "not found"@,
        VoteStatus::VoterNotFound => "voter not found"@,
        VoteStatus::UnknownPartner => "unknown partner"@,
    }
}

pub fn vote_status_string(st: VoteStatus) -> (r: String)
    ensures
        r@ == vote_status_text(st),
{
    match st {
        VoteStatus::Done => "done".to_owned(),
        VoteStatus::NotFound => "not found".to_owned(),
        VoteStatus::VoterNotFound => "voter not found".to_owned(),
        VoteStatus::UnknownPartner => "unknown partner".to_owned(),
    }
}

/// The predicate "this address is `v`", one spec-level value per `v`.
pub open spec fn voter_pred(v: Seq<char>) -> spec_fn(String) -> bool {
    |s: String| s@ == v
}

/// The index of address `v` in the voter set, or `-1`.
pub open spec fn voter_idx(vs: Seq<String>, v: Seq<char>) -> int {
    find_by(vs, voter_pred(v))
}

/// Address `v` holds a voting credit.
pub open spec fn has_voter(vs: Seq<String>, v: Seq<char>) -> bool {
    voter_idx(vs, v) != -1
}

/// Voter sets hold each address at most once.
pub open spec fn voters_wf(vs: Seq<String>) -> bool {
    forall|i: int, j: int| 0 <= i < j < vs.len() ==> vs[i]@ != vs[j]@
}

/// Membership in a voter set is exactly having some index.
pub proof fn lemma_has_voter(vs: Seq<String>, v: Seq<char>)
    ensures
        has_voter(vs, v) <==> exists|i: int| 0 <= i < vs.len() && vs[i]@ == v,
{
    let p = voter_pred(v);
    lemma_find_by(vs, p);
    if has_voter(vs, v) {
        let i = find_by(vs, p);
        assert(vs[i]@ == v);
    }
    if exists|i: int| 0 <= i < vs.len() && vs[i]@ == v {
        let i = choose|i: int| 0 <= i < vs.len() && vs[i]@ == v;
        if find_by(vs, p) == -1 {
            assert(!p(vs[i]));
        }
    }
}

/// The predicate "this tally is for partner `name`".
pub open spec fn partner_pred(name: Seq<char>) -> spec_fn(PartnerTally) -> bool {
    |t: PartnerTally| t.name@ == name
}

/// The index of partner `name` in a tally list, or `-1`.
pub open spec fn partner_idx(ps: Seq<PartnerTally>, name: Seq<char>) -> int {
    find_by(ps, partner_pred(name))
}

/// Partner `name` is a registered candidate.
pub open spec fn has_partner(ps: Seq<PartnerTally>, name: Seq<char>) -> bool {
    partner_idx(ps, name) != -1
}

/// Candidate names are unique.
pub open spec fn partners_wf(ps: Seq<PartnerTally>) -> bool {
    forall|i: int, j: int| 0 <= i < j < ps.len() ==> ps[i].name@ != ps[j].name@
}

/// Being a registered candidate is exactly having some index.
pub proof fn lemma_has_partner(ps: Seq<PartnerTally>, name: Seq<char>)
    ensures
        has_partner(ps, name) <==> exists|i: int| 0 <= i < ps.len() && ps[i].name@ == name,
{
    let p = partner_pred(name);
    lemma_find_by(ps, p);
    if has_partner(ps, name) {
        let i = find_by(ps, p);
        assert(ps[i].name@ == name);
    }
    if exists|i: int| 0 <= i < ps.len() && ps[i].name@ == name {
        let i = choose|i: int| 0 <= i < ps.len() && ps[i].name@ == name;
        if find_by(ps, p) == -1 {
            assert(!p(ps[i]));
        }
    }
}

/// The total of all vote counts on a target.
pub open spec fn sum_votes(ps: Seq<PartnerTally>) -> int
    decreases ps.len(),
{
    if ps.len() == 0 {
        0
    } else {
        sum_votes(ps.drop_last()) + ps.last().votes
    }
}

pub proof fn lemma_sum_votes_nonneg(ps: Seq<PartnerTally>)
    ensures
        sum_votes(ps) >= 0,
    decreases ps.len(),
{
    if ps.len() > 0 {
        lemma_sum_votes_nonneg(ps.drop_last());
    }
}

pub proof fn lemma_sum_votes_push(ps: Seq<PartnerTally>, t: PartnerTally)
    ensures
        sum_votes(ps.push(t)) == sum_votes(ps) + t.votes,
{
    assert(ps.push(t).drop_last() =~= ps);
}

pub proof fn lemma_sum_votes_update(ps: Seq<PartnerTally>, i: int, t: PartnerTally)
    requires
        0 <= i < ps.len(),
    ensures
        sum_votes(ps.update(i, t)) == sum_votes(ps) - ps[i].votes + t.votes,
    decreases ps.len(),
{
    if i == ps.len() - 1 {
        assert(ps.update(i, t).drop_last() =~= ps.drop_last());
        assert(ps.update(i, t).last() == t);
    } else {
        assert(ps.update(i, t).drop_last() =~= ps.drop_last().update(i, t));
        assert(ps.update(i, t).last() == ps.last());
        lemma_sum_votes_update(ps.drop_last(), i, t);
    }
}

/// No single tally exceeds the total.
pub proof fn lemma_sum_votes_bound(ps: Seq<PartnerTally>, i: int)
    requires
        0 <= i < ps.len(),
    ensures
        ps[i].votes <= sum_votes(ps),
    decreases ps.len(),
{
    if i == ps.len() - 1 {
        lemma_sum_votes_nonneg(ps.drop_last());
    } else {
        lemma_sum_votes_bound(ps.drop_last(), i);
    }
}

/// Grant address `v` a voting credit, unless it already holds one.
pub fn voters_add(vs: &mut Vec<String>, v: String)
    requires
        voters_wf(old(vs)@),
    ensures
        voters_wf(final(vs)@),
        has_voter(old(vs)@, v@) ==> final(vs)@ == old(vs)@,
        !has_voter(old(vs)@, v@) ==> final(vs)@ == old(vs)@.push(v),
        has_voter(final(vs)@, v@),
{
    let n = vs.len();
    let mut i: usize = 0;
    while i < n
        invariant
            0 <= i <= n,
            n == vs@.len(),
            vs@ == old(vs)@,
            voters_wf(old(vs)@),
            forall|k: int| 0 <= k < i ==> vs@[k]@ != v@,
        decreases n - i,
    {
        if vs[i] == v {
            proof {
                let ghost p = voter_pred(v@);
                if voter_idx(old(vs)@, v@) == -1 {
                    lemma_find_by(old(vs)@, p);
                    assert(!p(old(vs)@[i as int]));
                }
            }
            return ;
        }
        i = i + 1;
    }
    proof {
        let ghost p = voter_pred(v@);
        assert(forall|k: int| 0 <= k < old(vs)@.len() ==> !p(old(vs)@[k]));
        lemma_find_by_none(old(vs)@, p);
    }
    vs.push(v);
    proof {
        let post = vs@;
        assert(post.len() == old(vs)@.len() + 1);
        assert forall|a: int, b: int| 0 <= a < b < post.len() implies post[a]@ != post[b]@ by {
            if b < post.len() - 1 {
                assert(post[a] == old(vs)@[a]);
                assert(post[b] == old(vs)@[b]);
            } else {
                assert(post[b] == v);
                assert(post[a] == old(vs)@[a]);
            }
        }
        lemma_has_voter(post, v@);
        assert(post[post.len() - 1]@ == v@);
    }
}

/// Consume address `v`'s voting credit if it holds one; report whether it did.
pub fn voters_remove(vs: &mut Vec<String>, v: &String) -> (found: bool)
    requires
        voters_wf(old(vs)@),
    ensures
        voters_wf(final(vs)@),
        found == has_voter(old(vs)@, v@),
        found ==> final(vs)@ == old(vs)@.remove(voter_idx(old(vs)@, v@)),
        !found ==> final(vs)@ == old(vs)@,
        !has_voter(final(vs)@, v@),
{
    let n = vs.len();
    let mut i: usize = 0;
    while i < n
        invariant
            0 <= i <= n,
            n == vs@.len(),
            vs@ == old(vs)@,
            voters_wf(old(vs)@),
            forall|k: int| 0 <= k < i ==> vs@[k]@ != v@,
        decreases n - i,
    {
        if vs[i] == *v {
            proof {
                let ghost p = voter_pred(v@);
                lemma_find_by_is(old(vs)@, p, i as int);
            }
            vs.remove(i);
            proof {
                let post = vs@;
                let pre = old(vs)@;
                assert(forall|k: int|
                    0 <= k < post.len() ==> post[k] == (if k < i {
                        pre[k]
                    } else {
                        pre[k + 1]
                    }));
                assert forall|a: int, b: int| 0 <= a < b < post.len() implies post[a]@ != post[b]@
                by {}
                lemma_has_voter(post, v@);
                if has_voter(post, v@) {
                    let w = choose|w: int| 0 <= w < post.len() && post[w]@ == v@;
                    if w < i {
                        assert(pre[w]@ == v@);
                    } else {
                        assert(pre[w + 1]@ == v@);
                    }
                }
            }
            return true;
        }
        i = i + 1;
    }
    proof {
        let ghost p = voter_pred(v@);
        lemma_find_by_none(old(vs)@, p);
    }
    false
}

/// Find address `v`'s position in the voter set, without consuming anything.
pub fn find_voter(vs: &Vec<String>, v: &String) -> (r: Option<usize>)
    ensures
        match r {
            Some(i) => i < vs@.len() && vs@[i as int]@ == v@ && voter_idx(vs@, v@) == i,
            None => voter_idx(vs@, v@) == -1,
        },
{
    let n = vs.len();
    let mut i: usize = 0;
    while i < n
        invariant
            0 <= i <= n,
            n == vs@.len(),
            forall|k: int| 0 <= k < i ==> vs@[k]@ != v@,
        decreases n - i,
    {
        if vs[i] == *v {
            proof {
                lemma_find_by_is(vs@, voter_pred(v@), i as int);
            }
            return Some(i);
        }
        i = i + 1;
    }
    proof {
        lemma_find_by_none(vs@, voter_pred(v@));
    }
    None
}

/// Find partner `name`'s position in the tally list.
pub fn find_partner(ps: &Vec<PartnerTally>, name: &String) -> (r: Option<usize>)
    ensures
        match r {
            Some(i) => i < ps@.len() && ps@[i as int].name@ == name@ && partner_idx(ps@, name@)
                == i,
            None => partner_idx(ps@, name@) == -1,
        },
{
    let n = ps.len();
    let mut i: usize = 0;
    while i < n
        invariant
            0 <= i <= n,
            n == ps@.len(),
            forall|k: int| 0 <= k < i ==> ps@[k].name@ != name@,
        decreases n - i,
    {
        if ps[i].name == *name {
            proof {
                lemma_find_by_is(ps@, partner_pred(name@), i as int);
            }
            return Some(i);
        }
        i = i + 1;
    }
    proof {
        lemma_find_by_none(ps@, partner_pred(name@));
    }
    None
}

/// Register partner `name` as a candidate with a zero tally; registering a
/// name that is already a candidate changes nothing.
pub fn partners_register(ps: &mut Vec<PartnerTally>, name: String)
    requires
        partners_wf(old(ps)@),
    ensures
        partners_wf(final(ps)@),
        has_partner(old(ps)@, name@) ==> final(ps)@ == old(ps)@,
        !has_partner(old(ps)@, name@) ==> final(ps)@ == old(ps)@.push(
            (PartnerTally { name: name, votes: 0u64 }),
        ),
        sum_votes(final(ps)@) == sum_votes(old(ps)@),
        has_partner(final(ps)@, name@),
{
    match find_partner(ps, &name) {
        Some(_) => {
            proof {
                lemma_sum_votes_push(old(ps)@, (PartnerTally { name: name, votes: 0u64 }));
            }
        },
        None => {
            let entry = PartnerTally { name, votes: 0 };
            let ghost pre = ps@;
            let ghost e = entry;
            vec_push_tally(ps, entry);
            proof {
                lemma_sum_votes_push(pre, e);
                let post = ps@;
                assert forall|a: int, b: int|
                    0 <= a < b < post.len() implies post[a].name@ != post[b].name@ by {
                    if b == post.len() - 1 {
                        lemma_has_partner(pre, e.name@);
                    }
                }
                lemma_has_partner(post, e.name@);
                assert(post[post.len() - 1].name@ == e.name@);
            }
        },
    }
}

fn vec_push_tally(ps: &mut Vec<PartnerTally>, t: PartnerTally)
    ensures
        final(ps)@ == old(ps)@.push(t),
{
    ps.push(t);
}

/// What casting a vote does.  The credit check comes first: a caller who
/// holds no credit is answered `VoterNotFound`.  A credit holder naming an
/// unregistered partner is answered `UnknownPartner`, keeping the credit.
/// Neither failure changes anything; otherwise the credit is consumed and
/// that partner's tally rises by exactly one.
pub open spec fn spec_vote(vs: Seq<String>, ps: Seq<PartnerTally>, v: Seq<char>, p: Seq<char>) -> (
    VoteStatus,
    Seq<String>,
    Seq<PartnerTally>,
) {
    let pi = partner_idx(ps, p);
    let vi = voter_idx(vs, v);
    if vi == -1 {
        (VoteStatus::VoterNotFound, vs, ps)
    } else if pi == -1 {
        (VoteStatus::UnknownPartner, vs, ps)
    } else {
        (
            VoteStatus::Done,
            vs.remove(vi),
            ps.update(pi, PartnerTally { name: ps[pi].name, votes: (ps[pi].votes + 1) as u64 }),
        )
    }
}

/// Cast `voter`'s vote for `partner` on one target's voter set and tallies.
pub fn cast_vote_in(
    vs: &mut Vec<String>,
    ps: &mut Vec<PartnerTally>,
    voter: &String,
    partner: &String,
) -> (st: VoteStatus)
    requires
        voters_wf(old(vs)@),
        partners_wf(old(ps)@),
        sum_votes(old(ps)@) + old(vs)@.len() <= u64::MAX,
    ensures
        voters_wf(final(vs)@),
        partners_wf(final(ps)@),
        ({
            let (st2, vs2, ps2) = spec_vote(old(vs)@, old(ps)@, voter@, partner@);
            st == st2 && final(vs)@ == vs2 && final(ps)@ == ps2
        }),
        sum_votes(final(ps)@) + final(vs)@.len() == sum_votes(old(ps)@) + old(vs)@.len(),
{
    if find_voter(vs, voter).is_none() {
        return VoteStatus::VoterNotFound;
    }
    let pi = match find_partner(ps, partner) {
        None => {
            return VoteStatus::UnknownPartner;
        },
        Some(pi) => pi,
    };
    let _found = voters_remove(vs, voter);
    proof {
        lemma_find_by(old(vs)@, voter_pred(voter@));
        lemma_sum_votes_bound(old(ps)@, pi as int);
    }
    let name = ps[pi].name.clone();
    let votes = ps[pi].votes;
    let entry = PartnerTally { name, votes: votes + 1 };
    let ghost pre = ps@;
    let ghost e = entry;
    vec_set_tally(ps, pi, entry);
    proof {
        lemma_sum_votes_update(pre, pi as int, e);
        let post = ps@;
        assert(forall|k: int|
            0 <= k < post.len() ==> post[k].name@ == pre[k].name@);
        assert forall|a: int, b: int|
            0 <= a < b < post.len() implies post[a].name@ != post[b].name@ by {}
        assert(e.name == pre[pi as int].name);
        assert(post =~= pre.update(
            pi as int,
            PartnerTally { name: pre[pi as int].name, votes: (pre[pi as int].votes + 1) as u64 },
        ));
    }
    VoteStatus::Done
}

fn vec_set_tally(ps: &mut Vec<PartnerTally>, i: usize, t: PartnerTally)
    requires
        i < old(ps)@.len(),
    ensures
        final(ps)@ == old(ps)@.update(i as int, t),
{
    let r = &mut ps[i];
    *r = t;
}

/// Copy a voter list; the copy holds the same addresses in the same order.
pub fn clone_strings(v: &Vec<String>) -> (r: Vec<String>)
    ensures
        r@ == v@,
{
    let n = v.len();
    let mut r: Vec<String> = Vec::new();
    let mut i: usize = 0;
    while i < n
        invariant
            0 <= i <= n,
            n == v@.len(),
            r@ =~= v@.take(i as int),
        decreases n - i,
    {
        r.push(v[i].clone());
        i = i + 1;
    }
    proof {
        assert(v@.take(n as int) =~= v@);
    }
    r
}

/// Copy a tally list; the copy holds the same candidates and counts.
pub fn clone_tallies(v: &Vec<PartnerTally>) -> (r: Vec<PartnerTally>)
    ensures
        r@ == v@,
{
    let n = v.len();
    let mut r: Vec<PartnerTally> = Vec::new();
    let mut i: usize = 0;
    while i < n
        invariant
            0 <= i <= n,
            n == v@.len(),
            r@ =~= v@.take(i as int),
        decreases n - i,
    {
        r.push(v[i].clone());
        i = i + 1;
    }
    proof {
        assert(v@.take(n as int) =~= v@);
    }
    r
}

} // verus!

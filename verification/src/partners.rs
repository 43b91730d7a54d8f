//! The global partner registry.
//!
//! A partner is an organisation that may stand as a beneficiary candidate on
//! campaigns and events.  Registration is first come, first served: a second
//! registration under an id already taken fails and changes nothing.

use vstd::prelude::*;

use crate::errors::LedgerError;
use crate::lookup::{filter_seq, lemma_find_by_is, lemma_find_by_none};
use crate::pagination::{page_bounds, page_of};
use crate::{partner_entry_idx, partner_entry_pred, unchanged_but_partners, Contract, Response};

verus! {

/// A registered partner organisation.
#[derive(Debug)]
pub struct Partner {
    pub id: String,
    pub created_by: String,
    pub name: String,
    pub description: String,
    pub website: String,
    pub logo: String,
    pub banner: String,
}

impl Clone for Partner {
    fn clone(&self) -> (res: Self)
        ensures
            res == *self,
    {
        Partner {
            id: self.id.clone(),
            created_by: self.created_by.clone(),
            name: self.name.clone(),
            description: self.description.clone(),
            website: self.website.clone(),
            logo: self.logo.clone(),
            banner: self.banner.clone(),
        }
    }
}


/// The filter "this partner was registered by `account`".
pub open spec fn partner_creator_pred(account: Seq<char>) -> spec_fn(Partner) -> bool {
    |p: Partner| p.created_by@ == account
}

impl Contract {
    /// The position of the partner registered under this id.
    fn find_partner_index(&self, id: &String) -> (r: Option<usize>)
        ensures
            match r {
                Some(i) => i < self.partners@.len() && partner_entry_idx(self.partners@, id@) == i,
                None => partner_entry_idx(self.partners@, id@) == -1,
            },
    {
        let n = self.partners.len();
        let mut i: usize = 0;
        while i < n
            invariant
                0 <= i <= n,
                n == self.partners@.len(),
                forall|k: int| 0 <= k < i ==> self.partners@[k].id@ != id@,
            decreases n - i,
        {
            if self.partners[i].id == *id {
                proof {
                    lemma_find_by_is(self.partners@, partner_entry_pred(id@), i as int);
                }
                return Some(i);
            }
            i = i + 1;
        }
        proof {
            lemma_find_by_none(self.partners@, partner_entry_pred(id@));
        }
        None
    }

    /// Register the calling account as a partner under `id`.
    ///
    /// Returns `"success"` and stores the record when the id is free, and
    /// `"failed"` — changing nothing — when it is already taken.
    pub fn register_as_partner(
        &mut self,
        caller: String,
        id: String,
        name: String,
        description: String,
        website: String,
        logo: String,
        banner: String,
    ) -> (r: String)
        requires
            old(self).wf(),
        ensures
            final(self).wf(),
            ({
                let pi = partner_entry_idx(old(self).partners@, id@);
                if pi != -1 {
                    r@ == "failed"@ && *final(self) == *old(self)
                } else {
                    &&& r@ == "success"@
                    &&& final(self).partners@ == old(self).partners@.push(
                        (Partner {
                            id: id,
                            created_by: caller,
                            name: name,
                            description: description,
                            website: website,
                            logo: logo,
                            banner: banner,
                        }),
                    )
                    &&& final(self).partners_count == old(self).partners_count + 1
                }
            }),
            unchanged_but_partners(old(self), final(self)),
    {
        if self.find_partner_index(&id).is_some() {
            return "failed".to_owned();
        }
        let entry = Partner { id, created_by: caller, name, description, website, logo, banner };
        let ghost e = entry;
        self.partners.push(entry);
        self.partners_count = self.partners.len() as u64;
        proof {
            let pre = old(self).partners@;
            let post = self.partners@;
            crate::lookup::lemma_find_by(pre, partner_entry_pred(e.id@));
            assert forall|a: int, b: int| 0 <= a < b < post.len() implies post[a].id@ != post[b].id@
            by {
                if b == post.len() - 1 {
                    assert(post[a] == pre[a]);
                }
            }
        }
        "success".to_owned()
    }

    /// The partner registered under this id, if any.
    pub fn get_partner(&self, id: String) -> (r: Option<Partner>)
        ensures
            ({
                let pi = partner_entry_idx(self.partners@, id@);
                match r {
                    Some(p) => pi != -1 && 0 <= pi < self.partners@.len() && p
                        == self.partners@[pi],
                    None => pi == -1,
                }
            }),
    {
        match self.find_partner_index(&id) {
            None => None,
            Some(i) => Some(self.partners[i].clone()),
        }
    }

    /// One page of all registered partners, plus their total number.  Page
    /// numbers start at 1; page 0 is rejected.
    pub fn get_partners(&self, page: usize, limit: usize) -> (r: Result<
        Response<Partner>,
        LedgerError,
    >)
        ensures
            match r {
                Ok(resp) => {
                    &&& page >= 1
                    &&& resp.count == self.partners@.len()
                    &&& resp.results@ == page_of(self.partners@, page as int, limit as int)
                },
                Err(e) => e == LedgerError::InvalidInput && page == 0,
            },
    {
        if page == 0 {
            return Err(LedgerError::InvalidInput);
        }
        let n = self.partners.len();
        let (a, b) = page_bounds(n, page, limit);
        let mut results: Vec<Partner> = Vec::new();
        let mut j: usize = a;
        while j < b
            invariant
                a <= j <= b <= n,
                n == self.partners@.len(),
                a == crate::pagination::page_start(n as int, page as int, limit as int),
                b == crate::pagination::page_end(n as int, page as int, limit as int),
                results@ =~= self.partners@.subrange(a as int, j as int),
            decreases b - j,
        {
            results.push(self.partners[j].clone());
            j = j + 1;
        }
        proof {
            assert(results@ =~= page_of(self.partners@, page as int, limit as int));
        }
        Ok(Response { results, count: self.partners.len() as u64 })
    }

    /// Every partner registered by `account_id`, in registration order.
    pub fn get_account_partners(&self, account_id: String) -> (r: Vec<Partner>)
        ensures
            r@ == filter_seq(self.partners@, partner_creator_pred(account_id@)),
    {
        let ghost p = partner_creator_pred(account_id@);
        let n = self.partners.len();
        let mut r: Vec<Partner> = Vec::new();
        let mut i: usize = 0;
        while i < n
            invariant
                0 <= i <= n,
                n == self.partners@.len(),
                p == partner_creator_pred(account_id@),
                r@ == filter_seq(self.partners@.take(i as int), p),
            decreases n - i,
        {
            proof {
                assert(self.partners@.take(i + 1).drop_last() =~= self.partners@.take(i as int));
                assert(self.partners@.take(i + 1).last() == self.partners@[i as int]);
            }
            let e = &self.partners[i];
            if e.created_by == account_id {
                r.push(e.clone());
            }
            i = i + 1;
        }
        proof {
            assert(self.partners@.take(n as int) =~= self.partners@);
        }
        r
    }
}

} // verus!

//! Causes: the themes a campaign or event can be tagged with (food
//! security, water, tree planting, ...).  Causes form a set: creating a
//! cause whose title already exists changes nothing.

use vstd::prelude::*;

use crate::lookup::{find_by, lemma_find_by, lemma_find_by_is, lemma_find_by_none};
use crate::{unchanged_but_causes, Contract};

verus! {

/// A cause, identified by its title.
#[derive(Debug)]
pub struct Cause {
    pub title: String,
}

impl Clone for Cause {
    fn clone(&self) -> (res: Self)
        ensures
            res == *self,
    {
        Cause { title: self.title.clone() }
    }
}


/// The predicate "this cause has title `t`".
pub open spec fn cause_pred(t: Seq<char>) -> spec_fn(Cause) -> bool {
    |c: Cause| c.title@ == t
}

/// The index of the cause with title `t`, or `-1`.
pub open spec fn cause_idx(cs: Seq<Cause>, t: Seq<char>) -> int {
    find_by(cs, cause_pred(t))
}

impl Contract {
    /// Create a cause; creating one whose title already exists changes
    /// nothing.
    pub fn create_cause(&mut self, title: String)
        requires
            old(self).wf(),
        ensures
            final(self).wf(),
            ({
                let ci = cause_idx(old(self).causes@, title@);
                if ci != -1 {
                    *final(self) == *old(self)
                } else {
                    &&& final(self).causes@ == old(self).causes@.push((Cause { title: title }))
                    &&& final(self).causes_count == old(self).causes_count + 1
                }
            }),
            unchanged_but_causes(old(self), final(self)),
    {
        let n = self.causes.len();
        let mut i: usize = 0;
        while i < n
            invariant
                0 <= i <= n,
                n == self.causes@.len(),
                *self == *old(self),
                old(self).wf(),
                forall|k: int| 0 <= k < i ==> self.causes@[k].title@ != title@,
            decreases n - i,
        {
            if self.causes[i].title == title {
                proof {
                    lemma_find_by_is(self.causes@, cause_pred(title@), i as int);
                }
                return ;
            }
            i = i + 1;
        }
        proof {
            lemma_find_by_none(self.causes@, cause_pred(title@));
        }
        let ghost t = title@;
        self.causes.push(Cause { title });
        self.causes_count = self.causes.len() as u64;
        proof {
            let pre = old(self).causes@;
            let post = self.causes@;
            assert forall|a: int, b: int|
                0 <= a < b < post.len() implies post[a].title@ != post[b].title@ by {
                if b == post.len() - 1 {
                    assert(post[a] == pre[a]);
                }
            }
        }
    }

    /// Every cause, in creation order.
    pub fn get_causes(&self) -> (r: Vec<Cause>)
        ensures
            r@ == self.causes@,
    {
        let n = self.causes.len();
        let mut r: Vec<Cause> = Vec::new();
        let mut i: usize = 0;
        while i < n
            invariant
                0 <= i <= n,
                n == self.causes@.len(),
                r@ =~= self.causes@.take(i as int),
            decreases n - i,
        {
            r.push(self.causes[i].clone());
            i = i + 1;
        }
        proof {
            assert(self.causes@.take(n as int) =~= self.causes@);
        }
        r
    }
}

} // verus!

//! Courses: a second, independent catalogue of themes, kept as a set just
//! as causes are.

use vstd::prelude::*;

use crate::lookup::{find_by, lemma_find_by_is, lemma_find_by_none};
use crate::{unchanged_but_courses, Contract};

verus! {

/// A course, identified by its title.
#[derive(Debug)]
pub struct Course {
    pub title: String,
}

impl Clone for Course {
    fn clone(&self) -> (res: Self)
        ensures
            res == *self,
    {
        Course { title: self.title.clone() }
    }
}


/// The predicate "this course has title `t`".
pub open spec fn course_pred(t: Seq<char>) -> spec_fn(Course) -> bool {
    |c: Course| c.title@ == t
}

/// The index of the course with title `t`, or `-1`.
pub open spec fn course_idx(cs: Seq<Course>, t: Seq<char>) -> int {
    find_by(cs, course_pred(t))
}

impl Contract {
    /// Create a course; creating one whose title already exists changes
    /// nothing.
    pub fn create_course(&mut self, title: String)
        requires
            old(self).wf(),
        ensures
            final(self).wf(),
            ({
                let ci = course_idx(old(self).courses@, title@);
                if ci != -1 {
                    *final(self) == *old(self)
                } else {
                    final(self).courses@ == old(self).courses@.push((Course { title: title }))
                }
            }),
            unchanged_but_courses(old(self), final(self)),
    {
        let n = self.courses.len();
        let mut i: usize = 0;
        while i < n
            invariant
                0 <= i <= n,
                n == self.courses@.len(),
                *self == *old(self),
                old(self).wf(),
                forall|k: int| 0 <= k < i ==> self.courses@[k].title@ != title@,
            decreases n - i,
        {
            if self.courses[i].title == title {
                proof {
                    lemma_find_by_is(self.courses@, course_pred(title@), i as int);
                }
                return ;
            }
            i = i + 1;
        }
        proof {
            lemma_find_by_none(self.courses@, course_pred(title@));
        }
        self.courses.push(Course { title });
        proof {
            let pre = old(self).courses@;
            let post = self.courses@;
            assert forall|a: int, b: int|
                0 <= a < b < post.len() implies post[a].title@ != post[b].title@ by {
                if b == post.len() - 1 {
                    assert(post[a] == pre[a]);
                }
            }
        }
    }
}

} // verus!

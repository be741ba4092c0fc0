//! The review-assignment coordinator: the process-wide claim set that hands
//! each pending user to at most one moderator at a time.
//!
//! Claims are advisory and live only in memory; they reset when the process
//! restarts. The host must wrap a value of [`ReviewCoordinator`] in its one
//! mutual-exclusion boundary (a mutex around the whole value) so that each
//! `next_candidate` call observes and updates the claim set atomically; the
//! contracts here describe one such atomic step.

use vstd::prelude::*;

use crate::lookup::{lemma_filter_distinct_by_key, lemma_filter_elem};
use crate::models::User;

verus! {

/// Review order: oldest creation time first, ties broken by ascending id.
pub open spec fn earlier(a: User, b: User) -> bool {
    a.created < b.created || (a.created == b.created && a.id < b.id)
}

/// Keeps every claim except one id.
pub open spec fn claim_keep_pred(id: i64) -> spec_fn(i64) -> bool {
    |x: i64| x != id
}

/// The set of user ids currently being worked on by some moderator.
pub struct ReviewCoordinator {
    users_being_worked_on: Vec<i64>,
}

impl ReviewCoordinator {
    /// No id is recorded twice.
    pub closed spec fn wf(self) -> bool {
        forall|i: int, j: int|
            0 <= i < j < self.users_being_worked_on@.len()
                ==> self.users_being_worked_on@[i] != self.users_being_worked_on@[j]
    }

    /// Whether a user id is currently claimed.
    pub closed spec fn is_claimed(self, id: i64) -> bool {
        self.users_being_worked_on@.contains(id)
    }

    /// A coordinator with no claims, the state right after a process start.
    pub fn new() -> (c: ReviewCoordinator)
        ensures
            c.wf(),
            forall|x: i64| !c.is_claimed(x),
    {
        let c = ReviewCoordinator { users_being_worked_on: Vec::new() };
        proof {
            assert forall|x: i64| !c.is_claimed(x) by {
                assert(c.users_being_worked_on@.len() == 0);
            }
        }
        c
    }

    /// Whether `id` is claimed, as executable code.
    pub fn contains_claim(&self, id: i64) -> (r: bool)
        ensures
            r == self.is_claimed(id),
    {
        let n = self.users_being_worked_on.len();
        let mut i: usize = 0;
        while i < n
            invariant
                n == self.users_being_worked_on@.len(),
                i <= n,
                forall|k: int| 0 <= k < i ==> self.users_being_worked_on@[k] != id,
            decreases n - i,
        {
            if self.users_being_worked_on[i] == id {
                return true;
            }
            i = i + 1;
        }
        false
    }

    /// Marks a user as being worked on. Claiming an id that is already
    /// claimed is not an error and changes nothing, so a moderator may
    /// re-open a review it already holds.
    pub fn claim(&mut self, id: i64)
        requires
            old(self).wf(),
        ensures
            final(self).wf(),
            forall|x: i64| final(self).is_claimed(x) == (old(self).is_claimed(x) || x == id),
    {
        if !self.contains_claim(id) {
            self.users_being_worked_on.push(id);
            proof {
                let olds = old(self).users_being_worked_on@;
                let news = self.users_being_worked_on@;
                assert forall|x: i64| final(self).is_claimed(x) == (old(self).is_claimed(x) || x
                    == id) by {
                    if news.contains(x) {
                        let k = choose|k: int| 0 <= k < news.len() && news[k] == x;
                        if k < olds.len() {
                            assert(olds[k] == x);
                        }
                    }
                    if olds.contains(x) {
                        let k = choose|k: int| 0 <= k < olds.len() && olds[k] == x;
                        assert(news[k] == x);
                    }
                    if x == id {
                        assert(news[news.len() - 1] == id);
                    }
                }
                assert forall|i: int, j: int| 0 <= i < j < news.len() implies news[i]
                    != news[j] by {
                    if j == news.len() - 1 {
                        assert(olds[i] == news[i]);
                        assert(!olds.contains(id));
                    }
                }
            }
        }
    }

    /// Drops the claim on a user id, making it assignable again. Releasing
    /// an id that is not claimed changes nothing.
    pub fn release(&mut self, id: i64)
        requires
            old(self).wf(),
        ensures
            final(self).wf(),
            forall|x: i64| final(self).is_claimed(x) == (old(self).is_claimed(x) && x != id),
    {
        let n = self.users_being_worked_on.len();
        let mut out: Vec<i64> = Vec::new();
        let mut i: usize = 0;
        proof {
            reveal(Seq::filter);
            assert(self.users_being_worked_on@.take(0) =~= Seq::<i64>::empty());
        }
        while i < n
            invariant
                n == self.users_being_worked_on@.len(),
                i <= n,
                self == old(self),
                out@ == self.users_being_worked_on@.take(i as int).filter(claim_keep_pred(id)),
            decreases n - i,
        {
            let keep = self.users_being_worked_on[i] != id;
            proof {
                reveal(Seq::filter);
                assert(self.users_being_worked_on@.take(i as int + 1).drop_last()
                    =~= self.users_being_worked_on@.take(i as int));
                assert(self.users_being_worked_on@.take(i as int + 1).last()
                    == self.users_being_worked_on@[i as int]);
            }
            if keep {
                out.push(self.users_being_worked_on[i]);
            }
            i = i + 1;
        }
        proof {
            let olds = self.users_being_worked_on@;
            assert(olds.take(n as int) =~= olds);
            lemma_filter_distinct_by_key(olds, claim_keep_pred(id), |x: i64| x);
            let f = olds.filter(claim_keep_pred(id));
            assert forall|x: i64| f.contains(x) == (olds.contains(x) && x != id) by {
                if f.contains(x) {
                    let k = choose|k: int| 0 <= k < f.len() && f[k] == x;
                    lemma_filter_elem(olds, claim_keep_pred(id), k);
                    assert(claim_keep_pred(id)(f[k]));
                }
                if olds.contains(x) && x != id {
                    let k = choose|k: int| 0 <= k < olds.len() && olds[k] == x;
                    olds.lemma_filter_contains(claim_keep_pred(id), k);
                }
            }
        }
        self.users_being_worked_on = out;
    }

    /// Assigns the next pending user: among `found`, the rows still in
    /// review order that no moderator holds, the one that was discovered
    /// first (oldest `created`, ties by smallest id). The chosen id is
    /// claimed in the same step, so no concurrent caller sharing this
    /// coordinator under its lock can receive the same user. Returns `None`
    /// exactly when every row of `found` is already claimed.
    pub fn next_candidate(&mut self, found: &Vec<User>) -> (r: Option<User>)
        requires
            old(self).wf(),
            forall|i: int, j: int|
                0 <= i < j < found@.len() ==> (#[trigger] found@[i]).id != (
                #[trigger] found@[j]).id,
        ensures
            final(self).wf(),
            match r {
                Some(u) => {
                    &&& found@.contains(u)
                    &&& !old(self).is_claimed(u.id)
                    &&& forall|v: User|
                        found@.contains(v) && !old(self).is_claimed(v.id) && v != u ==> earlier(
                            u,
                            v,
                        )
                    &&& forall|x: i64|
                        final(self).is_claimed(x) == (old(self).is_claimed(x) || x == u.id)
                },
                None => {
                    &&& forall|v: User| found@.contains(v) ==> old(self).is_claimed(v.id)
                    &&& *final(self) == *old(self)
                },
            },
    {
        let n = found.len();
        let mut best: usize = 0;
        let mut have: bool = false;
        let mut i: usize = 0;
        while i < n
            invariant
                n == found@.len(),
                i <= n,
                self == old(self),
                old(self).wf(),
                forall|a: int, b: int|
                    0 <= a < b < found@.len() ==> (#[trigger] found@[a]).id != (
                    #[trigger] found@[b]).id,
                have ==> best < i,
                have ==> !old(self).is_claimed(found@[best as int].id),
                have ==> forall|k: int|
                    0 <= k < i && !old(self).is_claimed((#[trigger] found@[k]).id) ==> (found@[k]
                        == found@[best as int] || earlier(found@[best as int], found@[k])),
                !have ==> forall|k: int|
                    0 <= k < i ==> old(self).is_claimed((#[trigger] found@[k]).id),
            decreases n - i,
        {
            if !self.contains_claim(found[i].id) {
                if !have {
                    best = i;
                    have = true;
                } else {
                    let b = &found[best];
                    let c = &found[i];
                    if c.created < b.created || (c.created == b.created && c.id < b.id) {
                        best = i;
                    }
                }
            }
            i = i + 1;
        }
        if have {
            let u = found[best].clone();
            self.claim(u.id);
            proof {
                assert forall|v: User|
                    found@.contains(v) && !old(self).is_claimed(v.id) && v != u implies earlier(
                    u,
                    v,
                ) by {
                    let k = choose|k: int| 0 <= k < found@.len() && found@[k] == v;
                    assert(found@[k] == v);
                }
            }
            Some(u)
        } else {
            proof {
                assert forall|v: User| found@.contains(v) implies old(self).is_claimed(v.id) by {
                    let k = choose|k: int| 0 <= k < found@.len() && found@[k] == v;
                    assert(found@[k] == v);
                }
            }
            None
        }
    }
}

/// Law: as long as no claim is released, two assignments never name the same
/// user. `first` is the claim set one `next_candidate` call decided against,
/// `later` any claim set after that call (and possibly further claims) when
/// a second call decides; the two chosen ids must differ.
pub proof fn lemma_candidates_distinct(
    first: ReviewCoordinator,
    later: ReviewCoordinator,
    id1: i64,
    id2: i64,
)
    requires
        !first.is_claimed(id1),
        forall|x: i64| first.is_claimed(x) || x == id1 ==> later.is_claimed(x),
        !later.is_claimed(id2),
    ensures
        id1 != id2,
{
    assert(later.is_claimed(id1));
}

/// Law: claiming an id that the same session already holds changes nothing;
/// the second `claim` call is harmless.
pub proof fn lemma_claim_idempotent(
    before: ReviewCoordinator,
    after: ReviewCoordinator,
    id: i64,
)
    requires
        before.is_claimed(id),
        forall|x: i64| after.is_claimed(x) == (before.is_claimed(x) || x == id),
    ensures
        forall|x: i64| after.is_claimed(x) == before.is_claimed(x),
{
}

/// Law: once any caller holds a claim on `id`, an assignment decided against
/// any claim set that still contains `id` cannot hand out `id`.
pub proof fn lemma_claimed_user_not_reassigned(
    at_next: ReviewCoordinator,
    id: i64,
    picked: i64,
)
    requires
        at_next.is_claimed(id),
        !at_next.is_claimed(picked),
    ensures
        picked != id,
{
}

} // verus!

//! Per-repository deployment locks.  Two concurrent deployments of one
//! repository would interleave clone, fetch and command execution
//! against the same working copy and process name; a deployment may
//! therefore only start once it holds the repository's lock, and must
//! release it when the run completes or fails.  The table itself is
//! plain data; the surrounding program guards it with its own mutual
//! exclusion when it serves requests concurrently.

use vstd::prelude::*;

use crate::text::str_eq;

verus! {

/// The set of repository identifiers whose deployment is under way.
pub struct DeployLocks {
    pub held: Vec<String>,
}

impl DeployLocks {
    /// The identifiers are pairwise distinct, so releasing one removes
    /// it completely.
    pub open spec fn wf(self) -> bool {
        forall|i: int, j: int| 0 <= i < j < self.held@.len() ==> self.held@[i]@ != self.held@[j]@
    }

    /// Whether a repository's lock is currently held.
    pub open spec fn holds(self, repo: Seq<char>) -> bool {
        exists|i: int| 0 <= i < self.held@.len() && self.held@[i]@ == repo
    }

    /// An empty table: no lock is held.
    pub fn new() -> (r: Self)
        ensures
            r.wf(),
            forall|s: Seq<char>| !r.holds(s),
    {
        DeployLocks { held: Vec::new() }
    }

    /// Whether the given repository's lock is held.
    pub fn is_locked(&self, repo: &str) -> (r: bool)
        ensures
            r == self.holds(repo@),
    {
        let mut i: usize = 0;
        while i < self.held.len()
            invariant
                i <= self.held@.len(),
                forall|j: int| 0 <= j < i ==> self.held@[j]@ != repo@,
            decreases self.held@.len() - i,
        {
            if str_eq(self.held[i].as_str(), repo) {
                return true;
            }
            i = i + 1;
        }
        false
    }

    /// Takes the repository's lock.  Fails, changing nothing, when the
    /// lock is already held.
    pub fn acquire(&mut self, repo: &str) -> (r: bool)
        requires
            old(self).wf(),
        ensures
            final(self).wf(),
            r == !old(self).holds(repo@),
            r ==> forall|s: Seq<char>|
                final(self).holds(s) == (old(self).holds(s) || s == repo@),
            !r ==> *final(self) == *old(self),
    {
        if self.is_locked(repo) {
            false
        } else {
            let ghost oldh = self.held@;
            self.held.push(String::from_str(repo));
            proof {
                let newh = self.held@;
                assert(newh[oldh.len() as int]@ == repo@);
                assert forall|i: int, j: int| 0 <= i < j < newh.len() implies newh[i]@
                    != newh[j]@ by {
                    if j == oldh.len() {
                        assert(newh[i] == oldh[i]);
                        if oldh[i]@ == repo@ {
                            assert(old(self).holds(repo@));
                        }
                    } else {
                        assert(newh[i] == oldh[i] && newh[j] == oldh[j]);
                    }
                }
                assert forall|s: Seq<char>| self.holds(s) == (old(self).holds(s) || s
                    == repo@) by {
                    if self.holds(s) {
                        let i = choose|i: int| 0 <= i < newh.len() && newh[i]@ == s;
                        if i < oldh.len() {
                            assert(oldh[i]@ == s);
                            assert(old(self).holds(s));
                        } else {
                            assert(s == repo@);
                        }
                    }
                    if old(self).holds(s) {
                        let i = choose|i: int| 0 <= i < oldh.len() && oldh[i]@ == s;
                        assert(newh[i]@ == s);
                        assert(self.holds(s));
                    }
                    if s == repo@ {
                        assert(newh[oldh.len() as int]@ == s);
                        assert(self.holds(s));
                    }
                }
            }
            true
        }
    }

    /// Gives the repository's lock back.  Releasing a lock that is not
    /// held changes nothing.
    pub fn release(&mut self, repo: &str)
        requires
            old(self).wf(),
        ensures
            final(self).wf(),
            forall|s: Seq<char>| final(self).holds(s) == (old(self).holds(s) && s != repo@),
    {
        let mut i: usize = 0;
        while i < self.held.len()
            invariant
                i <= self.held@.len(),
                *self == *old(self),
                old(self).wf(),
                forall|j: int| 0 <= j < i ==> self.held@[j]@ != repo@,
            decreases self.held@.len() - i,
        {
            if str_eq(self.held[i].as_str(), repo) {
                let ghost oldh = self.held@;
                let ghost at = i as int;
                let _removed = self.held.remove(i);
                proof {
                    let newh = self.held@;
                    oldh.remove_ensures(at);
                    assert(oldh[at]@ == repo@);
                    assert forall|p: int, q: int| 0 <= p < q < newh.len() implies newh[p]@
                        != newh[q]@ by {
                        let p0 = if p < at {
                            p
                        } else {
                            p + 1
                        };
                        let q0 = if q < at {
                            q
                        } else {
                            q + 1
                        };
                        assert(newh[p] == oldh[p0] && newh[q] == oldh[q0]);
                        assert(0 <= p0 < q0 < oldh.len());
                        assert(oldh[p0]@ != oldh[q0]@);
                    }
                    assert forall|s: Seq<char>| self.holds(s) == (old(self).holds(s) && s
                        != repo@) by {
                        if self.holds(s) {
                            let k = choose|k: int| 0 <= k < newh.len() && newh[k]@ == s;
                            let k0 = if k < at {
                                k
                            } else {
                                k + 1
                            };
                            assert(oldh[k0]@ == s);
                            assert(old(self).holds(s));
                            assert(k0 != at);
                            assert(oldh[k0]@ != oldh[at]@);
                        }
                        if old(self).holds(s) && s != repo@ {
                            let k = choose|k: int| 0 <= k < oldh.len() && oldh[k]@ == s;
                            assert(k != at);
                            let k1 = if k < at {
                                k
                            } else {
                                k - 1
                            };
                            assert(newh[k1]@ == s);
                            assert(self.holds(s));
                        }
                    }
                }
                return ;
            }
            i = i + 1;
        }
        proof {
            assert(!old(self).holds(repo@));
        }
    }
}

} // verus!

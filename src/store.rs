//! The problems known to the application, at most one per identifier, and
//! the one currently worked on. Persisting them is left to the caller.
use crate::models::Problem;
use vstd::prelude::*;

verus! {

/// Problems by identifier, with the current one.
#[derive(Clone, Debug)]
pub struct ProblemStore {
    pub problems: Vec<Problem>,
    pub current_problem: Option<u128>,
}

/// `order` lists each index of `problems` once, newest first.
pub open spec fn newest_first(problems: Seq<Problem>, order: Seq<usize>) -> bool {
    &&& order.len() == problems.len()
    &&& forall|i: int| 0 <= i < order.len() ==> (#[trigger] order[i]) < problems.len()
    &&& forall|i: int, j: int| 0 <= i < j < order.len() ==> order[i] != order[j]
    &&& forall|i: int, j: int|
        0 <= i < j < order.len() ==> problems[order[i] as int].created_at >= problems[order[j] as int].created_at
}

impl ProblemStore {
    /// No two problems share an identifier.
    pub open spec fn wf(&self) -> bool {
        forall|i: int, j: int|
            0 <= i < j < self.problems@.len() ==> self.problems@[i].id != self.problems@[j].id
    }

    /// Whether a problem with identifier `id` is held.
    pub open spec fn holds(&self, id: u128) -> bool {
        exists|i: int| 0 <= i < self.problems@.len() && (#[trigger] self.problems@[i]).id == id
    }

    pub fn new() -> (r: ProblemStore)
        ensures
            r.wf(),
            r.problems@.len() == 0,
            r.current_problem is None,
    {
        ProblemStore { problems: Vec::new(), current_problem: None }
    }

    /// Where the problem with identifier `id` is held.
    pub fn find(&self, id: u128) -> (r: Option<usize>)
        ensures
            match r {
                Some(i) => i < self.problems@.len() && self.problems@[i as int].id == id,
                None => !self.holds(id),
            },
    {
        let mut i: usize = 0;
        while i < self.problems.len()
            invariant
                i <= self.problems@.len(),
                forall|j: int| 0 <= j < i ==> (#[trigger] self.problems@[j]).id != id,
            decreases self.problems@.len() - i,
        {
            if self.problems[i].id == id {
                return Some(i);
            }
            i = i + 1;
        }
        None
    }

    /// Keeps `problem`, in place of one with the same identifier if there is one.
    pub fn insert(&mut self, problem: Problem)
        requires
            old(self).wf(),
        ensures
            final(self).wf(),
            final(self).current_problem == old(self).current_problem,
            exists|i: int|
                0 <= i < final(self).problems@.len() && final(self).problems@[i] == problem,
            forall|id: u128| #[trigger] final(self).holds(id) <==> (old(self).holds(id) || id == problem.id),
            forall|i: int|
                0 <= i < old(self).problems@.len() && old(self).problems@[i].id != problem.id
                    ==> final(self).problems@.contains(#[trigger] old(self).problems@[i]),
    {
        let ghost p = problem;
        match self.find(problem.id) {
            Some(i) => {
                self.problems.set(i, problem);
                assert(self.problems@[i as int] == p);
                assert forall|id: u128| #[trigger] self.holds(id) <==> (old(self).holds(id) || id == p.id) by {
                    if old(self).holds(id) {
                        let k = choose|k: int| 0 <= k < old(self).problems@.len() && (#[trigger] old(self).problems@[k]).id == id;
                        assert(self.problems@[k].id == id);
                    }
                    if self.holds(id) {
                        let k = choose|k: int| 0 <= k < self.problems@.len() && (#[trigger] self.problems@[k]).id == id;
                        if k != i {
                            assert(old(self).problems@[k].id == id);
                        }
                    }
                }
                assert forall|k: int|
                    0 <= k < old(self).problems@.len() && old(self).problems@[k].id != p.id implies self.problems@.contains(
                    #[trigger] old(self).problems@[k]) by {
                    assert(self.problems@[k] == old(self).problems@[k]);
                }
            },
            None => {
                self.problems.push(problem);
                let ghost n: int = self.problems@.len() - 1;
                assert(self.problems@[n] == p);
                assert forall|id: u128| #[trigger] self.holds(id) <==> (old(self).holds(id) || id == p.id) by {
                    if old(self).holds(id) {
                        let k = choose|k: int| 0 <= k < old(self).problems@.len() && (#[trigger] old(self).problems@[k]).id == id;
                        assert(self.problems@[k].id == id);
                    }
                    if self.holds(id) {
                        let k = choose|k: int| 0 <= k < self.problems@.len() && (#[trigger] self.problems@[k]).id == id;
                        if k != n {
                            assert(old(self).problems@[k].id == id);
                        }
                    }
                }
                assert forall|k: int|
                    0 <= k < old(self).problems@.len() && old(self).problems@[k].id != p.id implies self.problems@.contains(
                    #[trigger] old(self).problems@[k]) by {
                    assert(self.problems@[k] == old(self).problems@[k]);
                }
            },
        }
    }

    /// Keeps `problem` and makes it the current one.
    pub fn add_problem(&mut self, problem: Problem)
        requires
            old(self).wf(),
        ensures
            final(self).wf(),
            final(self).current_problem == Some(problem.id),
            exists|i: int|
                0 <= i < final(self).problems@.len() && final(self).problems@[i] == problem,
            forall|id: u128| #[trigger] final(self).holds(id) <==> (old(self).holds(id) || id == problem.id),
    {
        let id = problem.id;
        self.insert(problem);
        let ghost mid = *self;
        self.current_problem = Some(id);
        assert forall|other: u128| #[trigger] self.holds(other) <==> mid.holds(other) by {
            assert(self.problems@ == mid.problems@);
        }
    }

    /// The current problem, if it is held.
    pub fn get_current_problem(&self) -> (r: Option<&Problem>)
        ensures
            match r {
                Some(p) => self.current_problem == Some(p.id) && self.problems@.contains(*p),
                None => self.current_problem matches Some(id) ==> !self.holds(id),
            },
    {
        match self.current_problem {
            Some(id) => match self.find(id) {
                Some(i) => {
                    assert(self.problems@.contains(self.problems@[i as int]));
                    Some(&self.problems[i])
                },
                None => None,
            },
            None => None,
        }
    }

    /// The indices of all problems, newest first.
    pub fn get_all_problems(&self) -> (r: Vec<usize>)
        ensures
            newest_first(self.problems@, r@),
    {
        let mut order: Vec<usize> = Vec::new();
        let mut k: usize = 0;
        while k < self.problems.len()
            invariant
                k <= self.problems@.len(),
                order@.len() == k,
                forall|i: int| 0 <= i < order@.len() ==> (#[trigger] order@[i]) < k,
                forall|i: int, j: int| 0 <= i < j < order@.len() ==> order@[i] != order@[j],
                forall|i: int, j: int|
                    0 <= i < j < order@.len() ==> self.problems@[order@[i] as int].created_at
                        >= self.problems@[order@[j] as int].created_at,
            decreases self.problems@.len() - k,
        {
            let t = self.problems[k].created_at;
            let mut pos: usize = 0;
            while pos < order.len() && self.problems[order[pos]].created_at >= t
                invariant
                    pos <= order@.len(),
                    k < self.problems@.len(),
                    t == self.problems@[k as int].created_at,
                    forall|i: int| 0 <= i < order@.len() ==> (#[trigger] order@[i]) < k,
                    forall|i: int| 0 <= i < pos ==> self.problems@[(#[trigger] order@[i]) as int].created_at >= t,
                decreases order@.len() - pos,
            {
                pos = pos + 1;
            }
            let ghost before = order@;
            order.insert(pos, k);
            assert(order@ == before.insert(pos as int, k));
            assert forall|i: int, j: int| 0 <= i < j < order@.len() implies self.problems@[order@[i] as int].created_at
                >= self.problems@[order@[j] as int].created_at by {
                if j < pos {
                } else if j == pos {
                } else if i < pos {
                    assert(order@[j] == before[j - 1]);
                    if pos < before.len() {
                        assert(self.problems@[before[pos as int] as int].created_at < t);
                        if j - 1 > pos {
                            assert(self.problems@[before[pos as int] as int].created_at >= self.problems@[before[j - 1] as int].created_at);
                        }
                    }
                } else if i == pos {
                    assert(order@[j] == before[j - 1]);
                    assert(self.problems@[before[pos as int] as int].created_at < t);
                    if j - 1 > pos {
                        assert(self.problems@[before[pos as int] as int].created_at >= self.problems@[before[j - 1] as int].created_at);
                    }
                } else {
                    assert(order@[i] == before[i - 1]);
                    assert(order@[j] == before[j - 1]);
                }
            }
            k = k + 1;
        }
        order
    }

    /// Drops the problem with identifier `id`, and forgets it as the current
    /// one. Whether one was held.
    pub fn delete_problem(&mut self, id: u128) -> (r: bool)
        requires
            old(self).wf(),
        ensures
            final(self).wf(),
            r == old(self).holds(id),
            !final(self).holds(id),
            forall|other: u128| other != id ==> (#[trigger] final(self).holds(other) <==> old(self).holds(other)),
            final(self).current_problem == if old(self).current_problem == Some(id) {
                None
            } else {
                old(self).current_problem
            },
    {
        if self.current_problem == Some(id) {
            self.current_problem = None;
        }
        match self.find(id) {
            Some(i) => {
                let ghost before = self.problems@;
                self.problems.remove(i);
                assert(self.problems@ == before.remove(i as int));
                assert forall|other: u128| #[trigger] self.holds(other) <==> (old(self).holds(other) && other != id) by {
                    if old(self).holds(other) && other != id {
                        let k = choose|k: int| 0 <= k < before.len() && (#[trigger] before[k]).id == other;
                        if k < i {
                            assert(self.problems@[k].id == other);
                        } else {
                            assert(self.problems@[k - 1].id == other);
                        }
                    }
                    if self.holds(other) {
                        let k = choose|k: int| 0 <= k < self.problems@.len() && (#[trigger] self.problems@[k]).id == other;
                        if k < i {
                            assert(before[k].id == other);
                        } else {
                            assert(before[k + 1].id == other);
                        }
                    }
                }
                true
            },
            None => false,
        }
    }

    /// How many problems are held.
    pub fn count(&self) -> (r: usize)
        ensures
            r == self.problems@.len(),
    {
        self.problems.len()
    }

    /// The identifiers of all problems held, in the order they are kept.
    pub fn ids(&self) -> (r: Vec<u128>)
        ensures
            r@.len() == self.problems@.len(),
            forall|i: int| 0 <= i < r@.len() ==> r@[i] == (#[trigger] self.problems@[i]).id,
    {
        let mut r: Vec<u128> = Vec::new();
        let mut i: usize = 0;
        while i < self.problems.len()
            invariant
                i <= self.problems@.len(),
                r@.len() == i,
                forall|j: int| 0 <= j < i ==> r@[j] == (#[trigger] self.problems@[j]).id,
            decreases self.problems@.len() - i,
        {
            r.push(self.problems[i].id);
            i = i + 1;
        }
        r
    }
}

} // verus!

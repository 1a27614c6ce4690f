use vstd::prelude::*;
use crate::committee::Committee;

verus! {

/// Whether validator `i` is a better pick than validator `j`: fewer recent
/// failures first, then more stake, then the lower index.
pub open spec fn prefers(stakes: Seq<u64>, failures: Seq<u64>, i: int, j: int) -> bool {
    ||| failures[i] < failures[j]
    ||| failures[i] == failures[j] && stakes[i] > stakes[j]
    ||| failures[i] == failures[j] && stakes[i] == stakes[j] && i < j
}

/// The failure counts after one more failure of `v`; a count stops at
/// `u64::MAX`.
pub open spec fn after_failure(failures: Seq<u64>, v: int) -> Seq<u64> {
    failures.update(v, if failures[v] == u64::MAX { u64::MAX } else { (failures[v] + 1) as u64 })
}

/// Chooses which validator to contact next, from recent failure counts.
pub struct RetrySelector {
    pub failures: Vec<u64>,
}

impl RetrySelector {
    pub open spec fn fits(&self, committee: &Committee) -> bool {
        self.failures@.len() == committee.stakes@.len()
    }

    /// A selector with no failures recorded, for `n` validators.
    pub fn new(n: usize) -> (r: RetrySelector)
        ensures
            r.failures@ == Seq::new(n as nat, |_i: int| 0u64),
    {
        let mut failures: Vec<u64> = Vec::new();
        let mut i: usize = 0;
        while i < n
            invariant
                i <= n,
                failures@ == Seq::new(i as nat, |_i: int| 0u64),
            decreases n - i,
        {
            failures.push(0);
            i = i + 1;
        }
        RetrySelector { failures }
    }

    /// The best validator outside `excluded`, or `None` when every validator
    /// is excluded.
    pub fn next(&self, committee: &Committee, excluded: &Vec<bool>) -> (r: Option<usize>)
        requires
            self.fits(committee),
            excluded@.len() == committee.stakes@.len(),
        ensures
            r is None <==> forall|i: int| 0 <= i < excluded@.len() ==> excluded@[i],
            r matches Some(v) ==> {
                &&& v < excluded@.len()
                &&& !excluded@[v as int]
                &&& forall|j: int|
                    0 <= j < excluded@.len() && !excluded@[j] && j != v ==> prefers(
                        committee.stakes@,
                        self.failures@,
                        v as int,
                        j,
                    )
            },
    {
        let n = excluded.len();
        let mut best: Option<usize> = None;
        let mut i: usize = 0;
        while i < n
            invariant
                n == excluded@.len(),
                n == committee.stakes@.len(),
                n == self.failures@.len(),
                i <= n,
                best is None <==> forall|k: int| 0 <= k < i ==> excluded@[k],
                best matches Some(b) ==> {
                    &&& b < i
                    &&& !excluded@[b as int]
                    &&& forall|j: int|
                        0 <= j < i && !excluded@[j] && j != b ==> prefers(
                            committee.stakes@,
                            self.failures@,
                            b as int,
                            j,
                        )
                },
            decreases n - i,
        {
            if !excluded[i] {
                match best {
                    None => {
                        best = Some(i);
                    },
                    Some(b) => {
                        let fi = self.failures[i];
                        let fb = self.failures[b];
                        let si = committee.stakes[i];
                        let sb = committee.stakes[b];
                        if fi < fb || (fi == fb && si > sb) {
                            best = Some(i);
                        }
                    },
                }
            }
            i = i + 1;
        }
        best
    }

    /// Notes one more failure of `v`; the count stops at `u64::MAX`.
    pub fn record_failure(&mut self, v: usize)
        requires
            v < old(self).failures@.len(),
        ensures
            final(self).failures@ == after_failure(old(self).failures@, v as int),
    {
        let f = self.failures[v];
        let g = if f == u64::MAX { f } else { f + 1 };
        self.failures.set(v, g);
    }

    /// Clears the failure count of `v` after it answered.
    pub fn record_success(&mut self, v: usize)
        requires
            v < old(self).failures@.len(),
        ensures
            final(self).failures@ == old(self).failures@.update(v as int, 0),
    {
        self.failures.set(v, 0);
    }
}

} // verus!

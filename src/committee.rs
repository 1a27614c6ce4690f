use vstd::prelude::*;

verus! {

/// Sum of the stakes of the validators marked in `members`.
pub open spec fn stake_sum(stakes: Seq<u64>, members: Seq<bool>) -> int
    decreases stakes.len(),
{
    if stakes.len() == 0 {
        0
    } else {
        let i = stakes.len() - 1;
        stake_sum(stakes.drop_last(), members) + if i < members.len() && members[i] {
            stakes[i] as int
        } else {
            0
        }
    }
}

/// Sum of all stakes.
pub open spec fn total_stake(stakes: Seq<u64>) -> int
    decreases stakes.len(),
{
    if stakes.len() == 0 {
        0
    } else {
        total_stake(stakes.drop_last()) + stakes.last() as int
    }
}

pub proof fn lemma_stake_sum_bounds(stakes: Seq<u64>, members: Seq<bool>)
    ensures
        0 <= stake_sum(stakes, members) <= total_stake(stakes),
    decreases stakes.len(),
{
    if stakes.len() > 0 {
        lemma_stake_sum_bounds(stakes.drop_last(), members);
    }
}

/// Marking one more validator adds exactly its stake.
pub proof fn lemma_stake_sum_mark(stakes: Seq<u64>, members: Seq<bool>, v: int)
    requires
        0 <= v < stakes.len(),
        v < members.len(),
        !members[v],
    ensures
        stake_sum(stakes, members.update(v, true)) == stake_sum(stakes, members) + stakes[v],
    decreases stakes.len(),
{
    let i = stakes.len() - 1;
    if v < i {
        lemma_stake_sum_mark(stakes.drop_last(), members, v);
    } else {
        lemma_stake_sum_same(stakes.drop_last(), members, members.update(v, true));
    }
}

/// The sum only reads the marks of existing validators.
pub proof fn lemma_stake_sum_same(stakes: Seq<u64>, a: Seq<bool>, b: Seq<bool>)
    requires
        forall|i: int| 0 <= i < stakes.len() ==> (i < a.len() && a[i]) == (i < b.len() && b[i]),
    ensures
        stake_sum(stakes, a) == stake_sum(stakes, b),
    decreases stakes.len(),
{
    if stakes.len() > 0 {
        lemma_stake_sum_same(stakes.drop_last(), a, b);
    }
}

/// The validator set: one stake weight per validator, addressed by index, and
/// the stake that attestations must exceed for a certificate to be final.
pub struct Committee {
    pub stakes: Vec<u64>,
    pub quorum_threshold: u64,
}

impl Committee {
    /// The total stake fits in a `u64`, so that any partial sum does too.
    pub open spec fn wf(&self) -> bool {
        total_stake(self.stakes@) <= u64::MAX
    }

    pub open spec fn size(&self) -> nat {
        self.stakes@.len()
    }

    /// Builds a committee, or `None` when the stakes add up past `u64::MAX`.
    pub fn new(stakes: Vec<u64>, quorum_threshold: u64) -> (r: Option<Committee>)
        ensures
            r is Some <==> total_stake(stakes@) <= u64::MAX,
            r matches Some(c) ==> c.stakes@ == stakes@ && c.quorum_threshold == quorum_threshold
                && c.wf(),
    {
        let mut sum: u64 = 0;
        let mut i: usize = 0;
        while i < stakes.len()
            invariant
                i <= stakes@.len(),
                sum as int == total_stake(stakes@.subrange(0, i as int)),
            decreases stakes.len() - i,
        {
            proof {
                let s = stakes@.subrange(0, i as int + 1);
                assert(s.drop_last() =~= stakes@.subrange(0, i as int));
                lemma_total_prefix(stakes@, i as int + 1);
            }
            if sum > u64::MAX - stakes[i] {
                proof {
                    lemma_total_prefix(stakes@, i as int + 1);
                    lemma_total_prefix_le(stakes@, i as int + 1);
                }
                return None;
            }
            sum = sum + stakes[i];
            i = i + 1;
        }
        assert(stakes@.subrange(0, i as int) =~= stakes@);
        Some(Committee { stakes, quorum_threshold })
    }

    /// Stake of validator `v`.
    pub fn stake(&self, v: usize) -> (r: u64)
        requires
            v < self.size(),
        ensures
            r == self.stakes@[v as int],
    {
        self.stakes[v]
    }
}

proof fn lemma_total_prefix(s: Seq<u64>, n: int)
    requires
        0 < n <= s.len(),
    ensures
        total_stake(s.subrange(0, n)) == total_stake(s.subrange(0, n - 1)) + s[n - 1],
{
    assert(s.subrange(0, n).drop_last() =~= s.subrange(0, n - 1));
}

proof fn lemma_total_prefix_le(s: Seq<u64>, n: int)
    requires
        0 <= n <= s.len(),
    ensures
        total_stake(s.subrange(0, n)) <= total_stake(s),
    decreases s.len(),
{
    if n < s.len() {
        assert(s.drop_last().subrange(0, n) =~= s.subrange(0, n));
        lemma_total_prefix_le(s.drop_last(), n);
    } else {
        assert(s.subrange(0, n) =~= s);
    }
}

} // verus!

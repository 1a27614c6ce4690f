use vstd::prelude::*;
use crate::committee::{Committee, stake_sum, lemma_stake_sum_bounds, lemma_stake_sum_mark};

verus! {

/// Whether two digests hold the same bytes.
pub fn same_digest(a: &Vec<u8>, b: &Vec<u8>) -> (r: bool)
    ensures
        r == (a@ == b@),
{
    if a.len() != b.len() {
        return false;
    }
    let mut i: usize = 0;
    while i < a.len()
        invariant
            a@.len() == b@.len(),
            i <= a@.len(),
            forall|k: int| 0 <= k < i ==> a@[k] == b@[k],
        decreases a.len() - i,
    {
        if a[i] != b[i] {
            return false;
        }
        i = i + 1;
    }
    assert(a@ =~= b@);
    true
}

/// A copy of a digest.
pub fn copy_digest(a: &Vec<u8>) -> (r: Vec<u8>)
    ensures
        r@ == a@,
{
    let mut r: Vec<u8> = Vec::new();
    let mut i: usize = 0;
    while i < a.len()
        invariant
            i <= a@.len(),
            r@ == a@.subrange(0, i as int),
        decreases a.len() - i,
    {
        r.push(a[i]);
        i = i + 1;
    }
    assert(r@ =~= a@);
    r
}

/// Proof that validators holding more than the quorum threshold of stake
/// attested one and the same effects digest.
pub struct FinalityCertificate {
    pub effects_digest: Vec<u8>,
    pub signers: Vec<bool>,
    pub stake: u64,
}

impl FinalityCertificate {
    /// The certificate's stake is the stake of its signers, and exceeds the
    /// committee's quorum threshold.
    pub open spec fn valid(&self, committee: &Committee) -> bool {
        &&& self.signers@.len() == committee.stakes@.len()
        &&& self.stake == stake_sum(committee.stakes@, self.signers@)
        &&& self.stake > committee.quorum_threshold
    }
}

/// What one attestation did to a collection in progress.
pub enum AttestationOutcome {
    /// Counted or already counted; quorum not reached yet.
    Pending,
    /// Counted, and the signers now exceed the quorum threshold.
    Certified(FinalityCertificate),
    /// The validator attested another effects digest.
    Conflict,
}

/// Gathers attestations over one effects digest, validator by validator.
pub struct QuorumCollector {
    pub effects_digest: Vec<u8>,
    pub attested: Vec<bool>,
    pub stake: u64,
}

impl QuorumCollector {
    pub open spec fn wf(&self, committee: &Committee) -> bool {
        &&& committee.wf()
        &&& self.attested@.len() == committee.stakes@.len()
        &&& self.stake == stake_sum(committee.stakes@, self.attested@)
    }

    /// An empty collection over `effects_digest`.
    pub fn new(committee: &Committee, effects_digest: Vec<u8>) -> (r: QuorumCollector)
        requires
            committee.wf(),
        ensures
            r.wf(committee),
            r.effects_digest@ == effects_digest@,
            r.attested@ == Seq::new(committee.stakes@.len(), |_i: int| false),
            r.stake == 0,
    {
        let n = committee.stakes.len();
        let mut attested: Vec<bool> = Vec::new();
        let mut i: usize = 0;
        while i < n
            invariant
                i <= n,
                n == committee.stakes@.len(),
                attested@ == Seq::new(i as nat, |_i: int| false),
            decreases n - i,
        {
            attested.push(false);
            i = i + 1;
        }
        proof {
            lemma_stake_sum_none(committee.stakes@, attested@);
        }
        QuorumCollector { effects_digest, attested, stake: 0 }
    }

    /// Counts validator `v`'s attestation of `digest`. A digest other than
    /// the collected one is a conflict and leaves the collection unchanged; a
    /// repeated attestation is counted once.
    pub fn add(&mut self, committee: &Committee, v: usize, digest: &Vec<u8>) -> (r:
        AttestationOutcome)
        requires
            old(self).wf(committee),
            v < committee.stakes@.len(),
        ensures
            final(self).wf(committee),
            final(self).effects_digest@ == old(self).effects_digest@,
            digest@ != old(self).effects_digest@ ==> r is Conflict && *final(self) == *old(self),
            digest@ == old(self).effects_digest@ ==> {
                &&& final(self).attested@ == old(self).attested@.update(v as int, true)
                &&& (r is Certified <==> final(self).stake > committee.quorum_threshold)
                &&& r !is Conflict
            },
            r matches AttestationOutcome::Certified(c) ==> c.valid(committee)
                && c.effects_digest@ == old(self).effects_digest@
                && c.signers@ == final(self).attested@
                && c.stake == final(self).stake,
    {
        if !same_digest(digest, &self.effects_digest) {
            return AttestationOutcome::Conflict;
        }
        if !self.attested[v] {
            proof {
                lemma_stake_sum_mark(committee.stakes@, self.attested@, v as int);
                lemma_stake_sum_bounds(committee.stakes@, self.attested@.update(v as int, true));
            }
            self.stake = self.stake + committee.stakes[v];
            self.attested.set(v, true);
        } else {
            assert(self.attested@.update(v as int, true) =~= self.attested@);
        }
        if self.stake > committee.quorum_threshold {
            let signers = copy_flags(&self.attested);
            AttestationOutcome::Certified(
                FinalityCertificate {
                    effects_digest: copy_digest(&self.effects_digest),
                    signers,
                    stake: self.stake,
                },
            )
        } else {
            AttestationOutcome::Pending
        }
    }
}

fn copy_flags(a: &Vec<bool>) -> (r: Vec<bool>)
    ensures
        r@ == a@,
{
    let mut r: Vec<bool> = Vec::new();
    let mut i: usize = 0;
    while i < a.len()
        invariant
            i <= a@.len(),
            r@ == a@.subrange(0, i as int),
        decreases a.len() - i,
    {
        r.push(a[i]);
        i = i + 1;
    }
    assert(r@ =~= a@);
    r
}

proof fn lemma_stake_sum_none(stakes: Seq<u64>, members: Seq<bool>)
    requires
        forall|i: int| 0 <= i < members.len() ==> !members[i],
    ensures
        stake_sum(stakes, members) == 0,
    decreases stakes.len(),
{
    if stakes.len() > 0 {
        lemma_stake_sum_none(stakes.drop_last(), members);
    }
}

} // verus!

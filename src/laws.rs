use vstd::prelude::*;
use crate::committee::{Committee, stake_sum};
use crate::driver::{DriveAttempt, same_effects, timeout_kind};
use crate::policy::Phase;

verus! {

/// Each phase times out with a kind of its own: a timeout of one phase is
/// never reported as another phase's timeout.
pub proof fn lemma_timeout_kind_is_phase_specific(p: Phase, q: Phase)
    ensures
        timeout_kind(p) == timeout_kind(q) ==> p == q,
{
}

/// A drive that succeeded returns the effects it fetched and a certificate
/// built from its collection: the certificate is over the collected effects
/// digest, its signers are exactly the validators whose attestations of that
/// digest were counted, and together they hold more stake than the quorum
/// threshold.
pub proof fn lemma_success_is_certified(attempt: DriveAttempt, committee: Committee)
    requires
        attempt.wf(&committee),
        attempt.outcome matches Some(Ok(_)),
    ensures
        attempt.outcome matches Some(Ok(f)) && {
            &&& f.certificate.signers@ == attempt.collector.attested@
            &&& f.certificate.stake == stake_sum(committee.stakes@, attempt.collector.attested@)
            &&& f.certificate.stake > committee.quorum_threshold
            &&& f.certificate.effects_digest@ == attempt.collector.effects_digest@
            &&& f.certificate.effects_digest@ == f.effects.effects_digest@
            &&& (attempt.effects matches Some(e) && same_effects(f.effects, e))
        },
{
}

/// Two drives of one transaction that both succeed, whichever validators
/// they retried against, each return the effects they fetched, keyed by that
/// transaction's digest.
pub proof fn lemma_success_keyed_by_digest(a: DriveAttempt, b: DriveAttempt, committee: Committee)
    requires
        a.wf(&committee),
        b.wf(&committee),
        a.transaction_digest@ == b.transaction_digest@,
        a.outcome matches Some(Ok(_)),
        b.outcome matches Some(Ok(_)),
    ensures
        a.outcome matches Some(Ok(fa)) && b.outcome matches Some(Ok(fb)) && {
            &&& fa.effects.transaction_digest@ == fb.effects.transaction_digest@
            &&& fa.effects.transaction_digest@ == a.transaction_digest@
            &&& (a.effects matches Some(ea) && same_effects(fa.effects, ea))
            &&& (b.effects matches Some(eb) && same_effects(fb.effects, eb))
        },
{
}

} // verus!

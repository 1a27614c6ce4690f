use vstd::prelude::*;
use crate::committee::Committee;
use crate::error::{ErrorKind, TransactionDriverError};
use crate::finality::{AttestationOutcome, FinalityCertificate, QuorumCollector, copy_digest, same_digest};
use crate::policy::{Phase, PhaseTimeoutPolicy};
use crate::selector::{RetrySelector, after_failure};
use crate::text::{decimal, decimal_text};

verus! {

/// The ordering token that consensus assigned to a transaction.
#[derive(Clone, Copy, Debug, PartialEq, Eq, Structural)]
pub struct ConsensusPosition {
    pub round: u64,
    pub index: u64,
}

/// The result of executing a transaction, keyed by the transaction's digest.
pub struct ExecutionEffects {
    pub transaction_digest: Vec<u8>,
    pub effects_digest: Vec<u8>,
    pub success: bool,
}

/// A finished drive: the effects and the certificate that makes them final.
pub struct Finalized {
    pub effects: ExecutionEffects,
    pub certificate: FinalityCertificate,
}

/// One validator's answer to a request of some phase.
pub enum Reply {
    SubmitAccepted,
    SubmitRejected(String),
    PositionAssigned(ConsensusPosition),
    /// Not sequenced yet; carries the consensus round the validator is at.
    PositionUnknown(u64),
    PositionRejected(String),
    EffectsFound(ExecutionEffects),
    EffectsNotFound,
    Attested(Vec<u8>),
    NoAttestation,
    TransportFailure(String),
}

/// What happened since the last step.
pub enum Event {
    /// A validator, by index, answered.
    Reply(usize, Reply),
    /// Time passed.
    Tick,
    /// Encoding (`true`) or decoding (`false`) a message failed locally.
    CodecFault(bool, String),
}

/// What the caller is to do next.
#[derive(Clone, Copy, Debug, PartialEq, Eq, Structural)]
pub enum Action {
    /// Send the request of the given phase to the validator.
    Contact(usize, Phase),
    /// Wait for a reply or for time to pass.
    Wait,
    /// The drive is over; its outcome is stored.
    Finish,
}

/// The error that ends `phase` when its budget runs out.
pub open spec fn timeout_kind(phase: Phase) -> ErrorKind {
    match phase {
        Phase::Submitting => ErrorKind::TimeoutSubmittingTransaction,
        Phase::AwaitingConsensusPosition => ErrorKind::TimeoutWaitingForEffects,
        Phase::AwaitingEffects => ErrorKind::ExecutionDataNotFound,
        Phase::AwaitingFinality => ErrorKind::TimeoutBeforeFinality,
    }
}

/// One failure as the report shows it: the validator's index and what it said.
pub open spec fn failure_entry(f: (usize, String)) -> Seq<char> {
    "validator "@ + decimal(f.0 as nat) + ": "@ + f.1@
}

/// The failures of a phase, in the order seen, separated by semicolons.
pub open spec fn failure_report(fs: Seq<(usize, String)>) -> Seq<char>
    decreases fs.len(),
{
    if fs.len() == 0 {
        Seq::empty()
    } else if fs.len() == 1 {
        failure_entry(fs[0])
    } else {
        failure_report(fs.drop_last()) + "; "@ + failure_entry(fs.last())
    }
}

/// Writes out `failure_report` of `fs`.
pub fn report_failures(fs: &Vec<(usize, String)>) -> (r: String)
    ensures
        r@ == failure_report(fs@),
{
    let mut out = String::new();
    let mut i: usize = 0;
    while i < fs.len()
        invariant
            i <= fs@.len(),
            out@ == failure_report(fs@.subrange(0, i as int)),
        decreases fs.len() - i,
    {
        proof {
            assert(fs@.subrange(0, i as int + 1).drop_last() =~= fs@.subrange(0, i as int));
        }
        if i > 0 {
            out.append("; ");
        }
        out.append("validator ");
        let name = decimal_text(fs[i].0 as u64);
        out.append(name.as_str());
        out.append(": ");
        out.append(fs[i].1.as_str());
        proof {
            let s = fs@.subrange(0, i as int + 1);
            assert(s.last() == fs@[i as int]);
            if i == 0 {
                assert(failure_report(fs@.subrange(0, 0)) == Seq::<char>::empty());
                assert(out@ =~= failure_entry(fs@[0]));
            } else {
                assert(out@ =~= failure_report(s.drop_last()) + "; "@ + failure_entry(s.last()));
            }
        }
        i = i + 1;
    }
    assert(fs@.subrange(0, i as int) =~= fs@);
    out
}

/// Two effects values with the same digests and status.
pub open spec fn same_effects(a: ExecutionEffects, b: ExecutionEffects) -> bool {
    &&& a.transaction_digest@ == b.transaction_digest@
    &&& a.effects_digest@ == b.effects_digest@
    &&& a.success == b.success
}

/// The state of one drive of one transaction.
pub struct DriveAttempt {
    pub transaction_digest: Vec<u8>,
    /// The last consensus round in which the transaction may be sequenced.
    pub expiry_round: u64,
    pub phase: Phase,
    pub phase_started_ms: u64,
    /// Validators contacted in the current phase.
    pub tried: Vec<bool>,
    /// Failures reported in the current phase, oldest first.
    pub failures: Vec<(usize, String)>,
    pub position: Option<ConsensusPosition>,
    pub effects: Option<ExecutionEffects>,
    pub collector: QuorumCollector,
    pub outcome: Option<Result<Finalized, TransactionDriverError>>,
}

impl DriveAttempt {
    pub open spec fn finished(&self) -> bool {
        self.outcome is Some
    }

    /// Consistency of the attempt with the committee it runs against.
    pub open spec fn wf(&self, committee: &Committee) -> bool {
        &&& committee.wf()
        &&& self.tried@.len() == committee.stakes@.len()
        &&& self.collector.wf(committee)
        &&& (self.phase is AwaitingEffects || self.phase is AwaitingFinality) ==> self.position is Some
        &&& self.phase is AwaitingFinality ==> (self.effects matches Some(e)
            && self.collector.effects_digest@ == e.effects_digest@)
        &&& self.effects matches Some(e) ==> e.transaction_digest@ == self.transaction_digest@
        &&& self.outcome matches Some(Ok(f)) ==> {
            &&& self.phase is AwaitingFinality
            &&& f.certificate.valid(committee)
            &&& f.certificate.signers@ == self.collector.attested@
            &&& f.certificate.stake == self.collector.stake
            &&& f.certificate.effects_digest@ == self.collector.effects_digest@
            &&& (self.effects matches Some(e) && same_effects(f.effects, e))
            &&& f.certificate.effects_digest@ == f.effects.effects_digest@
            &&& f.effects.transaction_digest@ == self.transaction_digest@
        }
    }

    /// Whether the current phase has used up its budget at `now_ms`.
    pub open spec fn overdue(&self, policy: &PhaseTimeoutPolicy, now_ms: u64) -> bool {
        policy.expired_at(self.phase, self.phase_started_ms, now_ms)
    }

    /// Whether `event` is a definitive verdict on the transaction in the
    /// current phase: a rejection, or a consensus round past the expiry round.
    /// A verdict decides the drive even when it comes after the deadline.
    pub open spec fn is_verdict(&self, event: Event, n: nat) -> bool {
        match event {
            Event::Reply(v, Reply::SubmitRejected(_)) => v < n && self.phase is Submitting,
            Event::Reply(v, Reply::PositionRejected(_)) => v < n
                && self.phase is AwaitingConsensusPosition,
            Event::Reply(v, Reply::PositionUnknown(round)) => v < n
                && self.phase is AwaitingConsensusPosition && round > self.expiry_round,
            _ => false,
        }
    }

    /// A fresh attempt, submitting from `now_ms`.
    pub fn new(committee: &Committee, transaction_digest: Vec<u8>, expiry_round: u64, now_ms: u64) -> (r:
        DriveAttempt)
        requires
            committee.wf(),
        ensures
            r.wf(committee),
            !r.finished(),
            r.phase == Phase::Submitting,
            r.phase_started_ms == now_ms,
            r.transaction_digest@ == transaction_digest@,
            r.expiry_round == expiry_round,
            r.position is None,
            r.effects is None,
            r.failures@.len() == 0,
            r.collector.stake == 0,
            r.collector.attested@ == Seq::new(committee.stakes@.len(), |_i: int| false),
            forall|i: int| 0 <= i < r.tried@.len() ==> !r.tried@[i],
    {
        let tried = no_validators(committee.stakes.len());
        let collector = QuorumCollector::new(committee, Vec::new());
        DriveAttempt {
            transaction_digest,
            expiry_round,
            phase: Phase::Submitting,
            phase_started_ms: now_ms,
            tried,
            failures: Vec::new(),
            position: None,
            effects: None,
            collector,
            outcome: None,
        }
    }

    /// An attempt that skips to waiting for finality of effects already known,
    /// for re-polling after a finality timeout.
    pub fn resume_finality(
        committee: &Committee,
        effects: ExecutionEffects,
        position: ConsensusPosition,
        expiry_round: u64,
        now_ms: u64,
    ) -> (r: DriveAttempt)
        requires
            committee.wf(),
        ensures
            r.wf(committee),
            !r.finished(),
            r.phase == Phase::AwaitingFinality,
            r.phase_started_ms == now_ms,
            r.transaction_digest@ == effects.transaction_digest@,
            r.collector.effects_digest@ == effects.effects_digest@,
            r.collector.stake == 0,
            r.collector.attested@ == Seq::new(committee.stakes@.len(), |_i: int| false),
            r.effects == Some(effects),
            r.position == Some(position),
            r.expiry_round == expiry_round,
            r.failures@.len() == 0,
    {
        let transaction_digest = copy_digest(&effects.transaction_digest);
        let collector = QuorumCollector::new(committee, copy_digest(&effects.effects_digest));
        DriveAttempt {
            transaction_digest,
            expiry_round,
            phase: Phase::AwaitingFinality,
            phase_started_ms: now_ms,
            tried: no_validators(committee.stakes.len()),
            failures: Vec::new(),
            position: Some(position),
            effects: Some(effects),
            collector,
            outcome: None,
        }
    }

    /// Picks the next validator to contact in the current phase. Once every
    /// validator was contacted, starts a new round of contacts and waits.
    fn next_contact(&mut self, committee: &Committee, selector: &RetrySelector) -> (r: Action)
        requires
            old(self).wf(committee),
            selector.fits(committee),
            !old(self).finished(),
        ensures
            final(self).wf(committee),
            (DriveAttempt { tried: final(self).tried, ..*old(self) }) == *final(self),
            r matches Action::Contact(v, p) ==> v < committee.stakes@.len() && p == old(self).phase,
            r !is Finish,
    {
        match selector.next(committee, &self.tried) {
            Some(v) => {
                self.tried.set(v, true);
                Action::Contact(v, self.phase)
            },
            None => {
                self.tried = no_validators(committee.stakes.len());
                Action::Wait
            },
        }
    }

    /// Moves to `phase`, entered at `now_ms`, with no validator contacted yet.
    fn enter(&mut self, committee: &Committee, phase: Phase, now_ms: u64)
        requires
            committee.wf(),
            old(self).tried@.len() == committee.stakes@.len(),
        ensures
            final(self).tried@.len() == committee.stakes@.len(),
            final(self).failures@.len() == 0,
            (DriveAttempt {
                tried: final(self).tried,
                failures: final(self).failures,
                phase,
                phase_started_ms: now_ms,
                ..*old(self)
            }) == *final(self),
    {
        self.phase = phase;
        self.phase_started_ms = now_ms;
        self.tried = no_validators(committee.stakes.len());
        self.failures = Vec::new();
    }

    /// Ends the drive with `e`.
    fn fail(&mut self, e: TransactionDriverError) -> (r: Action)
        ensures
            (DriveAttempt { outcome: Some(Err(e)), ..*old(self) }) == *final(self),
            r == Action::Finish,
    {
        self.outcome = Some(Err(e));
        Action::Finish
    }

    /// The error that ends the current phase when its budget runs out; the
    /// effects phase reports every failure it saw.
    fn timeout_error(&self) -> (e: TransactionDriverError)
        ensures
            e.kind_of() == timeout_kind(self.phase),
            self.phase is AwaitingEffects ==> (e matches TransactionDriverError::ExecutionDataNotFound(
                s,
            ) && s@ == failure_report(self.failures@)),
    {
        match self.phase {
            Phase::Submitting => TransactionDriverError::TimeoutSubmittingTransaction,
            Phase::AwaitingConsensusPosition => TransactionDriverError::TimeoutWaitingForEffects,
            Phase::AwaitingEffects => {
                TransactionDriverError::ExecutionDataNotFound(report_failures(&self.failures))
            },
            Phase::AwaitingFinality => TransactionDriverError::TimeoutBeforeFinality,
        }
    }

    /// Advances the drive by one event observed at `now_ms`, and says what to
    /// do next. A finished drive stays as it is and contacts no one. Once the
    /// current phase is past its deadline, every event but a codec fault or a
    /// definitive verdict ends the drive with that phase's timeout.
    #[verifier::rlimit(80)]
    pub fn step(
        &mut self,
        committee: &Committee,
        policy: &PhaseTimeoutPolicy,
        selector: &mut RetrySelector,
        now_ms: u64,
        event: Event,
    ) -> (r: Action)
        requires
            old(self).wf(committee),
            old(selector).fits(committee),
        ensures
            final(self).wf(committee),
            final(selector).fits(committee),
            final(self).transaction_digest@ == old(self).transaction_digest@,
            final(self).expiry_round == old(self).expiry_round,
            (r is Finish) == final(self).finished(),
            r matches Action::Contact(v, p) ==> v < committee.stakes@.len() && p == final(self).phase,
            final(self).phase != old(self).phase ==> !final(self).finished(),
            final(self).phase == old(self).phase ==> final(self).phase_started_ms == old(
            self).phase_started_ms,
            old(self).finished() ==> *final(self) == *old(self) && *final(selector) == *old(selector)
                && r is Finish,
            event matches Event::CodecFault(encoding, d) ==> (!old(self).finished()
                ==> final(self).outcome == Some(
                Err::<Finalized, TransactionDriverError>(
                    if encoding {
                        TransactionDriverError::SerializationError(d)
                    } else {
                        TransactionDriverError::DeserializationError(d)
                    },
                ),
            )),
            // deadlines
            !old(self).finished() && !(event is CodecFault) && !old(self).is_verdict(
                event,
                committee.stakes@.len(),
            ) && old(self).overdue(policy, now_ms) ==> (final(self).outcome matches Some(Err(e))
                && e.kind_of() == timeout_kind(old(self).phase)) && *final(selector)
                == *old(selector),
            !old(self).finished() && old(self).phase is AwaitingEffects && !(event is CodecFault)
                && !old(self).is_verdict(event, committee.stakes@.len()) && old(self).overdue(
                policy,
                now_ms,
            ) ==> (final(self).outcome matches Some(
                Err(TransactionDriverError::ExecutionDataNotFound(s)),
            ) && s@ == failure_report(old(self).failures@)),
            // definitive verdicts, on time or late
            event matches Event::Reply(v, Reply::SubmitRejected(reason)) ==> (!old(self).finished()
                && old(self).phase is Submitting && v < committee.stakes@.len() ==> final(self).outcome
                == Some(
                Err::<Finalized, TransactionDriverError>(
                    TransactionDriverError::TransactionRejected(reason),
                ),
            )),
            event matches Event::Reply(v, Reply::PositionRejected(reason)) ==> (!old(self).finished()
                && old(self).phase is AwaitingConsensusPosition && v < committee.stakes@.len()
                ==> final(self).outcome == Some(
                Err::<Finalized, TransactionDriverError>(
                    TransactionDriverError::TransactionRejected(reason),
                ),
            )),
            event matches Event::Reply(v, Reply::PositionUnknown(round)) ==> (!old(self).finished()
                && old(self).phase is AwaitingConsensusPosition && v < committee.stakes@.len() && round
                > old(self).expiry_round ==> (final(self).outcome matches Some(
                Err(TransactionDriverError::TransactionExpired(s)),
            ) && s@ == decimal(old(self).expiry_round as nat))),
            // events within the deadline
            event is Tick ==> (!old(self).finished() && !old(self).overdue(policy, now_ms)
                ==> !final(self).finished() && final(self).phase == old(self).phase && *final(
                selector) == *old(selector)),
            event matches Event::Reply(v, _) ==> (!old(self).finished() && !old(self).overdue(
                policy,
                now_ms,
            ) && v >= committee.stakes@.len() ==> *final(self) == *old(self) && r == Action::Wait
                && *final(selector) == *old(selector)),
            event matches Event::Reply(v, Reply::TransportFailure(d)) ==> (!old(self).finished()
                && !old(self).overdue(policy, now_ms) && v < committee.stakes@.len() ==> {
                &&& !final(self).finished()
                &&& final(self).phase == old(self).phase
                &&& final(self).failures@ == old(self).failures@.push((v, d))
                &&& final(selector).failures@ == after_failure(old(selector).failures@, v as int)
            }),
            event matches Event::Reply(v, Reply::PositionUnknown(round)) ==> (!old(self).finished()
                && !old(self).overdue(policy, now_ms) && old(self).phase is AwaitingConsensusPosition
                && v < committee.stakes@.len() && round <= old(self).expiry_round ==> *final(self)
                == *old(self) && r == Action::Wait && *final(selector) == *old(selector)),
            event matches Event::Reply(v, Reply::SubmitAccepted) ==> (!old(self).finished()
                && !old(self).overdue(policy, now_ms) && old(self).phase is Submitting && v
                < committee.stakes@.len() ==> {
                &&& !final(self).finished()
                &&& final(self).phase == Phase::AwaitingConsensusPosition
                &&& final(self).phase_started_ms == now_ms
                &&& final(self).failures@.len() == 0
                &&& final(selector).failures@ == old(selector).failures@.update(v as int, 0)
            }),
            event matches Event::Reply(v, Reply::PositionAssigned(p)) ==> (!old(self).finished()
                && !old(self).overdue(policy, now_ms) && old(self).phase is AwaitingConsensusPosition
                && v < committee.stakes@.len() ==> {
                &&& !final(self).finished()
                &&& final(self).phase == Phase::AwaitingEffects
                &&& final(self).position == Some(p)
                &&& final(self).phase_started_ms == now_ms
                &&& final(self).failures@.len() == 0
                &&& final(selector).failures@ == old(selector).failures@.update(v as int, 0)
            }),
            event matches Event::Reply(v, Reply::EffectsFound(e)) ==> (!old(self).finished()
                && !old(self).overdue(policy, now_ms) && old(self).phase is AwaitingEffects && v
                < committee.stakes@.len() ==> if e.transaction_digest@
                == old(self).transaction_digest@ {
                &&& !final(self).finished()
                &&& final(self).phase == Phase::AwaitingFinality
                &&& final(self).phase_started_ms == now_ms
                &&& final(self).effects == Some(e)
                &&& final(self).position == old(self).position
                &&& final(self).collector.effects_digest@ == e.effects_digest@
                &&& final(self).collector.stake == 0
                &&& final(self).failures@.len() == 0
                &&& final(selector).failures@ == old(selector).failures@.update(v as int, 0)
            } else {
                *final(self) == *old(self) && r == Action::Wait && *final(selector) == *old(
                selector)
            }),
            event matches Event::Reply(v, Reply::EffectsNotFound) ==> (!old(self).finished()
                && !old(self).overdue(policy, now_ms) && old(self).phase is AwaitingEffects && v
                < committee.stakes@.len() ==> {
                &&& !final(self).finished()
                &&& final(self).phase == old(self).phase
                &&& final(self).failures@.len() == old(self).failures@.len() + 1
                &&& final(self).failures@.drop_last() == old(self).failures@
                &&& final(self).failures@.last().0 == v
                &&& final(self).failures@.last().1@ == "effects not found"@
                &&& *final(selector) == *old(selector)
            }),
            event matches Event::Reply(v, Reply::Attested(d)) ==> (!old(self).finished()
                && !old(self).overdue(policy, now_ms) && old(self).phase is AwaitingFinality && v
                < committee.stakes@.len() ==> *final(selector) == *old(selector) && if d@ == old(
                self).collector.effects_digest@ {
                &&& final(self).collector.attested@ == old(self).collector.attested@.update(
                    v as int,
                    true,
                )
                &&& final(self).collector.effects_digest@ == old(self).collector.effects_digest@
                &&& final(self).effects == old(self).effects
                &&& final(self).phase == old(self).phase
                &&& final(self).finished() <==> final(self).collector.stake
                    > committee.quorum_threshold
                &&& final(self).finished() ==> (final(self).outcome matches Some(Ok(f)) && {
                    &&& f.certificate.signers@ == final(self).collector.attested@
                    &&& f.certificate.stake == final(self).collector.stake
                    &&& f.certificate.effects_digest@ == old(self).collector.effects_digest@
                    &&& (old(self).effects matches Some(e) && same_effects(f.effects, e))
                })
            } else {
                final(self).outcome matches Some(Err(e)) && e.kind_of() == ErrorKind::RpcFailure
            }),
            event matches Event::Reply(v, Reply::NoAttestation) ==> (!old(self).finished()
                && !old(self).overdue(policy, now_ms) && old(self).phase is AwaitingFinality && v
                < committee.stakes@.len() ==> !final(self).finished() && final(self).phase == old(
                self).phase && *final(selector) == *old(selector)),
    {
        if self.outcome.is_some() {
            return Action::Finish;
        }
        let n = committee.stakes.len();
        let verdict: bool = match &event {
            Event::Reply(v, Reply::SubmitRejected(_)) => *v < n && self.phase == Phase::Submitting,
            Event::Reply(v, Reply::PositionRejected(_)) => *v < n && self.phase
                == Phase::AwaitingConsensusPosition,
            Event::Reply(v, Reply::PositionUnknown(round)) => *v < n && self.phase
                == Phase::AwaitingConsensusPosition && *round > self.expiry_round,
            _ => false,
        };
        let fault = matches!(event, Event::CodecFault(_, _));
        if !verdict && !fault && policy.is_expired(self.phase, self.phase_started_ms, now_ms) {
            let e = self.timeout_error();
            return self.fail(e);
        }
        match event {
            Event::CodecFault(encoding, d) => {
                if encoding {
                    self.fail(TransactionDriverError::SerializationError(d))
                } else {
                    self.fail(TransactionDriverError::DeserializationError(d))
                }
            },
            Event::Tick => self.next_contact(committee, selector),
            Event::Reply(v, reply) => {
                if v >= n {
                    return Action::Wait;
                }
                match reply {
                    Reply::TransportFailure(detail) => {
                        selector.record_failure(v);
                        self.tried.set(v, true);
                        self.failures.push((v, detail));
                        self.next_contact(committee, selector)
                    },
                    Reply::SubmitAccepted => {
                        if self.phase == Phase::Submitting {
                            selector.record_success(v);
                            self.enter(committee, Phase::AwaitingConsensusPosition, now_ms);
                            self.next_contact(committee, selector)
                        } else {
                            Action::Wait
                        }
                    },
                    Reply::SubmitRejected(reason) => {
                        if self.phase == Phase::Submitting {
                            self.fail(TransactionDriverError::TransactionRejected(reason))
                        } else {
                            Action::Wait
                        }
                    },
                    Reply::PositionAssigned(p) => {
                        if self.phase == Phase::AwaitingConsensusPosition {
                            selector.record_success(v);
                            self.position = Some(p);
                            self.enter(committee, Phase::AwaitingEffects, now_ms);
                            self.next_contact(committee, selector)
                        } else {
                            Action::Wait
                        }
                    },
                    Reply::PositionUnknown(round) => {
                        if self.phase == Phase::AwaitingConsensusPosition && round > self.expiry_round {
                            let s = decimal_text(self.expiry_round);
                            self.fail(TransactionDriverError::TransactionExpired(s))
                        } else {
                            Action::Wait
                        }
                    },
                    Reply::PositionRejected(reason) => {
                        if self.phase == Phase::AwaitingConsensusPosition {
                            self.fail(TransactionDriverError::TransactionRejected(reason))
                        } else {
                            Action::Wait
                        }
                    },
                    Reply::EffectsFound(e) => {
                        if self.phase == Phase::AwaitingEffects && same_digest(
                            &e.transaction_digest,
                            &self.transaction_digest,
                        ) {
                            selector.record_success(v);
                            self.collector = QuorumCollector::new(
                                committee,
                                copy_digest(&e.effects_digest),
                            );
                            self.effects = Some(e);
                            self.enter(committee, Phase::AwaitingFinality, now_ms);
                            self.next_contact(committee, selector)
                        } else {
                            Action::Wait
                        }
                    },
                    Reply::EffectsNotFound => {
                        if self.phase == Phase::AwaitingEffects {
                            self.failures.push((v, String::from_str("effects not found")));
                            self.next_contact(committee, selector)
                        } else {
                            Action::Wait
                        }
                    },
                    Reply::Attested(d) => {
                        if self.phase == Phase::AwaitingFinality {
                            match self.collector.add(committee, v, &d) {
                                AttestationOutcome::Pending => self.next_contact(committee, selector),
                                AttestationOutcome::Certified(certificate) => {
                                    let effects = match &self.effects {
                                        Some(e) => copy_effects(e),
                                        None => {
                                            proof {
                                                assert(false);
                                            }
                                            return Action::Wait;
                                        },
                                    };
                                    self.outcome = Some(Ok(Finalized { effects, certificate }));
                                    Action::Finish
                                },
                                AttestationOutcome::Conflict => {
                                    let name = decimal_text(v as u64);
                                    self.fail(
                                        TransactionDriverError::RpcFailure(
                                            name,
                                            String::from_str("conflicting effects digest"),
                                        ),
                                    )
                                },
                            }
                        } else {
                            Action::Wait
                        }
                    },
                    Reply::NoAttestation => {
                        if self.phase == Phase::AwaitingFinality {
                            self.next_contact(committee, selector)
                        } else {
                            Action::Wait
                        }
                    },
                }
            },
        }
    }
}

fn copy_effects(e: &ExecutionEffects) -> (r: ExecutionEffects)
    ensures
        r.transaction_digest@ == e.transaction_digest@,
        r.effects_digest@ == e.effects_digest@,
        r.success == e.success,
{
    ExecutionEffects {
        transaction_digest: copy_digest(&e.transaction_digest),
        effects_digest: copy_digest(&e.effects_digest),
        success: e.success,
    }
}

fn no_validators(n: usize) -> (r: Vec<bool>)
    ensures
        r@ == Seq::new(n as nat, |_i: int| false),
{
    let mut r: Vec<bool> = Vec::new();
    let mut i: usize = 0;
    while i < n
        invariant
            i <= n,
            r@ == Seq::new(i as nat, |_i: int| false),
        decreases n - i,
    {
        r.push(false);
        i = i + 1;
    }
    r
}

} // verus!

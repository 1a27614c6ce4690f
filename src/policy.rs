use vstd::prelude::*;

verus! {

/// One sequential stage of a drive, each with its own time budget.
#[derive(Clone, Copy, Debug, PartialEq, Eq, Structural, Hash)]
pub enum Phase {
    Submitting,
    AwaitingConsensusPosition,
    AwaitingEffects,
    AwaitingFinality,
}

/// Maximum wait, in milliseconds, for each phase.
#[derive(Clone, Copy, Debug, PartialEq, Eq, Structural)]
pub struct PhaseTimeoutPolicy {
    pub submit_ms: u64,
    pub consensus_position_ms: u64,
    pub effects_ms: u64,
    pub finality_ms: u64,
}

impl PhaseTimeoutPolicy {
    pub open spec fn budget_of(&self, phase: Phase) -> u64 {
        match phase {
            Phase::Submitting => self.submit_ms,
            Phase::AwaitingConsensusPosition => self.consensus_position_ms,
            Phase::AwaitingEffects => self.effects_ms,
            Phase::AwaitingFinality => self.finality_ms,
        }
    }

    /// The time budget of `phase`.
    pub fn budget(&self, phase: Phase) -> (r: u64)
        ensures
            r == self.budget_of(phase),
    {
        match phase {
            Phase::Submitting => self.submit_ms,
            Phase::AwaitingConsensusPosition => self.consensus_position_ms,
            Phase::AwaitingEffects => self.effects_ms,
            Phase::AwaitingFinality => self.finality_ms,
        }
    }

    /// Whether `phase`, entered at `started_ms`, has used up its budget at `now_ms`.
    pub open spec fn expired_at(&self, phase: Phase, started_ms: u64, now_ms: u64) -> bool {
        now_ms >= started_ms && now_ms - started_ms >= self.budget_of(phase)
    }

    pub fn is_expired(&self, phase: Phase, started_ms: u64, now_ms: u64) -> (r: bool)
        ensures
            r == self.expired_at(phase, started_ms, now_ms),
    {
        now_ms >= started_ms && now_ms - started_ms >= self.budget(phase)
    }
}

} // verus!

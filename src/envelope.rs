use vstd::prelude::*;

verus! {

/// Phase of an attack/decay envelope.
#[derive(Debug, Clone, Copy, PartialEq, Eq, Structural)]
pub enum EnvState {
    /// At rest; the level still decays passively toward zero.
    Idle,
    /// Rising exponentially toward one.
    Attacking,
    /// Falling exponentially toward zero.
    Decaying,
}

/// Which recurrence updates the level in a given phase.
#[derive(Debug, Clone, Copy, PartialEq, Eq, Structural)]
pub enum LevelRule {
    /// `level = level * decay_coeff`
    DecayTowardZero,
    /// `level = 1 + (level - 1) * attack_coeff`
    RiseTowardOne,
}

/// What one envelope step decides once the new level is known.
#[derive(Debug, Clone, Copy, PartialEq, Eq, Structural)]
pub struct Settled {
    /// Phase after the step.
    pub state: EnvState,
    /// Whether the level is to be set to exactly zero.
    pub snap_to_zero: bool,
}

pub open spec fn rule_of(s: EnvState) -> LevelRule {
    match s {
        EnvState::Attacking => LevelRule::RiseTowardOne,
        _ => LevelRule::DecayTowardZero,
    }
}

/// Phase after a step whose new level is above the attack peak threshold
/// (`above_peak`) or below the release threshold (`below_floor`).
pub open spec fn settle_spec(s: EnvState, above_peak: bool, below_floor: bool) -> Settled {
    match s {
        EnvState::Attacking => if above_peak {
            Settled { state: EnvState::Decaying, snap_to_zero: false }
        } else {
            Settled { state: EnvState::Attacking, snap_to_zero: false }
        },
        EnvState::Decaying => if below_floor {
            Settled { state: EnvState::Idle, snap_to_zero: true }
        } else {
            Settled { state: EnvState::Decaying, snap_to_zero: false }
        },
        EnvState::Idle => Settled { state: EnvState::Idle, snap_to_zero: false },
    }
}

/// A phase change that one step of the envelope may make: staying put,
/// Attacking to Decaying, or Decaying to Idle.
pub open spec fn is_step_transition(from: EnvState, to: EnvState) -> bool {
    from == to || (from == EnvState::Attacking && to == EnvState::Decaying) || (from
        == EnvState::Decaying && to == EnvState::Idle)
}

impl EnvState {
    /// Phase of an envelope that was never fired.
    pub fn initial() -> (r: EnvState)
        ensures
            r == EnvState::Idle,
    {
        EnvState::Idle
    }

    /// Phase after `fire()`: attacking, whatever the phase was.
    pub fn fire(self) -> (r: EnvState)
        ensures
            r == EnvState::Attacking,
    {
        EnvState::Attacking
    }

    /// The level recurrence that applies in this phase.
    pub fn level_rule(self) -> (r: LevelRule)
        ensures
            r == rule_of(self),
    {
        match self {
            EnvState::Attacking => LevelRule::RiseTowardOne,
            EnvState::Idle => LevelRule::DecayTowardZero,
            EnvState::Decaying => LevelRule::DecayTowardZero,
        }
    }

    /// Phase after a step, given how the new level compares with the attack
    /// peak threshold and the release threshold.
    pub fn settle(self, above_peak: bool, below_floor: bool) -> (r: Settled)
        ensures
            r == settle_spec(self, above_peak, below_floor),
            is_step_transition(self, r.state),
            r.snap_to_zero <==> r.state == EnvState::Idle && self != EnvState::Idle,
    {
        match self {
            EnvState::Attacking => {
                if above_peak {
                    Settled { state: EnvState::Decaying, snap_to_zero: false }
                } else {
                    Settled { state: EnvState::Attacking, snap_to_zero: false }
                }
            },
            EnvState::Decaying => {
                if below_floor {
                    Settled { state: EnvState::Idle, snap_to_zero: true }
                } else {
                    Settled { state: EnvState::Decaying, snap_to_zero: false }
                }
            },
            EnvState::Idle => Settled { state: EnvState::Idle, snap_to_zero: false },
        }
    }
}

} // verus!

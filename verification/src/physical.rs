//! The closed vocabularies of the physical model: magnet polarity, the
//! pendulum approximation mode, and the reasons a trajectory run ends.

use vstd::prelude::*;

verus! {

/// Polarity of a magnet with respect to the pendulum bob.
#[derive(Clone, Copy, Debug, PartialEq, Eq, Structural)]
pub enum MagnetDirection {
    /// The magnet attracts the bob.
    Positive,
    /// The magnet repels the bob.
    Negative,
}

/// How the pendulum dynamics are approximated.
#[derive(Clone, Copy, Debug, PartialEq, Eq, Structural)]
pub enum Approximate {
    /// Planar linear oscillator near equilibrium (small-angle approximation).
    SmallAngle,
    /// Full spherical dynamics constrained to a rod of fixed length.
    Rigour,
}

/// Why a trajectory run terminated.
#[derive(Clone, Copy, Debug, PartialEq, Eq, Structural)]
pub enum EndReason {
    /// The step budget was exhausted with no classification.
    MaxStepsReached,
    /// Strict physical contact with a magnet.  Reserved: no decision path
    /// produces it; the energy criterion below classifies capture instead.
    PhysicalCapture,
    /// Total energy fell below the nearest well's escape threshold.
    EnergyTrap,
    /// The position left the doubled simulation bounds (divergence).
    OutOfBounds,
}

impl MagnetDirection {
    /// Human-readable label of the polarity.
    pub fn tostring(&self) -> (r: String)
        ensures
            *self == MagnetDirection::Positive ==> r@ == "吸引"@,
            *self == MagnetDirection::Negative ==> r@ == "排斥"@,
    {
        match self {
            MagnetDirection::Positive => "吸引".to_string(),
            MagnetDirection::Negative => "排斥".to_string(),
        }
    }

    /// Sign the polarity contributes to a magnet's force and to its potential
    /// term: attraction keeps the raw magnitude, repulsion negates the force
    /// (and turns the potential well into a barrier).
    pub fn sign(&self) -> (r: i64)
        ensures
            *self == MagnetDirection::Positive ==> r == 1,
            *self == MagnetDirection::Negative ==> r == -1,
    {
        match self {
            MagnetDirection::Positive => 1,
            MagnetDirection::Negative => -1,
        }
    }
}

} // verus!

//! Verified decision core of a magnetic-pendulum basin-of-attraction
//! computation.
//!
//! A damped pendulum is released over a set of magnets; the question is which
//! magnet eventually captures it.  The numerical work — forces, a fourth-order
//! integrator, energies — is floating point and lives with the caller.  What
//! this crate verifies is everything the computation *decides*: which well is
//! nearest, which escape barrier is lowest, when a trajectory has diverged,
//! when its energy traps it, and when the step budget runs out.  Those
//! decisions depend only on how the physical quantities are ordered, never on
//! their magnitudes, so the caller hands them in as order keys (see `keys`)
//! and the decisions proved here carry over to the physical quantities
//! unchanged.

pub mod bounds;
pub mod driver;
pub mod keys;
pub mod physical;
pub mod threshold;

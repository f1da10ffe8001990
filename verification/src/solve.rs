//! The order of the phases of an integrator step.
//!
//! An integrator step is a fixed sequence of phases. What each phase
//! computes is real arithmetic and belongs to the caller; which phase comes
//! next is decided here.

use vstd::prelude::*;

verus! {

/// One phase of an integrator step.
#[derive(Clone, Copy, Debug, PartialEq, Eq, Structural)]
pub enum Phase {
    /// Evaluate the force on every coordinate as minus the derivative of the
    /// total potential, seeding one coordinate at a time.
    ComputeForces,
    /// `v += (F / m) dt`.
    Kick,
    /// `v += (F / m) dt / 2`.
    HalfKick,
    /// `q += v dt`.
    Drift,
    /// Run the constraint projections in registration order.
    ProjectConstraints,
    /// Advance the angular velocity and the orientation of every rigid body.
    RotateRigidBodies,
    /// `t += dt`.
    AdvanceTime,
}

/// First-order symplectic integrator.
#[derive(Clone, Copy, Debug, PartialEq, Eq, Structural)]
pub struct SymplecticEuler;

/// Second-order, time-reversible integrator with a rigid-body rotation step.
#[derive(Clone, Copy, Debug, PartialEq, Eq, Structural)]
pub struct VelocityVerlet;

/// An integrator, as far as the order of its phases goes.
pub trait Integrator {
    /// The phases of one step, in order.
    spec fn spec_phases(&self) -> Seq<Phase>;

    /// The phases of one step, in order.
    fn phases(&self) -> (p: Vec<Phase>)
        ensures
            p@ == self.spec_phases(),
    ;
}

impl Integrator for SymplecticEuler {
    open spec fn spec_phases(&self) -> Seq<Phase> {
        seq![
            Phase::ComputeForces,
            Phase::Kick,
            Phase::Drift,
            Phase::ProjectConstraints,
            Phase::AdvanceTime,
        ]
    }

    fn phases(&self) -> (p: Vec<Phase>) {
        let mut p: Vec<Phase> = Vec::new();
        p.push(Phase::ComputeForces);
        p.push(Phase::Kick);
        p.push(Phase::Drift);
        p.push(Phase::ProjectConstraints);
        p.push(Phase::AdvanceTime);
        assert(p@ =~= self.spec_phases());
        p
    }
}

impl Integrator for VelocityVerlet {
    open spec fn spec_phases(&self) -> Seq<Phase> {
        seq![
            Phase::ComputeForces,
            Phase::HalfKick,
            Phase::Drift,
            Phase::ProjectConstraints,
            Phase::ComputeForces,
            Phase::HalfKick,
            Phase::RotateRigidBodies,
            Phase::AdvanceTime,
        ]
    }

    fn phases(&self) -> (p: Vec<Phase>) {
        let mut p: Vec<Phase> = Vec::new();
        p.push(Phase::ComputeForces);
        p.push(Phase::HalfKick);
        p.push(Phase::Drift);
        p.push(Phase::ProjectConstraints);
        p.push(Phase::ComputeForces);
        p.push(Phase::HalfKick);
        p.push(Phase::RotateRigidBodies);
        p.push(Phase::AdvanceTime);
        assert(p@ =~= self.spec_phases());
        p
    }
}

/// The sequence of phases keeps the order that a step needs: time advances
/// once, as the last phase; every drift is followed at once by the
/// projection of the constraints, which happens nowhere else; forces are
/// evaluated right before every kick.
pub open spec fn well_ordered(phases: Seq<Phase>) -> bool {
    &&& phases.len() > 0
    &&& phases.last() == Phase::AdvanceTime
    &&& forall|i: int|
        0 <= i < phases.len() - 1 ==> #[trigger] phases[i] != Phase::AdvanceTime
    &&& forall|i: int|
        0 <= i < phases.len() && #[trigger] phases[i] == Phase::Drift ==> i + 1 < phases.len()
            && phases[i + 1] == Phase::ProjectConstraints
    &&& forall|i: int|
        0 <= i < phases.len() && #[trigger] phases[i] == Phase::ProjectConstraints ==> i > 0
            && phases[i - 1] == Phase::Drift
    &&& forall|i: int|
        0 <= i < phases.len() && (#[trigger] phases[i] == Phase::Kick || phases[i]
            == Phase::HalfKick) ==> i > 0 && phases[i - 1] == Phase::ComputeForces
}

/// Symplectic Euler keeps the order that a step needs.
pub proof fn lemma_symplectic_euler_well_ordered()
    ensures
        well_ordered(SymplecticEuler.spec_phases()),
{
    let e = SymplecticEuler.spec_phases();
    assert(e.len() == 5);
    assert(e[0] == Phase::ComputeForces);
    assert(e[1] == Phase::Kick);
    assert(e[2] == Phase::Drift);
    assert(e[3] == Phase::ProjectConstraints);
    assert(e[4] == Phase::AdvanceTime);
}

/// Velocity Verlet keeps the order that a step needs.
pub proof fn lemma_velocity_verlet_well_ordered()
    ensures
        well_ordered(VelocityVerlet.spec_phases()),
{
    let v = VelocityVerlet.spec_phases();
    assert(v.len() == 8);
    assert(v[0] == Phase::ComputeForces);
    assert(v[1] == Phase::HalfKick);
    assert(v[2] == Phase::Drift);
    assert(v[3] == Phase::ProjectConstraints);
    assert(v[4] == Phase::ComputeForces);
    assert(v[5] == Phase::HalfKick);
    assert(v[6] == Phase::RotateRigidBodies);
    assert(v[7] == Phase::AdvanceTime);
}

} // verus!

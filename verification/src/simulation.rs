//! The simulation facade: the particle lattice, the run switch and the
//! substeps of a frame.

use vstd::prelude::*;
use crate::platform::compute::{ComputeEngine, ComputeError, ParticleBuffer, StepPlan};
use crate::platform::records::{Real, SimParams, packed_particles, packing_error, words_le};
use crate::state::{PhaseShape, ShapeError, MassConvention};

verus! {

/// Number of substeps that a frame runs unless told otherwise.
pub const SUBSTEPS_PER_FRAME: u32 = 10;

/// Number of columns of the lattice that a fresh simulation starts from.
pub const INITIAL_COLUMNS: usize = 64;

/// Number of columns of the lattice that a reset puts the particles on.
pub const RESET_COLUMNS: usize = 10;

/// The place of a particle in the rectangular starting lattice.
#[derive(Clone, Copy, Debug, PartialEq, Eq, Structural)]
pub struct LatticeCell {
    pub col: usize,
    pub row: usize,
}

/// The cell of particle `index` in a lattice of `cols` columns that is
/// filled row by row.
pub fn lattice_cell(index: usize, cols: usize) -> (cell: LatticeCell)
    requires
        cols > 0,
    ensures
        cell.col == index % cols,
        cell.row == index / cols,
        cell.col < cols,
        cell.row * cols + cell.col == index,
{
    proof {
        vstd::arithmetic::div_mod::lemma_fundamental_div_mod(index as int, cols as int);
        vstd::arithmetic::mul::lemma_mul_is_commutative(cols as int, index as int / cols as int);
    }
    LatticeCell { col: index % cols, row: index / cols }
}

/// No two particles share a cell of the lattice.
pub proof fn lemma_lattice_injective(a: usize, b: usize, cols: usize)
    requires
        cols > 0,
        a % cols == b % cols,
        a / cols == b / cols,
    ensures
        a == b,
{
    vstd::arithmetic::div_mod::lemma_fundamental_div_mod(a as int, cols as int);
    vstd::arithmetic::div_mod::lemma_fundamental_div_mod(b as int, cols as int);
}

/// The state of the facade between frames.
#[derive(Clone, Copy, Debug, PartialEq, Eq, Structural)]
pub struct Simulation {
    pub compute: ComputeEngine,
    pub n_particles: u32,
    /// Whether a frame advances the simulation.
    pub running: bool,
}

/// The engine after `k` steps.
pub open spec fn stepped(engine: ComputeEngine, k: nat) -> ComputeEngine
    decreases k,
{
    if k == 0 {
        engine
    } else {
        stepped(engine, (k - 1) as nat).spec_stepped()
    }
}

impl Simulation {
    /// Substeps that a frame of `n_substeps` substeps runs.
    pub open spec fn substeps(self, n_substeps: u32) -> nat {
        if self.running {
            n_substeps as nat
        } else {
            0
        }
    }

    /// A paused simulation of `n_particles` particles.
    pub fn new(n_particles: u32) -> (sim: Simulation)
        ensures
            sim.compute == ComputeEngine::spec_new(n_particles),
            sim.n_particles == n_particles,
            !sim.running,
    {
        Simulation { compute: ComputeEngine::new(n_particles), n_particles, running: false }
    }

    /// The shape of the phase space of the particles: three coordinates per
    /// particle, masses per coordinate, no rigid bodies. `None` where the
    /// coordinates cannot be counted in a `usize`.
    pub fn shape(&self) -> (s: Option<PhaseShape>)
        ensures
            3 * self.n_particles <= usize::MAX ==> s == Some(
                (PhaseShape {
                    dof: (3 * self.n_particles) as usize,
                    mass: MassConvention::PerDof,
                    rigid_bodies: 0,
                }),
            ),
            3 * self.n_particles > usize::MAX ==> s.is_none(),
            s.is_some() ==> s.unwrap().wf() && s.unwrap().spec_particles() == self.n_particles,
    {
        let n = self.n_particles as u64;
        if 3 * n > usize::MAX as u64 {
            None
        } else {
            let dof = (3 * n) as usize;
            Some(PhaseShape { dof, mass: MassConvention::PerDof, rigid_bodies: 0 })
        }
    }

    /// Plans the substeps of one frame. A paused simulation plans nothing
    /// and does not change. Where a step cannot be planned, none is, and
    /// the simulation does not change either.
    pub fn step(&mut self, n_substeps: u32) -> (r: Result<Vec<StepPlan>, ComputeError>)
        ensures
            final(self).n_particles == old(self).n_particles,
            final(self).running == old(self).running,
            old(self).substeps(n_substeps) == 0 || old(self).compute.can_step() ==> {
                &&& r.is_ok()
                &&& r.unwrap()@.len() == old(self).substeps(n_substeps)
                &&& forall|k: int|
                    0 <= k < r.unwrap()@.len() ==> (#[trigger] r.unwrap()@[k]).is_step_of(
                        stepped(old(self).compute, k as nat),
                    )
                &&& final(self).compute == stepped(
                    old(self).compute,
                    old(self).substeps(n_substeps),
                )
            },
            old(self).substeps(n_substeps) > 0 && !old(self).compute.can_step() ==> {
                &&& r.is_err()
                &&& r.unwrap_err() == ComputeError::SortScheduleTooLong
                &&& *final(self) == *old(self)
            },
    {
        let mut plans: Vec<StepPlan> = Vec::new();
        if !self.running {
            return Ok(plans);
        }
        let mut k: u32 = 0;
        while k < n_substeps
            invariant
                k <= n_substeps,
                self.running,
                self.n_particles == old(self).n_particles,
                self.running == old(self).running,
                k > 0 ==> old(self).compute.can_step(),
                plans@.len() == k,
                self.compute == stepped(old(self).compute, k as nat),
                self.compute.can_step() == old(self).compute.can_step(),
                forall|i: int|
                    0 <= i < k ==> (#[trigger] plans@[i]).is_step_of(
                        stepped(old(self).compute, i as nat),
                    ),
            decreases n_substeps - k,
        {
            match self.compute.step() {
                Ok(plan) => {
                    plans.push(plan);
                },
                Err(e) => {
                    return Err(e);
                },
            }
            k = k + 1;
        }
        Ok(plans)
    }

    /// The particle buffer that holds the current state.
    pub fn current_output_buffer(&self) -> (b: ParticleBuffer)
        ensures
            b == self.compute.current,
    {
        self.compute.current_buffer()
    }

    /// The bytes to write to the parameter buffer for the given settings.
    pub fn set_parameters(
        &self,
        dt: Real,
        h: Real,
        rho0: Real,
        stiffness: Real,
        viscosity: Real,
        mouse_x: Real,
        mouse_y: Real,
        mouse_pressed: bool,
    ) -> (bytes: Vec<u8>)
        ensures
            bytes@ == (SimParams {
                dt,
                h,
                rho0,
                stiffness,
                viscosity,
                count: self.compute.particle_count,
                grid_dim: self.compute.grid_dim,
                mouse_x,
                mouse_y,
                mouse_pressed,
            }).spec_bytes(),
    {
        self.compute.write_params(dt, h, rho0, stiffness, viscosity, mouse_x, mouse_y, mouse_pressed)
    }

    /// The bytes to write to the current particle buffer after the
    /// particles have been put back on the lattice.
    pub fn reset(&self, q: &[Real], v: &[Real], mass: &[Real]) -> (r: Result<Vec<u8>, ShapeError>)
        ensures
            match packing_error(
                self.compute.particle_count as nat,
                q@.len(),
                v@.len(),
                mass@.len(),
            ) {
                Some(e) => r == Err::<Vec<u8>, ShapeError>(e),
                None => r.is_ok() && r.unwrap()@ == words_le(
                    packed_particles(self.compute.particle_count as nat, q@, v@, mass@),
                ),
            },
    {
        self.compute.write_state(q, v, mass)
    }
}

/// An even number of steps leaves the current state in the buffer it was
/// in, an odd number moves it to the other one; nothing else changes.
pub proof fn lemma_stepped(engine: ComputeEngine, k: nat)
    ensures
        stepped(engine, k).particle_count == engine.particle_count,
        stepped(engine, k).grid_dim == engine.grid_dim,
        k % 2 == 0 ==> stepped(engine, k).current == engine.current,
        k % 2 == 1 ==> stepped(engine, k).current == engine.current.spec_other(),
    decreases k,
{
    if k > 0 {
        lemma_stepped(engine, (k - 1) as nat);
    }
}

} // verus!

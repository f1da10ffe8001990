//! The bookkeeping of the GPU engine: which buffers exist and how large they
//! are, what is bound where, and which dispatches make up one SPH step.
//!
//! The engine here owns no GPU object. Each method works out what has to be
//! created, written or dispatched; the caller carries it out on the device.

use vstd::prelude::*;
use crate::platform::records::{
    Real,
    SimParams,
    pack_particles,
    packed_particles,
    packing_error,
    encode_words,
    words_le,
    PARTICLE_BYTES,
    DENSITY_BYTES,
    GRID_ENTRY_BYTES,
    OFFSET_BYTES,
    SIM_PARAMS_BYTES,
};
use crate::platform::sort::{
    schedule,
    stage_count,
    sort_records,
    sort_record,
    sort_schedule,
    stage_offset,
    encode_sort_params,
    lemma_stage_budget,
    lemma_schedule_len,
    lemma_record_at,
    MAX_SCHEDULED_ELEMENTS,
    MAX_SORT_STAGES,
    SORT_PARAMS_BYTES,
};
use crate::state::ShapeError;

verus! {

/// Number of invocations in one workgroup of every kernel.
pub const WORKGROUP_SIZE: u32 = 256;

/// Number of cells of the hash grid: a power of two, so that a hash is
/// reduced with a bit mask.
pub const GRID_DIM: u32 = 16384;

/// Bit patterns of the parameters that a fresh engine starts with.
pub const DEFAULT_DT_BITS: u32 = 0x3ba3_d70a;

pub const DEFAULT_H_BITS: u32 = 0x41c8_0000;

pub const DEFAULT_RHO0_BITS: u32 = 0x3c23_d70a;

pub const DEFAULT_STIFFNESS_BITS: u32 = 0x44fa_0000;

pub const DEFAULT_VISCOSITY_BITS: u32 = 0x4348_0000;

/// One of the two particle buffers.
#[derive(Clone, Copy, Debug, PartialEq, Eq, Structural)]
pub enum ParticleBuffer {
    A,
    B,
}

impl ParticleBuffer {
    /// The buffer that is not this one.
    pub open spec fn spec_other(self) -> ParticleBuffer {
        match self {
            ParticleBuffer::A => ParticleBuffer::B,
            ParticleBuffer::B => ParticleBuffer::A,
        }
    }

    /// The buffer that is not this one.
    pub fn other(self) -> (b: ParticleBuffer)
        ensures
            b == self.spec_other(),
    {
        match self {
            ParticleBuffer::A => ParticleBuffer::B,
            ParticleBuffer::B => ParticleBuffer::A,
        }
    }
}

/// The compute kernels, in the order in which a step runs them.
#[derive(Clone, Copy, Debug, PartialEq, Eq, Structural)]
pub enum Kernel {
    /// Writes the cell hash and the index of every particle to the grid.
    GridIndices,
    /// One stage of the bitonic sort of the grid by cell hash.
    BitonicSort,
    /// Marks every cell of the offset table as empty.
    ClearOffsets,
    /// Records where the run of each cell starts in the sorted grid.
    FindOffsets,
    /// Evaluates the density at every particle.
    Density,
    /// Evaluates the forces on every particle and integrates it.
    Force,
}

/// One dispatch of a kernel.
#[derive(Clone, Copy, Debug, PartialEq, Eq, Structural)]
pub struct Dispatch {
    pub kernel: Kernel,
    /// Number of workgroups along the first axis; the other two are 1.
    pub workgroups: u32,
    /// Offset of the stage record in the sort-parameter buffer, for a sort
    /// stage; no other kernel has one.
    pub dynamic_offset: Option<u32>,
}

/// The resources that kernels bind.
#[derive(Clone, Copy, Debug, PartialEq, Eq, Structural)]
pub enum Resource {
    SimParams,
    Particles(ParticleBuffer),
    Density,
    Grid,
    Offsets,
    SortParams,
}

/// How a resource is bound.
#[derive(Clone, Copy, Debug, PartialEq, Eq, Structural)]
pub enum BindingKind {
    Uniform,
    /// A uniform whose offset is chosen at each dispatch.
    DynamicUniform,
    ReadOnlyStorage,
    Storage,
}

/// One entry of a bind group.
#[derive(Clone, Copy, Debug, PartialEq, Eq, Structural)]
pub struct Binding {
    pub slot: u32,
    pub kind: BindingKind,
    pub resource: Resource,
}

/// The sizes in bytes of the buffers of an engine.
#[derive(Clone, Copy, Debug, PartialEq, Eq, Structural)]
pub struct BufferSizes {
    /// Each of the two particle buffers.
    pub particles: u64,
    pub density: u64,
    pub grid: u64,
    pub offsets: u64,
    pub sim_params: u64,
    pub sort_params: u64,
}

/// Why a step cannot be planned.
#[derive(Clone, Copy, Debug, PartialEq, Eq, Structural)]
pub enum ComputeError {
    /// The sort schedule has more stages than the sort-parameter buffer has
    /// records.
    SortScheduleTooLong,
}

/// What one step does on the device.
#[derive(Debug)]
pub struct StepPlan {
    /// Contents of the sort-parameter buffer, written before any dispatch.
    pub sort_params: Vec<u8>,
    /// The dispatches, in order.
    pub dispatches: Vec<Dispatch>,
    /// The particle buffer that the kernels read.
    pub source: ParticleBuffer,
    /// The particle buffer that the force kernel writes.
    pub destination: ParticleBuffer,
}

/// The state of the GPU engine between steps.
#[derive(Clone, Copy, Debug, PartialEq, Eq, Structural)]
pub struct ComputeEngine {
    pub particle_count: u32,
    pub grid_dim: u32,
    /// The particle buffer that holds the current state.
    pub current: ParticleBuffer,
}

/// Number of workgroups that cover `n` invocations.
pub open spec fn spec_workgroups(n: u32) -> u32 {
    ((n + 255) / 256) as u32
}

/// The dispatches of one step: hash, the sort stages, clear offsets, find
/// offsets, density, force.
pub open spec fn step_dispatches(count: u32, grid_dim: u32) -> Seq<Dispatch> {
    let per_particle = spec_workgroups(count);
    let per_cell = spec_workgroups(grid_dim);
    seq![Dispatch { kernel: Kernel::GridIndices, workgroups: per_particle, dynamic_offset: None }]
        + Seq::new(
        stage_count(count as nat),
        |i: int|
            Dispatch {
                kernel: Kernel::BitonicSort,
                workgroups: per_particle,
                dynamic_offset: Some((256 * i) as u32),
            },
    ) + seq![
        Dispatch { kernel: Kernel::ClearOffsets, workgroups: per_cell, dynamic_offset: None },
        Dispatch { kernel: Kernel::FindOffsets, workgroups: per_particle, dynamic_offset: None },
        Dispatch { kernel: Kernel::Density, workgroups: per_particle, dynamic_offset: None },
        Dispatch { kernel: Kernel::Force, workgroups: per_particle, dynamic_offset: None },
    ]
}

/// The main bind group when `source` holds the current state.
pub open spec fn main_bindings(source: ParticleBuffer) -> Seq<Binding> {
    seq![
        Binding { slot: 0, kind: BindingKind::Uniform, resource: Resource::SimParams },
        Binding {
            slot: 1,
            kind: BindingKind::ReadOnlyStorage,
            resource: Resource::Particles(source),
        },
        Binding { slot: 2, kind: BindingKind::Storage, resource: Resource::Density },
        Binding {
            slot: 3,
            kind: BindingKind::Storage,
            resource: Resource::Particles(source.spec_other()),
        },
        Binding { slot: 4, kind: BindingKind::Storage, resource: Resource::Grid },
        Binding { slot: 5, kind: BindingKind::Storage, resource: Resource::Offsets },
    ]
}

/// The bind group of the sort kernel.
pub open spec fn sort_group() -> Seq<Binding> {
    seq![
        Binding { slot: 0, kind: BindingKind::DynamicUniform, resource: Resource::SortParams },
        Binding { slot: 1, kind: BindingKind::Storage, resource: Resource::Grid },
    ]
}

/// Number of workgroups of 256 invocations that cover `n` invocations.
pub fn workgroups(n: u32) -> (w: u32)
    ensures
        w == spec_workgroups(n),
        w as int * 256 >= n,
        w as int * 256 < n + 256,
{
    let q: u32 = n / WORKGROUP_SIZE;
    if n % WORKGROUP_SIZE == 0 {
        q
    } else {
        q + 1
    }
}

/// The entries of the main bind group when `source` holds the current
/// state: `source` is read at slot 1, the other particle buffer is written
/// at slot 3.
pub fn main_group(source: ParticleBuffer) -> (group: Vec<Binding>)
    ensures
        group@ == main_bindings(source),
{
    let mut group: Vec<Binding> = Vec::new();
    group.push(Binding { slot: 0, kind: BindingKind::Uniform, resource: Resource::SimParams });
    group.push(
        Binding {
            slot: 1,
            kind: BindingKind::ReadOnlyStorage,
            resource: Resource::Particles(source),
        },
    );
    group.push(Binding { slot: 2, kind: BindingKind::Storage, resource: Resource::Density });
    group.push(
        Binding {
            slot: 3,
            kind: BindingKind::Storage,
            resource: Resource::Particles(source.other()),
        },
    );
    group.push(Binding { slot: 4, kind: BindingKind::Storage, resource: Resource::Grid });
    group.push(Binding { slot: 5, kind: BindingKind::Storage, resource: Resource::Offsets });
    assert(group@ =~= main_bindings(source));
    group
}

impl StepPlan {
    /// The plan is the one for a step of `engine`.
    pub open spec fn is_step_of(self, engine: ComputeEngine) -> bool {
        &&& self.sort_params@ == sort_records(schedule(engine.particle_count))
        &&& self.dispatches@ == step_dispatches(engine.particle_count, engine.grid_dim)
        &&& self.source == engine.current
        &&& self.destination == engine.current.spec_other()
    }
}

impl ComputeEngine {
    /// A fresh engine for `count` particles.
    pub open spec fn spec_new(count: u32) -> ComputeEngine {
        ComputeEngine { particle_count: count, grid_dim: GRID_DIM, current: ParticleBuffer::A }
    }

    /// The sizes of the buffers: 32 bytes per particle record, 4 per density,
    /// 8 per grid entry, 4 per cell, 48 for the parameter block and 256 for
    /// each of the 100 stage records.
    pub open spec fn spec_buffer_sizes(self) -> BufferSizes {
        BufferSizes {
            particles: (32 * self.particle_count) as u64,
            density: (4 * self.particle_count) as u64,
            grid: (8 * self.particle_count) as u64,
            offsets: (4 * self.grid_dim) as u64,
            sim_params: 48,
            sort_params: 25600,
        }
    }

    /// The parameters that a fresh engine starts with: a time step of 0.005,
    /// a smoothing radius of 25, a rest density of 0.01, a stiffness of 2000
    /// and a viscosity of 200, with the interaction switched off.
    pub open spec fn spec_initial_params(self) -> SimParams {
        SimParams {
            dt: Real { bits: DEFAULT_DT_BITS },
            h: Real { bits: DEFAULT_H_BITS },
            rho0: Real { bits: DEFAULT_RHO0_BITS },
            stiffness: Real { bits: DEFAULT_STIFFNESS_BITS },
            viscosity: Real { bits: DEFAULT_VISCOSITY_BITS },
            count: self.particle_count,
            grid_dim: self.grid_dim,
            mouse_x: Real { bits: 0 },
            mouse_y: Real { bits: 0 },
            mouse_pressed: false,
        }
    }

    /// The engine after a step.
    pub open spec fn spec_stepped(self) -> ComputeEngine {
        ComputeEngine { current: self.current.spec_other(), ..self }
    }

    /// A step can be planned: the sort schedule fits its buffer.
    pub open spec fn can_step(self) -> bool {
        self.particle_count <= MAX_SCHEDULED_ELEMENTS
    }

    /// An engine for `count` particles. Buffer A holds the current state.
    pub fn new(count: u32) -> (engine: ComputeEngine)
        ensures
            engine == Self::spec_new(count),
    {
        ComputeEngine { particle_count: count, grid_dim: GRID_DIM, current: ParticleBuffer::A }
    }

    /// The sizes of the buffers to create.
    pub fn buffer_sizes(&self) -> (sizes: BufferSizes)
        ensures
            sizes == self.spec_buffer_sizes(),
    {
        let count = self.particle_count as u64;
        BufferSizes {
            particles: PARTICLE_BYTES * count,
            density: DENSITY_BYTES * count,
            grid: GRID_ENTRY_BYTES * count,
            offsets: OFFSET_BYTES * (self.grid_dim as u64),
            sim_params: SIM_PARAMS_BYTES,
            sort_params: SORT_PARAMS_BYTES,
        }
    }

    /// The parameter block that the parameter buffer is created with.
    pub fn initial_params(&self) -> (params: SimParams)
        ensures
            params == self.spec_initial_params(),
    {
        SimParams {
            dt: Real { bits: DEFAULT_DT_BITS },
            h: Real { bits: DEFAULT_H_BITS },
            rho0: Real { bits: DEFAULT_RHO0_BITS },
            stiffness: Real { bits: DEFAULT_STIFFNESS_BITS },
            viscosity: Real { bits: DEFAULT_VISCOSITY_BITS },
            count: self.particle_count,
            grid_dim: self.grid_dim,
            mouse_x: Real { bits: 0 },
            mouse_y: Real { bits: 0 },
            mouse_pressed: false,
        }
    }

    /// The entries of the main bind group: the current buffer is read at
    /// slot 1, the other one is written at slot 3.
    pub fn bindings(&self) -> (group: Vec<Binding>)
        ensures
            group@ == main_bindings(self.current),
    {
        main_group(self.current)
    }

    /// The entries of the bind group of the sort kernel.
    pub fn sort_bindings() -> (group: Vec<Binding>)
        ensures
            group@ == sort_group(),
    {
        let mut group: Vec<Binding> = Vec::new();
        group.push(
            Binding { slot: 0, kind: BindingKind::DynamicUniform, resource: Resource::SortParams },
        );
        group.push(Binding { slot: 1, kind: BindingKind::Storage, resource: Resource::Grid });
        assert(group@ =~= sort_group());
        group
    }

    /// The particle buffer that holds the current state, for a renderer to
    /// read.
    pub fn current_buffer(&self) -> (b: ParticleBuffer)
        ensures
            b == self.current,
    {
        self.current
    }

    /// Plans one step and swaps the particle buffers. Where the sort
    /// schedule does not fit its buffer, nothing is planned and the engine
    /// stays as it was.
    pub fn step(&mut self) -> (r: Result<StepPlan, ComputeError>)
        ensures
            old(self).can_step() ==> r.is_ok() && r.unwrap().is_step_of(*old(self))
                && *final(self) == old(self).spec_stepped(),
            !old(self).can_step() ==> r.is_err() && r.unwrap_err()
                == ComputeError::SortScheduleTooLong && *final(self) == *old(self),
    {
        let count = self.particle_count;
        if count > MAX_SCHEDULED_ELEMENTS {
            return Err(ComputeError::SortScheduleTooLong);
        }
        let stages = sort_schedule(count);
        let sort_params = encode_sort_params(&stages);
        let per_particle = workgroups(count);
        let per_cell = workgroups(self.grid_dim);
        proof {
            lemma_stage_budget(count);
        }
        let mut dispatches: Vec<Dispatch> = Vec::new();
        dispatches.push(
            Dispatch { kernel: Kernel::GridIndices, workgroups: per_particle, dynamic_offset: None },
        );
        let ghost head = dispatches@;
        let mut i: usize = 0;
        while i < stages.len()
            invariant
                i <= stages.len(),
                stages@.len() == stage_count(count as nat),
                stages@.len() <= MAX_SORT_STAGES,
                dispatches@ == head + Seq::new(
                    i as nat,
                    |k: int|
                        Dispatch {
                            kernel: Kernel::BitonicSort,
                            workgroups: per_particle,
                            dynamic_offset: Some((256 * k) as u32),
                        },
                ),
            decreases stages.len() - i,
        {
            let offset: u32 = stage_offset(i as u32);
            dispatches.push(
                Dispatch {
                    kernel: Kernel::BitonicSort,
                    workgroups: per_particle,
                    dynamic_offset: Some(offset),
                },
            );
            i += 1;
            assert(dispatches@ =~= head + Seq::new(
                i as nat,
                |k: int|
                    Dispatch {
                        kernel: Kernel::BitonicSort,
                        workgroups: per_particle,
                        dynamic_offset: Some((256 * k) as u32),
                    },
            ));
        }
        dispatches.push(
            Dispatch { kernel: Kernel::ClearOffsets, workgroups: per_cell, dynamic_offset: None },
        );
        dispatches.push(
            Dispatch { kernel: Kernel::FindOffsets, workgroups: per_particle, dynamic_offset: None },
        );
        dispatches.push(
            Dispatch { kernel: Kernel::Density, workgroups: per_particle, dynamic_offset: None },
        );
        dispatches.push(
            Dispatch { kernel: Kernel::Force, workgroups: per_particle, dynamic_offset: None },
        );
        assert(dispatches@ =~= step_dispatches(count, self.grid_dim));
        let source = self.current;
        let destination = self.current.other();
        self.current = destination;
        Ok(StepPlan { sort_params, dispatches, source, destination })
    }

    /// The bytes to write to the current particle buffer so that it holds
    /// the first `particle_count` particles of the given arrays.
    pub fn write_state(&self, q: &[Real], v: &[Real], mass: &[Real]) -> (r: Result<
        Vec<u8>,
        ShapeError,
    >)
        ensures
            match packing_error(self.particle_count as nat, q@.len(), v@.len(), mass@.len()) {
                Some(e) => r == Err::<Vec<u8>, ShapeError>(e),
                None => r.is_ok() && r.unwrap()@ == words_le(
                    packed_particles(self.particle_count as nat, q@, v@, mass@),
                ),
            },
    {
        match pack_particles(self.particle_count, q, v, mass) {
            Ok(words) => Ok(encode_words(&words)),
            Err(e) => Err(e),
        }
    }

    /// The bytes to write to the parameter buffer for the given settings.
    pub fn write_params(
        &self,
        dt: Real,
        h: Real,
        rho0: Real,
        stiffness: Real,
        viscosity: Real,
        mouse_x: Real,
        mouse_y: Real,
        mouse_pressed: bool,
    ) -> (bytes: Vec<u8>)
        ensures
            bytes@ == (SimParams {
                dt,
                h,
                rho0,
                stiffness,
                viscosity,
                count: self.particle_count,
                grid_dim: self.grid_dim,
                mouse_x,
                mouse_y,
                mouse_pressed,
            }).spec_bytes(),
            bytes@.len() == SIM_PARAMS_BYTES,
    {
        let params = SimParams {
            dt,
            h,
            rho0,
            stiffness,
            viscosity,
            count: self.particle_count,
            grid_dim: self.grid_dim,
            mouse_x,
            mouse_y,
            mouse_pressed,
        };
        params.encode()
    }
}

/// Two steps bring the current state back to the buffer it started in.
pub proof fn lemma_ping_pong(engine: ComputeEngine)
    ensures
        engine.spec_stepped().current != engine.current,
        engine.spec_stepped().spec_stepped() == engine,
        engine.spec_stepped().can_step() == engine.can_step(),
{
}

/// What is uploaded fits the buffers that are created: the packed state
/// fills a particle buffer, the parameter block fills the parameter buffer,
/// and the stage records of a step that can be planned fit the
/// sort-parameter buffer.
pub proof fn lemma_uploads_fit(
    engine: ComputeEngine,
    q: Seq<Real>,
    v: Seq<Real>,
    mass: Seq<Real>,
    params: SimParams,
)
    ensures
        words_le(packed_particles(engine.particle_count as nat, q, v, mass)).len()
            == engine.spec_buffer_sizes().particles,
        params.spec_bytes().len() == engine.spec_buffer_sizes().sim_params,
        engine.can_step() ==> sort_records(schedule(engine.particle_count)).len()
            <= engine.spec_buffer_sizes().sort_params,
{
    lemma_stage_budget(engine.particle_count);
    lemma_schedule_len(engine.particle_count);
}

/// A step that can be planned has one dispatch per kernel and one more per
/// sort stage, and the dispatch of sort stage `i` binds the 256 bytes of the
/// sort-parameter buffer that hold the record of stage `i`.
pub proof fn lemma_step_shape(engine: ComputeEngine, plan: StepPlan, i: int)
    requires
        engine.can_step(),
        plan.is_step_of(engine),
        0 <= i < stage_count(engine.particle_count as nat),
    ensures
        plan.dispatches@.len() == 5 + stage_count(engine.particle_count as nat),
        stage_count(engine.particle_count as nat) <= MAX_SORT_STAGES,
        plan.sort_params@.len() == 256 * stage_count(engine.particle_count as nat),
        256 * i + 256 <= SORT_PARAMS_BYTES,
        plan.dispatches@[0].kernel == Kernel::GridIndices,
        plan.dispatches@[1 + i].kernel == Kernel::BitonicSort,
        plan.dispatches@[1 + i].dynamic_offset == Some((256 * i) as u32),
        plan.sort_params@.subrange(256 * i, 256 * i + 256) == sort_record(
            schedule(engine.particle_count)[i],
        ),
        plan.dispatches@[plan.dispatches@.len() - 4].kernel == Kernel::ClearOffsets,
        plan.dispatches@[plan.dispatches@.len() - 3].kernel == Kernel::FindOffsets,
        plan.dispatches@[plan.dispatches@.len() - 2].kernel == Kernel::Density,
        plan.dispatches@[plan.dispatches@.len() - 1].kernel == Kernel::Force,
{
    lemma_stage_budget(engine.particle_count);
    lemma_schedule_len(engine.particle_count);
    lemma_record_at(schedule(engine.particle_count), i);
}

} // verus!

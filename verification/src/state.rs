//! The shape of the phase space: how many entries each of its arrays has, and
//! where a particle's entries lie.
//!
//! The phase space is a structure of arrays. `dof` translational coordinates
//! (three per particle) give the length of the position and velocity arrays;
//! the mass array has either one entry per coordinate or one per particle;
//! the radius array has one entry per particle; the orientation, angular
//! velocity and inertia arrays have one entry per rigid body.

use vstd::prelude::*;

verus! {

/// Why a set of array lengths is not the shape of a phase space.
#[derive(Clone, Copy, Debug, PartialEq, Eq, Structural)]
pub enum ShapeError {
    /// The number of translational coordinates is not a multiple of three.
    DofNotMultipleOfThree,
    /// The position array is too short for the particles to be read, or its
    /// length differs from the number of coordinates.
    PositionLength,
    /// The velocity array is too short for the particles to be read, or its
    /// length differs from the number of coordinates.
    VelocityLength,
    /// The mass array is too short for the particles to be read, or follows
    /// neither mass convention.
    MassLength,
    /// The radius array does not have one entry per particle.
    RadiusLength,
    /// The rigid-body arrays differ in length.
    RigidLength,
}

/// How the mass array is laid out.
#[derive(Clone, Copy, Debug, PartialEq, Eq, Structural)]
pub enum MassConvention {
    /// One entry per coordinate; a particle's mass is repeated three times.
    PerDof,
    /// One entry per particle.
    PerParticle,
}

impl MassConvention {
    /// Distance in the mass array between the entries of consecutive particles.
    pub open spec fn spec_stride(self) -> nat {
        match self {
            MassConvention::PerDof => 3,
            MassConvention::PerParticle => 1,
        }
    }

    /// Length of the mass array for `dof` coordinates.
    pub open spec fn spec_mass_len(self, dof: nat) -> nat {
        match self {
            MassConvention::PerDof => dof,
            MassConvention::PerParticle => dof / 3,
        }
    }

    /// The convention that a length comparison finds: per coordinate when
    /// the mass array is as long as the position array, per particle otherwise.
    pub open spec fn spec_of_lengths(q_len: nat, mass_len: nat) -> MassConvention {
        if mass_len == q_len {
            MassConvention::PerDof
        } else {
            MassConvention::PerParticle
        }
    }

    /// Distance in the mass array between the entries of consecutive particles.
    pub fn stride(self) -> (s: usize)
        ensures
            s == self.spec_stride(),
    {
        match self {
            MassConvention::PerDof => 3,
            MassConvention::PerParticle => 1,
        }
    }

    /// Length of the mass array for `dof` coordinates.
    pub fn mass_len(self, dof: usize) -> (n: usize)
        ensures
            n == self.spec_mass_len(dof as nat),
    {
        match self {
            MassConvention::PerDof => dof,
            MassConvention::PerParticle => dof / 3,
        }
    }

    /// Finds the convention by comparing the lengths of the mass and
    /// position arrays.
    pub fn of_lengths(q_len: usize, mass_len: usize) -> (c: MassConvention)
        ensures
            c == Self::spec_of_lengths(q_len as nat, mass_len as nat),
    {
        if mass_len == q_len {
            MassConvention::PerDof
        } else {
            MassConvention::PerParticle
        }
    }
}

/// The lengths of the arrays of a well-formed phase space.
#[derive(Clone, Copy, Debug, PartialEq, Eq, Structural)]
pub struct PhaseShape {
    /// Number of translational coordinates: three per particle.
    pub dof: usize,
    /// Layout of the mass array.
    pub mass: MassConvention,
    /// Number of rigid bodies.
    pub rigid_bodies: usize,
}

impl PhaseShape {
    /// The shape is that of a phase space: its coordinates come in triples.
    pub open spec fn wf(self) -> bool {
        self.dof % 3 == 0
    }

    /// Number of particles.
    pub open spec fn spec_particles(self) -> nat {
        (self.dof / 3) as nat
    }

    /// Length of the mass array.
    pub open spec fn spec_mass_len(self) -> nat {
        self.mass.spec_mass_len(self.dof as nat)
    }

    /// The array lengths `q`, `v`, `mass`, `radius`, `rot`, `ang_v`,
    /// `inertia` are those of this shape.
    pub open spec fn describes(
        self,
        q_len: nat,
        v_len: nat,
        mass_len: nat,
        radius_len: nat,
        rot_len: nat,
        ang_v_len: nat,
        inertia_len: nat,
    ) -> bool {
        &&& q_len == self.dof
        &&& v_len == self.dof
        &&& mass_len == self.spec_mass_len()
        &&& radius_len == self.spec_particles()
        &&& rot_len == self.rigid_bodies
        &&& ang_v_len == self.rigid_bodies
        &&& inertia_len == self.rigid_bodies
    }

    /// The shape of a fresh phase space with `dof` coordinates: one mass
    /// entry per coordinate and no rigid bodies.
    pub fn new(dof: usize) -> (r: Result<PhaseShape, ShapeError>)
        ensures
            dof % 3 == 0 ==> r == Ok::<PhaseShape, ShapeError>(
                (PhaseShape { dof, mass: MassConvention::PerDof, rigid_bodies: 0 }),
            ),
            dof % 3 != 0 ==> r == Err::<PhaseShape, ShapeError>(
                ShapeError::DofNotMultipleOfThree,
            ),
    {
        if dof % 3 != 0 {
            Err(ShapeError::DofNotMultipleOfThree)
        } else {
            Ok(PhaseShape { dof, mass: MassConvention::PerDof, rigid_bodies: 0 })
        }
    }

    /// The shape with an explicit mass convention.
    pub fn with_mass(dof: usize, mass: MassConvention) -> (r: Result<PhaseShape, ShapeError>)
        ensures
            dof % 3 == 0 ==> r == Ok::<PhaseShape, ShapeError>(
                (PhaseShape { dof, mass, rigid_bodies: 0 }),
            ),
            dof % 3 != 0 ==> r == Err::<PhaseShape, ShapeError>(
                ShapeError::DofNotMultipleOfThree,
            ),
    {
        if dof % 3 != 0 {
            Err(ShapeError::DofNotMultipleOfThree)
        } else {
            Ok(PhaseShape { dof, mass, rigid_bodies: 0 })
        }
    }

    /// Changes the number of coordinates. The mass array is resized along
    /// with the positions, so it has one entry per coordinate afterwards.
    /// A count that is no multiple of three is refused and changes nothing.
    pub fn resize(&mut self, new_dof: usize) -> (r: Result<(), ShapeError>)
        ensures
            new_dof % 3 == 0 ==> r.is_ok() && *final(self) == (PhaseShape {
                dof: new_dof,
                mass: MassConvention::PerDof,
                rigid_bodies: old(self).rigid_bodies,
            }),
            new_dof % 3 != 0 ==> r == Err::<(), ShapeError>(ShapeError::DofNotMultipleOfThree)
                && *final(self) == *old(self),
    {
        if new_dof % 3 != 0 {
            Err(ShapeError::DofNotMultipleOfThree)
        } else {
            self.dof = new_dof;
            self.mass = MassConvention::PerDof;
            Ok(())
        }
    }

    /// Changes the number of rigid bodies.
    pub fn resize_rigid(&mut self, count: usize)
        ensures
            *final(self) == (PhaseShape { rigid_bodies: count, ..*old(self) }),
    {
        self.rigid_bodies = count;
    }

    /// Number of particles.
    pub fn particles(&self) -> (n: usize)
        ensures
            n == self.spec_particles(),
    {
        self.dof / 3
    }

    /// Length of the mass array.
    pub fn mass_len(&self) -> (n: usize)
        ensures
            n == self.spec_mass_len(),
    {
        self.mass.mass_len(self.dof)
    }

    /// Index of coordinate `axis` of `particle` in the position and velocity
    /// arrays. It lies inside them for a particle and an axis that exist.
    pub fn coordinate(&self, particle: usize, axis: usize) -> (index: usize)
        requires
            3 * particle + axis <= usize::MAX,
        ensures
            index == 3 * particle + axis,
            particle < self.spec_particles() && axis < 3 ==> index < self.dof,
    {
        3 * particle + axis
    }

    /// Index of the mass of `particle` in the mass array. It lies inside the
    /// array for a particle that exists.
    pub fn mass_slot(&self, particle: usize) -> (index: usize)
        requires
            particle * self.mass.spec_stride() <= usize::MAX,
        ensures
            index == particle * self.mass.spec_stride(),
            particle < self.spec_particles() ==> index < self.spec_mass_len(),
    {
        particle * self.mass.stride()
    }

    /// Recognises the shape behind a set of array lengths, or says which
    /// array first breaks it. The arrays are looked at in the order
    /// positions, velocities, masses, radii, rigid bodies.
    pub fn from_lengths(
        q_len: usize,
        v_len: usize,
        mass_len: usize,
        radius_len: usize,
        rot_len: usize,
        ang_v_len: usize,
        inertia_len: usize,
    ) -> (r: Result<PhaseShape, ShapeError>)
        ensures
            r == Self::spec_from_lengths(
                q_len as nat,
                v_len as nat,
                mass_len as nat,
                radius_len as nat,
                rot_len as nat,
                ang_v_len as nat,
                inertia_len as nat,
            ),
    {
        if q_len % 3 != 0 {
            Err(ShapeError::DofNotMultipleOfThree)
        } else if v_len != q_len {
            Err(ShapeError::VelocityLength)
        } else if mass_len != q_len && mass_len != q_len / 3 {
            Err(ShapeError::MassLength)
        } else if radius_len != q_len / 3 {
            Err(ShapeError::RadiusLength)
        } else if ang_v_len != rot_len || inertia_len != rot_len {
            Err(ShapeError::RigidLength)
        } else {
            Ok(
                PhaseShape {
                    dof: q_len,
                    mass: MassConvention::of_lengths(q_len, mass_len),
                    rigid_bodies: rot_len,
                },
            )
        }
    }

    /// The shape behind a set of array lengths, or the first array that
    /// breaks it.
    pub open spec fn spec_from_lengths(
        q_len: nat,
        v_len: nat,
        mass_len: nat,
        radius_len: nat,
        rot_len: nat,
        ang_v_len: nat,
        inertia_len: nat,
    ) -> Result<PhaseShape, ShapeError> {
        if q_len % 3 != 0 {
            Err(ShapeError::DofNotMultipleOfThree)
        } else if v_len != q_len {
            Err(ShapeError::VelocityLength)
        } else if mass_len != q_len && mass_len != q_len / 3 {
            Err(ShapeError::MassLength)
        } else if radius_len != q_len / 3 {
            Err(ShapeError::RadiusLength)
        } else if ang_v_len != rot_len || inertia_len != rot_len {
            Err(ShapeError::RigidLength)
        } else {
            Ok(
                PhaseShape {
                    dof: q_len as usize,
                    mass: MassConvention::spec_of_lengths(q_len, mass_len),
                    rigid_bodies: rot_len as usize,
                },
            )
        }
    }
}

/// A set of array lengths is accepted exactly when some well-formed shape
/// describes it, and the shape that is returned is that one.
pub proof fn lemma_from_lengths_sound(
    q_len: usize,
    v_len: usize,
    mass_len: usize,
    radius_len: usize,
    rot_len: usize,
    ang_v_len: usize,
    inertia_len: usize,
)
    ensures
        match PhaseShape::spec_from_lengths(
            q_len as nat,
            v_len as nat,
            mass_len as nat,
            radius_len as nat,
            rot_len as nat,
            ang_v_len as nat,
            inertia_len as nat,
        ) {
            Ok(shape) => shape.wf() && shape.describes(
                q_len as nat,
                v_len as nat,
                mass_len as nat,
                radius_len as nat,
                rot_len as nat,
                ang_v_len as nat,
                inertia_len as nat,
            ),
            Err(_) => forall|shape: PhaseShape|
                shape.wf() ==> !#[trigger] shape.describes(
                    q_len as nat,
                    v_len as nat,
                    mass_len as nat,
                    radius_len as nat,
                    rot_len as nat,
                    ang_v_len as nat,
                    inertia_len as nat,
                ),
        },
{
}

/// A fresh shape describes the arrays of a fresh phase space: `dof`
/// positions, velocities and masses, `dof / 3` radii, no rigid bodies.
pub proof fn lemma_new_shape(dof: usize)
    requires
        dof % 3 == 0,
    ensures
        (PhaseShape { dof, mass: MassConvention::PerDof, rigid_bodies: 0 }).wf(),
        (PhaseShape { dof, mass: MassConvention::PerDof, rigid_bodies: 0 }).describes(
            dof as nat,
            dof as nat,
            dof as nat,
            (dof / 3) as nat,
            0,
            0,
            0,
        ),
{
}

} // verus!

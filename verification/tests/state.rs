use moo::state::{MassConvention, PhaseShape, ShapeError};

#[test]
fn mass_strides() {
    assert_eq!(MassConvention::PerDof.stride(), 3);
    assert_eq!(MassConvention::PerParticle.stride(), 1);
}

#[test]
fn mass_lengths() {
    assert_eq!(MassConvention::PerDof.mass_len(12), 12);
    assert_eq!(MassConvention::PerParticle.mass_len(12), 4);
    assert_eq!(MassConvention::PerDof.mass_len(0), 0);
    assert_eq!(MassConvention::PerParticle.mass_len(0), 0);
}

#[test]
fn convention_by_length_comparison() {
    assert_eq!(MassConvention::of_lengths(6, 6), MassConvention::PerDof);
    assert_eq!(MassConvention::of_lengths(6, 2), MassConvention::PerParticle);
    assert_eq!(MassConvention::of_lengths(6, 5), MassConvention::PerParticle);
    assert_eq!(MassConvention::of_lengths(0, 0), MassConvention::PerDof);
}

#[test]
fn a_fresh_shape() {
    let shape = PhaseShape::new(6).unwrap();
    assert_eq!(shape, PhaseShape { dof: 6, mass: MassConvention::PerDof, rigid_bodies: 0 });
    assert_eq!(shape.particles(), 2);
    assert_eq!(shape.mass_len(), 6);
}

#[test]
fn an_empty_shape() {
    let shape = PhaseShape::new(0).unwrap();
    assert_eq!(shape.particles(), 0);
    assert_eq!(shape.mass_len(), 0);
}

#[test]
fn coordinates_come_in_triples() {
    assert_eq!(PhaseShape::new(1), Err(ShapeError::DofNotMultipleOfThree));
    assert_eq!(PhaseShape::new(2), Err(ShapeError::DofNotMultipleOfThree));
    assert_eq!(PhaseShape::new(7), Err(ShapeError::DofNotMultipleOfThree));
    assert!(PhaseShape::new(3).is_ok());
    assert_eq!(
        PhaseShape::with_mass(8, MassConvention::PerParticle),
        Err(ShapeError::DofNotMultipleOfThree)
    );
}

#[test]
fn a_shape_with_mass_per_particle() {
    let shape = PhaseShape::with_mass(9, MassConvention::PerParticle).unwrap();
    assert_eq!(shape.mass_len(), 3);
    assert_eq!(shape.mass_slot(2), 2);
    let per_dof = PhaseShape::with_mass(9, MassConvention::PerDof).unwrap();
    assert_eq!(per_dof.mass_len(), 9);
    assert_eq!(per_dof.mass_slot(2), 6);
}

#[test]
fn resizing_a_shape() {
    let mut shape = PhaseShape::new(3).unwrap();
    shape.resize_rigid(2);
    assert_eq!(shape.resize(6), Ok(()));
    assert_eq!(shape, PhaseShape { dof: 6, mass: MassConvention::PerDof, rigid_bodies: 2 });
}

#[test]
fn a_refused_resize_changes_nothing() {
    let mut shape = PhaseShape::with_mass(3, MassConvention::PerParticle).unwrap();
    let before = shape;
    assert_eq!(shape.resize(5), Err(ShapeError::DofNotMultipleOfThree));
    assert_eq!(shape, before);
}

#[test]
fn resizing_the_rigid_bodies() {
    let mut shape = PhaseShape::new(0).unwrap();
    shape.resize_rigid(1);
    assert_eq!(shape, PhaseShape { dof: 0, mass: MassConvention::PerDof, rigid_bodies: 1 });
    shape.resize_rigid(0);
    assert_eq!(shape.rigid_bodies, 0);
}

#[test]
fn coordinate_indices() {
    let shape = PhaseShape::new(9).unwrap();
    assert_eq!(shape.coordinate(0, 0), 0);
    assert_eq!(shape.coordinate(0, 2), 2);
    assert_eq!(shape.coordinate(1, 1), 4);
    assert_eq!(shape.coordinate(2, 2), 8);
}

#[test]
fn shapes_are_recognised_from_lengths() {
    assert_eq!(
        PhaseShape::from_lengths(6, 6, 6, 2, 0, 0, 0),
        Ok(PhaseShape { dof: 6, mass: MassConvention::PerDof, rigid_bodies: 0 })
    );
    assert_eq!(
        PhaseShape::from_lengths(6, 6, 2, 2, 3, 3, 3),
        Ok(PhaseShape { dof: 6, mass: MassConvention::PerParticle, rigid_bodies: 3 })
    );
    assert_eq!(
        PhaseShape::from_lengths(0, 0, 0, 0, 1, 1, 1),
        Ok(PhaseShape { dof: 0, mass: MassConvention::PerDof, rigid_bodies: 1 })
    );
}

#[test]
fn every_shape_error_has_its_lengths() {
    assert_eq!(
        PhaseShape::from_lengths(7, 7, 7, 2, 0, 0, 0),
        Err(ShapeError::DofNotMultipleOfThree)
    );
    assert_eq!(PhaseShape::from_lengths(6, 5, 6, 2, 0, 0, 0), Err(ShapeError::VelocityLength));
    assert_eq!(PhaseShape::from_lengths(6, 6, 5, 2, 0, 0, 0), Err(ShapeError::MassLength));
    assert_eq!(PhaseShape::from_lengths(6, 6, 6, 3, 0, 0, 0), Err(ShapeError::RadiusLength));
    assert_eq!(PhaseShape::from_lengths(6, 6, 6, 2, 1, 0, 1), Err(ShapeError::RigidLength));
    assert_eq!(PhaseShape::from_lengths(6, 6, 6, 2, 1, 1, 2), Err(ShapeError::RigidLength));
}

#[test]
fn the_first_broken_array_is_reported() {
    assert_eq!(
        PhaseShape::from_lengths(4, 5, 9, 9, 1, 2, 3),
        Err(ShapeError::DofNotMultipleOfThree)
    );
    assert_eq!(PhaseShape::from_lengths(3, 5, 9, 9, 1, 2, 3), Err(ShapeError::VelocityLength));
    assert_eq!(PhaseShape::from_lengths(3, 3, 9, 9, 1, 2, 3), Err(ShapeError::MassLength));
    assert_eq!(PhaseShape::from_lengths(3, 3, 1, 9, 1, 2, 3), Err(ShapeError::RadiusLength));
}

#[test]
fn a_fresh_shape_is_recognised_from_its_own_lengths() {
    for dof in [0usize, 3, 6, 300] {
        let shape = PhaseShape::new(dof).unwrap();
        assert_eq!(
            PhaseShape::from_lengths(dof, dof, shape.mass_len(), shape.particles(), 0, 0, 0),
            Ok(shape)
        );
    }
}

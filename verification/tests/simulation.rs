use moo::platform::compute::{ComputeEngine, ComputeError, ParticleBuffer};
use moo::platform::records::Real;
use moo::simulation::{
    lattice_cell, LatticeCell, Simulation, INITIAL_COLUMNS, RESET_COLUMNS, SUBSTEPS_PER_FRAME,
};
use moo::state::{MassConvention, PhaseShape, ShapeError};

#[test]
fn lattice_fills_row_by_row() {
    assert_eq!(lattice_cell(0, 64), LatticeCell { col: 0, row: 0 });
    assert_eq!(lattice_cell(63, 64), LatticeCell { col: 63, row: 0 });
    assert_eq!(lattice_cell(64, 64), LatticeCell { col: 0, row: 1 });
    assert_eq!(lattice_cell(65, 64), LatticeCell { col: 1, row: 1 });
    assert_eq!(lattice_cell(4095, 64), LatticeCell { col: 63, row: 63 });
    assert_eq!(lattice_cell(37, 10), LatticeCell { col: 7, row: 3 });
    assert_eq!(lattice_cell(5, 1), LatticeCell { col: 0, row: 5 });
}

#[test]
fn lattice_cells_are_distinct() {
    let mut seen = Vec::new();
    for i in 0..200 {
        let cell = lattice_cell(i, RESET_COLUMNS);
        assert!(cell.col < RESET_COLUMNS);
        assert_eq!(cell.row * RESET_COLUMNS + cell.col, i);
        assert!(!seen.contains(&cell));
        seen.push(cell);
    }
}

#[test]
fn lattice_constants() {
    assert_eq!(INITIAL_COLUMNS, 64);
    assert_eq!(RESET_COLUMNS, 10);
    assert_eq!(SUBSTEPS_PER_FRAME, 10);
}

#[test]
fn a_new_simulation_is_paused() {
    let sim = Simulation::new(4096);
    assert_eq!(sim.n_particles, 4096);
    assert!(!sim.running);
    assert_eq!(sim.compute, ComputeEngine::new(4096));
    assert_eq!(sim.current_output_buffer(), ParticleBuffer::A);
}

#[test]
fn shape_of_the_particles() {
    let shape = Simulation::new(64).shape().unwrap();
    assert_eq!(shape, PhaseShape { dof: 192, mass: MassConvention::PerDof, rigid_bodies: 0 });
    assert_eq!(shape.particles(), 64);
    assert_eq!(Simulation::new(0).shape().unwrap().dof, 0);
}

#[test]
fn a_paused_simulation_plans_nothing() {
    let mut sim = Simulation::new(64);
    let plans = sim.step(SUBSTEPS_PER_FRAME).unwrap();
    assert!(plans.is_empty());
    assert_eq!(sim, Simulation::new(64));
}

#[test]
fn a_running_simulation_plans_every_substep() {
    let mut sim = Simulation::new(64);
    sim.running = true;
    let plans = sim.step(3).unwrap();
    assert_eq!(plans.len(), 3);
    assert_eq!(plans[0].source, ParticleBuffer::A);
    assert_eq!(plans[1].source, ParticleBuffer::B);
    assert_eq!(plans[2].source, ParticleBuffer::A);
    assert_eq!(plans[2].destination, ParticleBuffer::B);
    assert_eq!(sim.current_output_buffer(), ParticleBuffer::B);
    assert!(sim.running);
}

#[test]
fn ten_substeps_end_where_they_started() {
    let mut sim = Simulation::new(4096);
    sim.running = true;
    let plans = sim.step(SUBSTEPS_PER_FRAME).unwrap();
    assert_eq!(plans.len(), 10);
    assert_eq!(sim.current_output_buffer(), ParticleBuffer::A);
    for plan in &plans {
        assert_eq!(plan.dispatches.len(), 83);
    }
}

#[test]
fn no_substeps_plan_nothing() {
    let mut sim = Simulation::new(100_000);
    sim.running = true;
    assert!(sim.step(0).unwrap().is_empty());
}

#[test]
fn a_simulation_that_cannot_step_says_so_and_stays() {
    let mut sim = Simulation::new(100_000);
    sim.running = true;
    let before = sim;
    assert_eq!(sim.step(2).unwrap_err(), ComputeError::SortScheduleTooLong);
    assert_eq!(sim, before);
    sim.running = false;
    assert!(sim.step(2).unwrap().is_empty());
}

#[test]
fn parameters_go_through_the_engine() {
    let sim = Simulation::new(64);
    let r = |x: f32| Real { bits: x.to_bits() };
    let bytes =
        sim.set_parameters(r(0.005), r(25.0), r(0.01), r(2000.0), r(200.0), r(1.0), r(2.0), true);
    assert_eq!(
        bytes,
        sim.compute.write_params(
            r(0.005),
            r(25.0),
            r(0.01),
            r(2000.0),
            r(200.0),
            r(1.0),
            r(2.0),
            true
        )
    );
    assert_eq!(bytes[40..44], 1u32.to_le_bytes());
}

#[test]
fn reset_uploads_the_state() {
    let sim = Simulation::new(1);
    let r = |x: f32| Real { bits: x.to_bits() };
    let q = vec![r(-50.0), r(100.0), r(0.0)];
    let v = vec![r(0.0); 3];
    let mass = vec![r(1.0); 3];
    let bytes = sim.reset(&q, &v, &mass).unwrap();
    assert_eq!(bytes.len(), 32);
    assert_eq!(bytes[0..4], (-50.0f32).to_le_bytes());
    assert_eq!(bytes[4..8], 100.0f32.to_le_bytes());
    assert_eq!(bytes[12..16], 1.0f32.to_le_bytes());
    assert_eq!(sim.reset(&q[..2], &v, &mass), Err(ShapeError::PositionLength));
}

use moo::platform::records::{
    encode_words, pack_particles, push_word, push_zeros, Real, SimParams, DENSITY_BYTES,
    EMPTY_CELL, GRID_ENTRY_BYTES, OFFSET_BYTES, PARTICLE_BYTES, PARTICLE_WORDS, SIM_PARAMS_BYTES,
};
use moo::state::ShapeError;

fn single(x: f32) -> Real {
    Real { bits: x.to_bits() }
}

fn reals(xs: &[f32]) -> Vec<Real> {
    xs.iter().map(|x| single(*x)).collect()
}

fn floats(words: &[u32]) -> Vec<f32> {
    words.iter().map(|w| f32::from_bits(*w)).collect()
}

#[test]
fn record_sizes() {
    assert_eq!(PARTICLE_BYTES, 32);
    assert_eq!(PARTICLE_WORDS * 4, PARTICLE_BYTES as usize);
    assert_eq!(DENSITY_BYTES, 4);
    assert_eq!(GRID_ENTRY_BYTES, 8);
    assert_eq!(OFFSET_BYTES, 4);
    assert_eq!(SIM_PARAMS_BYTES, 48);
    assert_eq!(SIM_PARAMS_BYTES % 16, 0);
    assert_eq!(PARTICLE_BYTES % 16, 0);
    assert_eq!(EMPTY_CELL, u32::MAX);
}

#[test]
fn words_are_little_endian() {
    let mut out = vec![9u8];
    push_word(&mut out, 0x1234_5678);
    assert_eq!(out, vec![9, 0x78, 0x56, 0x34, 0x12]);
    push_word(&mut out, 0);
    push_word(&mut out, u32::MAX);
    assert_eq!(out[5..], [0, 0, 0, 0, 255, 255, 255, 255]);
}

#[test]
fn words_agree_with_std() {
    for w in [0u32, 1, 255, 256, 65535, 65536, 0x00ff_ff00, 0x8000_0000, u32::MAX, 0xdead_beef] {
        let mut out = Vec::new();
        push_word(&mut out, w);
        assert_eq!(out, w.to_le_bytes());
    }
}

#[test]
fn zeros_are_appended() {
    let mut out = vec![1u8, 2];
    push_zeros(&mut out, 3);
    assert_eq!(out, vec![1, 2, 0, 0, 0]);
    push_zeros(&mut out, 0);
    assert_eq!(out.len(), 5);
}

#[test]
fn encoded_words_keep_their_order() {
    let bytes = encode_words(&vec![1, 0x0200, 0x0003_0000]);
    assert_eq!(bytes, vec![1, 0, 0, 0, 0, 2, 0, 0, 0, 0, 3, 0]);
    assert!(encode_words(&Vec::new()).is_empty());
}

#[test]
fn a_real_carries_its_float() {
    let one = single(1.0);
    assert_eq!(one.bits, 0x3f80_0000);
    assert_eq!(f32::from_bits(one.bits), 1.0);
    assert_eq!(single(0.0).bits, 0);
}

fn sample_params() -> SimParams {
    SimParams {
        dt: single(0.005),
        h: single(25.0),
        rho0: single(0.01),
        stiffness: single(2000.0),
        viscosity: single(200.0),
        count: 4096,
        grid_dim: 16384,
        mouse_x: single(-12.5),
        mouse_y: single(40.0),
        mouse_pressed: true,
    }
}

#[test]
fn parameter_block_words() {
    let w = sample_params().words();
    assert_eq!(w.len(), 12);
    assert_eq!(floats(&w[0..5]), vec![0.005, 25.0, 0.01, 2000.0, 200.0]);
    assert_eq!(w[5], 4096);
    assert_eq!(w[6], 16384);
    assert_eq!(w[7], 0);
    assert_eq!(floats(&w[8..10]), vec![-12.5, 40.0]);
    assert_eq!(w[10], 1);
    assert_eq!(w[11], 0);
}

#[test]
fn parameter_block_bytes() {
    let bytes = sample_params().encode();
    assert_eq!(bytes.len(), 48);
    assert_eq!(bytes[0..4], 0.005f32.to_le_bytes());
    assert_eq!(bytes[4..8], 25.0f32.to_le_bytes());
    assert_eq!(bytes[8..12], 0.01f32.to_le_bytes());
    assert_eq!(bytes[12..16], 2000.0f32.to_le_bytes());
    assert_eq!(bytes[16..20], 200.0f32.to_le_bytes());
    assert_eq!(bytes[20..24], 4096u32.to_le_bytes());
    assert_eq!(bytes[24..28], 16384u32.to_le_bytes());
    assert_eq!(bytes[28..32], [0, 0, 0, 0]);
    assert_eq!(bytes[32..36], (-12.5f32).to_le_bytes());
    assert_eq!(bytes[36..40], 40.0f32.to_le_bytes());
    assert_eq!(bytes[40..44], 1u32.to_le_bytes());
    assert_eq!(bytes[44..48], [0, 0, 0, 0]);
}

#[test]
fn interaction_flag_is_zero_or_one() {
    let mut p = sample_params();
    p.mouse_pressed = false;
    assert_eq!(p.words()[10], 0);
    p.mouse_pressed = true;
    assert_eq!(p.words()[10], 1);
}

#[test]
fn particles_with_mass_per_coordinate() {
    let q = reals(&[1.0, 2.0, 3.0, 4.0, 5.0, 6.0]);
    let v = reals(&[0.1, 0.2, 0.3, 0.4, 0.5, 0.6]);
    let mass = reals(&[7.0, 7.0, 7.0, 9.0, 9.0, 9.0]);
    let words = pack_particles(2, &q, &v, &mass).unwrap();
    assert_eq!(words.len(), 16);
    assert_eq!(floats(&words[0..4]), vec![1.0, 2.0, 3.0, 7.0]);
    assert_eq!(floats(&words[4..7]), vec![0.1, 0.2, 0.3]);
    assert_eq!(words[7], 0);
    assert_eq!(floats(&words[8..12]), vec![4.0, 5.0, 6.0, 9.0]);
    assert_eq!(floats(&words[12..15]), vec![0.4, 0.5, 0.6]);
    assert_eq!(words[15], 0);
}

#[test]
fn particles_with_mass_per_particle() {
    let q = reals(&[1.0, 2.0, 3.0, 4.0, 5.0, 6.0]);
    let v = reals(&[0.0; 6]);
    let mass = reals(&[7.0, 9.0]);
    let words = pack_particles(2, &q, &v, &mass).unwrap();
    assert_eq!(f32::from_bits(words[3]), 7.0);
    assert_eq!(f32::from_bits(words[11]), 9.0);
}

#[test]
fn only_the_first_particles_are_packed() {
    let q = reals(&[1.0, 2.0, 3.0, 4.0, 5.0, 6.0]);
    let v = reals(&[0.0; 6]);
    let mass = reals(&[7.0; 6]);
    let words = pack_particles(1, &q, &v, &mass).unwrap();
    assert_eq!(words.len(), 8);
    assert_eq!(floats(&words[0..4]), vec![1.0, 2.0, 3.0, 7.0]);
}

#[test]
fn no_particles_need_no_arrays() {
    assert_eq!(pack_particles(0, &[], &[], &[]), Ok(Vec::new()));
}

#[test]
fn short_positions_are_refused() {
    let q = reals(&[0.0; 5]);
    let v = reals(&[0.0; 6]);
    let mass = reals(&[1.0; 6]);
    assert_eq!(pack_particles(2, &q, &v, &mass), Err(ShapeError::PositionLength));
}

#[test]
fn short_velocities_are_refused() {
    let q = reals(&[0.0; 6]);
    let v = reals(&[0.0; 5]);
    let mass = reals(&[1.0; 6]);
    assert_eq!(pack_particles(2, &q, &v, &mass), Err(ShapeError::VelocityLength));
}

#[test]
fn short_masses_are_refused() {
    let q = reals(&[0.0; 6]);
    let v = reals(&[0.0; 6]);
    let mass = reals(&[1.0; 1]);
    assert_eq!(pack_particles(2, &q, &v, &mass), Err(ShapeError::MassLength));
    assert_eq!(pack_particles(2, &q, &v, &[]), Err(ShapeError::MassLength));
}

#[test]
fn positions_are_looked_at_before_velocities_and_masses() {
    assert_eq!(pack_particles(1, &[], &[], &[]), Err(ShapeError::PositionLength));
    let q = reals(&[0.0; 3]);
    assert_eq!(pack_particles(1, &q, &[], &[]), Err(ShapeError::VelocityLength));
}

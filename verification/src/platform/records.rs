//! Byte-exact layouts of the records that are uploaded to the GPU.

use vstd::prelude::*;
use crate::state::{MassConvention, ShapeError};

verus! {

/// Size in bytes of one particle record.
pub const PARTICLE_BYTES: u64 = 32;

/// Size in words of one particle record.
pub const PARTICLE_WORDS: usize = 8;

/// Size in bytes of one density entry.
pub const DENSITY_BYTES: u64 = 4;

/// Size in bytes of one grid entry: a cell hash and a particle index.
pub const GRID_ENTRY_BYTES: u64 = 8;

/// Size in bytes of one entry of the cell offset table.
pub const OFFSET_BYTES: u64 = 4;

/// Size in bytes of the simulation parameter block.
pub const SIM_PARAMS_BYTES: u64 = 48;

/// Value that marks a cell of the offset table as empty: all bits set.
pub const EMPTY_CELL: u32 = 0xffff_ffff;

/// A single-precision real number, held as its IEEE-754 bit pattern.
#[derive(Clone, Copy, Debug, PartialEq, Eq, Structural)]
pub struct Real {
    pub bits: u32,
}

/// The parameter block that every kernel reads.
#[derive(Clone, Copy, Debug, PartialEq, Eq, Structural)]
pub struct SimParams {
    /// Time step.
    pub dt: Real,
    /// Smoothing radius.
    pub h: Real,
    /// Rest density.
    pub rho0: Real,
    /// Pressure stiffness.
    pub stiffness: Real,
    /// Viscosity.
    pub viscosity: Real,
    /// Number of particles.
    pub count: u32,
    /// Number of cells of the hash grid.
    pub grid_dim: u32,
    /// Interaction point.
    pub mouse_x: Real,
    pub mouse_y: Real,
    /// Whether the interaction force is switched on.
    pub mouse_pressed: bool,
}

impl SimParams {
    /// The twelve words of the block. Word 7 pads the interaction point to an
    /// 8-byte boundary, word 11 pads the block to a multiple of 16 bytes.
    pub open spec fn spec_words(self) -> Seq<u32> {
        seq![
            self.dt.bits,
            self.h.bits,
            self.rho0.bits,
            self.stiffness.bits,
            self.viscosity.bits,
            self.count,
            self.grid_dim,
            0u32,
            self.mouse_x.bits,
            self.mouse_y.bits,
            if self.mouse_pressed { 1u32 } else { 0u32 },
            0u32,
        ]
    }

    /// The 48 bytes of the block.
    pub open spec fn spec_bytes(self) -> Seq<u8> {
        words_le(self.spec_words())
    }

    /// The words of the block, in upload order.
    pub fn words(&self) -> (w: Vec<u32>)
        ensures
            w@ == self.spec_words(),
    {
        let mut w: Vec<u32> = Vec::new();
        w.push(self.dt.bits);
        w.push(self.h.bits);
        w.push(self.rho0.bits);
        w.push(self.stiffness.bits);
        w.push(self.viscosity.bits);
        w.push(self.count);
        w.push(self.grid_dim);
        w.push(0);
        w.push(self.mouse_x.bits);
        w.push(self.mouse_y.bits);
        w.push(if self.mouse_pressed { 1 } else { 0 });
        w.push(0);
        assert(w@ =~= self.spec_words());
        w
    }

    /// The bytes of the block, as they are uploaded.
    pub fn encode(&self) -> (bytes: Vec<u8>)
        ensures
            bytes@ == self.spec_bytes(),
            bytes@.len() == SIM_PARAMS_BYTES,
    {
        let w = self.words();
        encode_words(&w)
    }
}

/// Where each field of the parameter block lies: five reals, the two
/// counts behind them, the interaction point at byte 32 and the interaction
/// flag at byte 40.
pub proof fn lemma_sim_params_layout(p: SimParams)
    ensures
        p.spec_bytes().len() == 48,
        p.spec_bytes().subrange(0, 4) == le_bytes(p.dt.bits),
        p.spec_bytes().subrange(4, 8) == le_bytes(p.h.bits),
        p.spec_bytes().subrange(8, 12) == le_bytes(p.rho0.bits),
        p.spec_bytes().subrange(12, 16) == le_bytes(p.stiffness.bits),
        p.spec_bytes().subrange(16, 20) == le_bytes(p.viscosity.bits),
        p.spec_bytes().subrange(20, 24) == le_bytes(p.count),
        p.spec_bytes().subrange(24, 28) == le_bytes(p.grid_dim),
        p.spec_bytes().subrange(28, 32) == le_bytes(0),
        p.spec_bytes().subrange(32, 36) == le_bytes(p.mouse_x.bits),
        p.spec_bytes().subrange(36, 40) == le_bytes(p.mouse_y.bits),
        p.spec_bytes().subrange(40, 44) == le_bytes(if p.mouse_pressed { 1u32 } else { 0u32 }),
        p.spec_bytes().subrange(44, 48) == le_bytes(0),
{
    let w = p.spec_words();
    assert(w.len() == 12);
    lemma_word_at(w, 0);
    lemma_word_at(w, 1);
    lemma_word_at(w, 2);
    lemma_word_at(w, 3);
    lemma_word_at(w, 4);
    lemma_word_at(w, 5);
    lemma_word_at(w, 6);
    lemma_word_at(w, 7);
    lemma_word_at(w, 8);
    lemma_word_at(w, 9);
    lemma_word_at(w, 10);
    lemma_word_at(w, 11);
}

/// The eight words of the record of particle `i`: position, mass, velocity
/// and a zero word of padding.
pub open spec fn particle_words(
    q: Seq<Real>,
    v: Seq<Real>,
    mass: Seq<Real>,
    stride: int,
    i: int,
) -> Seq<u32> {
    seq![
        q[3 * i].bits,
        q[3 * i + 1].bits,
        q[3 * i + 2].bits,
        mass[i * stride].bits,
        v[3 * i].bits,
        v[3 * i + 1].bits,
        v[3 * i + 2].bits,
        0u32,
    ]
}

/// The records of the first `count` particles, one after the other. The
/// entry of a particle in the mass array is found by length comparison.
pub open spec fn packed_particles(count: nat, q: Seq<Real>, v: Seq<Real>, mass: Seq<Real>) -> Seq<
    u32,
> {
    Seq::new(
        8 * count,
        |w: int|
            particle_words(
                q,
                v,
                mass,
                MassConvention::spec_of_lengths(q.len(), mass.len()).spec_stride() as int,
                w / 8,
            )[w % 8],
    )
}

/// The record of particle `i` lies at word offset `8 i`, that is at byte
/// offset `32 i`, of the packed state.
pub proof fn lemma_particle_at(count: nat, q: Seq<Real>, v: Seq<Real>, mass: Seq<Real>, i: int)
    requires
        0 <= i < count,
    ensures
        packed_particles(count, q, v, mass).len() == 8 * count,
        words_le(packed_particles(count, q, v, mass)).len() == 32 * count,
        packed_particles(count, q, v, mass).subrange(8 * i, 8 * i + 8) == particle_words(
            q,
            v,
            mass,
            MassConvention::spec_of_lengths(q.len(), mass.len()).spec_stride() as int,
            i,
        ),
{
    let all = packed_particles(count, q, v, mass);
    let stride = MassConvention::spec_of_lengths(q.len(), mass.len()).spec_stride() as int;
    let rec = particle_words(q, v, mass, stride, i);
    assert forall|w: int| 0 <= w < 8 implies all.subrange(8 * i, 8 * i + 8)[w] == rec[w] by {
        let j = 8 * i + w;
        assert(j / 8 == i && j % 8 == w);
        assert(all[j] == particle_words(q, v, mass, stride, j / 8)[j % 8]);
    }
    assert(all.subrange(8 * i, 8 * i + 8) =~= rec);
}

/// Which array, if any, is too short for the first `count` particles to be
/// read from it.
pub open spec fn packing_error(count: nat, q_len: nat, v_len: nat, mass_len: nat) -> Option<
    ShapeError,
> {
    if count == 0 {
        None
    } else if q_len < 3 * count {
        Some(ShapeError::PositionLength)
    } else if v_len < 3 * count {
        Some(ShapeError::VelocityLength)
    } else if mass_len <= (count - 1) * MassConvention::spec_of_lengths(
        q_len,
        mass_len,
    ).spec_stride() {
        Some(ShapeError::MassLength)
    } else {
        None
    }
}

/// Gathers the records of the first `count` particles from the arrays of the
/// phase space.
pub fn pack_particles(count: u32, q: &[Real], v: &[Real], mass: &[Real]) -> (r: Result<
    Vec<u32>,
    ShapeError,
>)
    ensures
        match packing_error(count as nat, q@.len(), v@.len(), mass@.len()) {
            Some(e) => r == Err::<Vec<u32>, ShapeError>(e),
            None => r.is_ok() && r.unwrap()@ == packed_particles(count as nat, q@, v@, mass@),
        },
{
    let mut words: Vec<u32> = Vec::new();
    if count == 0 {
        assert(words@ =~= packed_particles(0, q@, v@, mass@));
        return Ok(words);
    }
    let n = count as usize;
    if q.len() / 3 < n {
        return Err(ShapeError::PositionLength);
    }
    if v.len() / 3 < n {
        return Err(ShapeError::VelocityLength);
    }
    let q_len = q.len();
    let v_len = v.len();
    let stride = MassConvention::of_lengths(q_len, mass.len()).stride();
    if stride == 1 && mass.len() <= n - 1 {
        return Err(ShapeError::MassLength);
    }
    let mut i: usize = 0;
    while i < n
        invariant
            i <= n,
            n == count,
            q_len == q@.len(),
            v_len == v@.len(),
            3 * n <= q_len,
            3 * n <= v_len,
            stride == MassConvention::spec_of_lengths(q@.len(), mass@.len()).spec_stride(),
            (n - 1) * stride < mass@.len(),
            words@ == packed_particles(i as nat, q@, v@, mass@),
        decreases n - i,
    {
        let ghost before = words@;
        assert(i * stride <= (n - 1) * stride) by (nonlinear_arith)
            requires
                i <= n - 1,
                stride >= 0,
        ;
        words.push(q[3 * i].bits);
        words.push(q[3 * i + 1].bits);
        words.push(q[3 * i + 2].bits);
        words.push(mass[i * stride].bits);
        words.push(v[3 * i].bits);
        words.push(v[3 * i + 1].bits);
        words.push(v[3 * i + 2].bits);
        words.push(0);
        i += 1;
        proof {
            let rec = particle_words(q@, v@, mass@, stride as int, i - 1);
            assert(words@ =~= before + rec);
            assert forall|w: int| 0 <= w < 8 * i implies words@[w] == packed_particles(
                i as nat,
                q@,
                v@,
                mass@,
            )[w] by {
                if w < 8 * (i - 1) {
                    assert(words@[w] == before[w]);
                } else {
                    assert(w / 8 == i - 1);
                    assert(w % 8 == w - 8 * (i - 1));
                    assert(words@[w] == rec[w - 8 * (i - 1)]);
                }
            }
            assert(words@ =~= packed_particles(i as nat, q@, v@, mass@));
        }
    }
    Ok(words)
}

/// The four bytes of `w`, least significant first.
pub open spec fn le_bytes(w: u32) -> Seq<u8> {
    seq![
        (w as int % 256) as u8,
        (w as int / 256 % 256) as u8,
        (w as int / 65536 % 256) as u8,
        (w as int / 16777216 % 256) as u8,
    ]
}

/// `n` zero bytes.
pub open spec fn zeros(n: nat) -> Seq<u8> {
    Seq::new(n, |i: int| 0u8)
}

/// The little-endian bytes of every word of `words`, in order.
pub open spec fn words_le(words: Seq<u32>) -> Seq<u8> {
    Seq::new(4 * words.len(), |b: int| le_bytes(words[b / 4])[b % 4])
}

/// The little-endian encoding loses nothing: the word is the sum of its
/// bytes weighted by the powers of 256, so equal bytes mean equal words.
pub proof fn lemma_le_bytes_exact(w: u32)
    ensures
        le_bytes(w).len() == 4,
        w == le_bytes(w)[0] + 256 * le_bytes(w)[1] + 65536 * le_bytes(w)[2] + 16777216 * le_bytes(
            w,
        )[3],
{
}

/// Word `i` of a sequence of words lies at byte offset `4 i` of its encoding.
pub proof fn lemma_word_at(words: Seq<u32>, i: int)
    requires
        0 <= i < words.len(),
    ensures
        words_le(words).len() == 4 * words.len(),
        words_le(words).subrange(4 * i, 4 * i + 4) == le_bytes(words[i]),
{
    let all = words_le(words);
    assert forall|b: int| 0 <= b < 4 implies all.subrange(4 * i, 4 * i + 4)[b] == le_bytes(
        words[i],
    )[b] by {
        let j = 4 * i + b;
        assert(j / 4 == i && j % 4 == b);
        assert(all[j] == le_bytes(words[j / 4])[j % 4]);
    }
    assert(all.subrange(4 * i, 4 * i + 4) =~= le_bytes(words[i]));
}

/// Appends the little-endian bytes of `w` to `out`.
pub fn push_word(out: &mut Vec<u8>, w: u32)
    ensures
        final(out)@ == old(out)@ + le_bytes(w),
{
    let b0: u32 = w & 0xff;
    let b1: u32 = (w >> 8) & 0xff;
    let b2: u32 = (w >> 16) & 0xff;
    let b3: u32 = (w >> 24) & 0xff;
    assert(b0 == w % 256 && b1 == w / 256 % 256 && b2 == w / 65536 % 256 && b3 == w / 16777216
        % 256) by (bit_vector)
        requires
            b0 == w & 0xff,
            b1 == (w >> 8) & 0xff,
            b2 == (w >> 16) & 0xff,
            b3 == (w >> 24) & 0xff,
    ;
    out.push(b0 as u8);
    out.push(b1 as u8);
    out.push(b2 as u8);
    out.push(b3 as u8);
    assert(out@ =~= old(out)@ + le_bytes(w));
}

/// Appends `n` zero bytes to `out`.
pub fn push_zeros(out: &mut Vec<u8>, n: usize)
    ensures
        final(out)@ == old(out)@ + zeros(n as nat),
{
    let mut i: usize = 0;
    while i < n
        invariant
            i <= n,
            out@ == old(out)@ + zeros(i as nat),
        decreases n - i,
    {
        out.push(0u8);
        i += 1;
        assert(out@ =~= old(out)@ + zeros(i as nat));
    }
}

/// Encodes `words` as little-endian bytes.
pub fn encode_words(words: &Vec<u32>) -> (bytes: Vec<u8>)
    ensures
        bytes@ == words_le(words@),
{
    let mut bytes: Vec<u8> = Vec::new();
    let mut i: usize = 0;
    while i < words.len()
        invariant
            i <= words.len(),
            bytes@ == words_le(words@.subrange(0, i as int)),
        decreases words.len() - i,
    {
        let ghost before = bytes@;
        push_word(&mut bytes, words[i]);
        i += 1;
        assert(bytes@ =~= words_le(words@.subrange(0, i as int))) by {
            assert forall|b: int| 0 <= b < 4 * i implies bytes@[b] == le_bytes(
                words@.subrange(0, i as int)[b / 4],
            )[b % 4] by {
                if b < 4 * (i - 1) {
                    assert(bytes@[b] == before[b]);
                    assert(words@.subrange(0, i - 1)[b / 4] == words@[b / 4]);
                } else {
                    assert(b / 4 == i - 1);
                    assert(bytes@[b] == le_bytes(words@[i - 1])[b - 4 * (i - 1)]);
                }
            }
        }
    }
    assert(words@.subrange(0, i as int) =~= words@);
    bytes
}

} // verus!

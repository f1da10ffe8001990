//! The stage schedule of the bitonic sort that orders the neighbour grid.
//!
//! The sort runs on the particle count padded to a power of two. It consists
//! of merge passes with block heights 2, 4, 8, ... up to the padded length;
//! the pass with block height `2^l` has `l` stages whose block widths halve
//! from `2^(l-1)` down to 1. Every stage becomes one record in a uniform
//! buffer, and a dispatch picks its record through a dynamic offset.

use vstd::prelude::*;
use vstd::arithmetic::power2::{
    pow2,
    lemma_pow2_pos,
    lemma_pow2_unfold,
    lemma_pow2_strictly_increases,
    lemma2_to64,
};
use crate::platform::records::{le_bytes, zeros, push_word, push_zeros};

verus! {

/// Byte distance between consecutive stage records in the sort-parameter buffer.
pub const SORT_RECORD_STRIDE: u32 = 256;

/// Number of meaningful bytes at the start of each stage record.
pub const SORT_RECORD_BYTES: u32 = 16;

/// Number of stage records that the sort-parameter buffer has room for.
pub const MAX_SORT_STAGES: u32 = 100;

/// Size in bytes of the sort-parameter buffer: room for 100 stage records.
pub const SORT_PARAMS_BYTES: u64 = 25600;

/// Largest particle count whose padded length still fits in 32 bits.
pub const MAX_SORT_ELEMENTS: u32 = 0x8000_0000;

/// Largest particle count whose schedule fits in the sort-parameter buffer.
pub const MAX_SCHEDULED_ELEMENTS: u32 = 8192;

/// Parameters of one bitonic stage, as the sort kernel reads them.
#[derive(Clone, Copy, Debug, PartialEq, Eq, Structural)]
pub struct SortParams {
    pub num_elements: u32,
    pub block_height: u32,
    pub block_width: u32,
    pub algo: u32,
}

/// Number of doublings that take 1 to the padded length of `count`.
pub open spec fn levels(count: nat) -> nat
    decreases count,
{
    if count <= 1 {
        0
    } else {
        1 + levels((count + 1) / 2)
    }
}

/// `count` rounded up to a power of two, and at least 1.
pub open spec fn padded_len(count: nat) -> nat {
    pow2(levels(count))
}

/// Number of stages in the schedule for `count` elements.
pub open spec fn stage_count(count: nat) -> nat {
    levels(count) * (levels(count) + 1) / 2
}

/// Stage number `step` of the merge pass with block height `2^level`.
pub open spec fn stage(count: u32, level: nat, step: nat) -> SortParams {
    SortParams {
        num_elements: count,
        block_height: pow2(level) as u32,
        block_width: pow2((level - 1 - step) as nat) as u32,
        algo: 0,
    }
}

/// The stages of the merge pass with block height `2^level`.
pub open spec fn merge_pass(count: u32, level: nat) -> Seq<SortParams> {
    Seq::new(level, |step: int| stage(count, level, step as nat))
}

/// The merge passes with block heights `2^1` to `2^m`, in that order.
pub open spec fn passes(count: u32, m: nat) -> Seq<SortParams>
    decreases m,
{
    if m == 0 {
        Seq::empty()
    } else {
        passes(count, (m - 1) as nat) + merge_pass(count, m)
    }
}

/// The whole schedule for `count` elements.
pub open spec fn schedule(count: u32) -> Seq<SortParams> {
    passes(count, levels(count as nat))
}

/// The 256 bytes of one stage record: four little-endian words, then padding.
#[verifier::opaque]
pub open spec fn sort_record(p: SortParams) -> Seq<u8> {
    le_bytes(p.num_elements) + le_bytes(p.block_height) + le_bytes(p.block_width) + le_bytes(
        p.algo,
    ) + zeros(240)
}

/// The sort-parameter buffer: byte `b` is byte `b % 256` of the record of
/// stage `b / 256`.
pub open spec fn sort_records(stages: Seq<SortParams>) -> Seq<u8> {
    Seq::new(256 * stages.len(), |b: int| sort_record(stages[b / 256])[b % 256])
}

/// The padded length is the least power of two that is at least `count`.
pub proof fn lemma_levels_bounds(count: nat)
    ensures
        padded_len(count) >= count,
        padded_len(count) >= 1,
        levels(count) > 0 ==> pow2((levels(count) - 1) as nat) < count,
    decreases count,
{
    lemma2_to64();
    if count > 1 {
        let half = (count + 1) / 2;
        lemma_levels_bounds(half);
        lemma_pow2_unfold(levels(count));
        if levels(half) > 0 {
            lemma_pow2_unfold(levels(half));
        }
    }
}

/// Only one exponent puts `count` between two consecutive powers of two.
pub proof fn lemma_levels_unique(count: nat, m: nat)
    requires
        pow2(m) >= count,
        m > 0 ==> pow2((m - 1) as nat) < count,
    ensures
        m == levels(count),
    decreases m,
{
    lemma2_to64();
    if count <= 1 {
        if m > 0 {
            lemma_pow2_pos((m - 1) as nat);
        }
    } else {
        assert(m > 0);
        let half = (count + 1) / 2;
        lemma_pow2_unfold(m);
        if m - 1 > 0 {
            lemma_pow2_unfold((m - 1) as nat);
        }
        lemma_levels_unique(half, (m - 1) as nat);
    }
}

/// A larger count never needs fewer levels.
pub proof fn lemma_levels_monotonic(a: nat, b: nat)
    requires
        a <= b,
    ensures
        levels(a) <= levels(b),
    decreases b,
{
    if a > 1 {
        lemma_levels_monotonic((a + 1) / 2, (b + 1) / 2);
    }
}

/// `m` merge passes hold `m (m + 1) / 2` stages.
pub proof fn lemma_passes_len(count: u32, m: nat)
    ensures
        passes(count, m).len() == m * (m + 1) / 2,
    decreases m,
{
    if m > 0 {
        let k = (m - 1) as nat;
        lemma_passes_len(count, k);
        assert(passes(count, m).len() == passes(count, k).len() + m);
        assert(m * (m + 1) == k * (k + 1) + 2 * m) by (nonlinear_arith)
            requires
                m == k + 1,
        ;
    } else {
        assert(m * (m + 1) == 0) by (nonlinear_arith)
            requires
                m == 0,
        ;
    }
}

/// Stage `step` of the merge pass with block height `2^level` stands at
/// index `(level - 1) level / 2 + step` of the schedule.
pub proof fn lemma_stage_at(count: u32, m: nat, level: nat, step: nat)
    requires
        1 <= level <= m,
        step < level,
    ensures
        (level - 1) * level / 2 + step < passes(count, m).len(),
        passes(count, m)[(level - 1) * level / 2 + step] == stage(count, level, step),
    decreases m,
{
    let k = (m - 1) as nat;
    lemma_passes_len(count, m);
    lemma_passes_len(count, k);
    assert(k * (k + 1) == (m - 1) * m) by (nonlinear_arith)
        requires
            k == m - 1,
    ;
    if level == m {
        assert(passes(count, m)[(k * (k + 1) / 2 + step) as int] == merge_pass(count, m)[
            step as int
        ]);
    } else {
        lemma_stage_at(count, k, level, step);
        assert((level - 1) * level / 2 + step < passes(count, k).len());
    }
}

/// Every stage of a schedule compares elements that lie `block_width` apart
/// inside blocks of `block_height` elements: both are powers of two, the
/// width is below the height, and the height is at most the padded length.
pub proof fn lemma_stage_shape(count: u32, level: nat, step: nat)
    requires
        count <= MAX_SORT_ELEMENTS,
        1 <= level <= levels(count as nat),
        step < level,
    ensures
        stage(count, level, step).block_height == pow2(level),
        stage(count, level, step).block_width == pow2((level - 1 - step) as nat),
        1 <= stage(count, level, step).block_width < stage(count, level, step).block_height,
        stage(count, level, step).block_height <= padded_len(count as nat) <= MAX_SORT_ELEMENTS,
{
    let l = levels(count as nat);
    lemma2_to64();
    lemma_levels_bounds(count as nat);
    lemma_pow2_pos((level - 1 - step) as nat);
    if l > 31 {
        lemma_pow2_strictly_increases(31, (l - 1) as nat);
    }
    if l < 31 {
        lemma_pow2_strictly_increases(l, 31);
    }
    if level < l {
        lemma_pow2_strictly_increases(level, l);
    }
    lemma_pow2_strictly_increases((level - 1 - step) as nat, level);
}

/// The schedule for a padded length of `2^l` has `l (l + 1) / 2` stages.
pub proof fn lemma_schedule_len(count: u32)
    ensures
        schedule(count).len() == stage_count(count as nat),
{
    lemma_passes_len(count, levels(count as nat));
}

/// The schedule fits the sort-parameter buffer exactly when there are at
/// most 8192 elements.
pub proof fn lemma_stage_budget(count: u32)
    ensures
        stage_count(count as nat) <= MAX_SORT_STAGES <==> count <= MAX_SCHEDULED_ELEMENTS,
{
    lemma2_to64();
    let l = levels(count as nat);
    lemma_levels_bounds(count as nat);
    if count <= 8192 {
        lemma_levels_unique(8192, 13);
        lemma_levels_monotonic(count as nat, 8192);
        assert(l * (l + 1) <= 13 * 14) by (nonlinear_arith)
            requires
                0 <= l <= 13,
        ;
    } else {
        lemma_levels_unique(8193, 14);
        lemma_levels_monotonic(8193, count as nat);
        assert(l * (l + 1) >= 14 * 15) by (nonlinear_arith)
            requires
                l >= 14,
        ;
    }
}

/// A stage record starts with its four words, in field order.
pub proof fn lemma_record_fields(p: SortParams)
    ensures
        sort_record(p).len() == 256,
        sort_record(p).subrange(0, 4) == le_bytes(p.num_elements),
        sort_record(p).subrange(4, 8) == le_bytes(p.block_height),
        sort_record(p).subrange(8, 12) == le_bytes(p.block_width),
        sort_record(p).subrange(12, 16) == le_bytes(p.algo),
        sort_record(p).subrange(16, 256) == zeros(240),
{
    reveal(sort_record);
    let rec = sort_record(p);
    assert(rec.subrange(0, 4) =~= le_bytes(p.num_elements));
    assert(rec.subrange(4, 8) =~= le_bytes(p.block_height));
    assert(rec.subrange(8, 12) =~= le_bytes(p.block_width));
    assert(rec.subrange(12, 16) =~= le_bytes(p.algo));
    assert(rec.subrange(16, 256) =~= zeros(240));
}

/// Stage `i` of a schedule has its record at byte offset `256 * i`, which is
/// the dynamic offset that the dispatch of stage `i` binds.
pub proof fn lemma_record_at(stages: Seq<SortParams>, i: int)
    requires
        0 <= i < stages.len(),
    ensures
        sort_records(stages).len() == 256 * stages.len(),
        sort_records(stages).subrange(256 * i, 256 * i + 256) == sort_record(stages[i]),
{
    let all = sort_records(stages);
    let rec = sort_record(stages[i]);
    lemma_record_fields(stages[i]);
    assert forall|b: int| 0 <= b < 256 implies all.subrange(256 * i, 256 * i + 256)[b]
        == rec[b] by {
        let j = 256 * i + b;
        assert(j / 256 == i && j % 256 == b);
        assert(all[j] == sort_record(stages[j / 256])[j % 256]);
    }
    assert(all.subrange(256 * i, 256 * i + 256) =~= rec);
}

/// Counts the doublings from 1 that reach `count`.
pub fn sort_levels(count: u32) -> (m: u32)
    ensures
        m == levels(count as nat),
        m <= 32,
        count <= MAX_SORT_ELEMENTS ==> m <= 31,
{
    let mut n: u64 = 1;
    let mut m: u32 = 0;
    proof {
        lemma2_to64();
    }
    while n < count as u64
        invariant
            n == pow2(m as nat),
            m <= 32,
            m > 0 ==> pow2((m - 1) as nat) < count,
            n <= 0x1_0000_0000,
        decreases 0x1_0000_0000 - n,
    {
        proof {
            lemma2_to64();
            assert(m < 32);
            lemma_pow2_unfold((m + 1) as nat);
        }
        n = n * 2;
        m = m + 1;
    }
    proof {
        lemma_levels_unique(count as nat, m as nat);
        if count <= MAX_SORT_ELEMENTS && m == 32 {
            lemma2_to64();
            assert(pow2(31) == 0x8000_0000);
        }
    }
    m
}

/// The padded length of `count`.
pub fn next_power_of_two(count: u32) -> (n: u32)
    requires
        count <= MAX_SORT_ELEMENTS,
    ensures
        n == padded_len(count as nat),
        n >= count,
        n >= 1,
{
    let m = sort_levels(count);
    let mut n: u32 = 1;
    let mut i: u32 = 0;
    proof {
        lemma2_to64();
        lemma_levels_bounds(count as nat);
    }
    while i < m
        invariant
            i <= m <= 31,
            n == pow2(i as nat),
        decreases m - i,
    {
        proof {
            lemma_pow2_unfold((i + 1) as nat);
            if i + 1 < 31 {
                lemma_pow2_strictly_increases((i + 1) as nat, 31);
            }
            lemma2_to64();
        }
        n = n * 2;
        i = i + 1;
    }
    n
}

/// Number of stages in the schedule for `count` elements.
pub fn sort_stage_count(count: u32) -> (n: u32)
    ensures
        n == stage_count(count as nat),
        n == schedule(count).len(),
{
    let m = sort_levels(count);
    proof {
        lemma_schedule_len(count);
        assert(m * (m + 1) <= 32 * 33) by (nonlinear_arith)
            requires
                0 <= m <= 32,
        ;
    }
    m * (m + 1) / 2
}

/// Computes the stage schedule for `count` elements.
pub fn sort_schedule(count: u32) -> (stages: Vec<SortParams>)
    requires
        count <= MAX_SORT_ELEMENTS,
    ensures
        stages@ == schedule(count),
        stages@.len() == stage_count(count as nat),
{
    let m = sort_levels(count);
    let mut stages: Vec<SortParams> = Vec::new();
    let mut level: u32 = 0;
    let mut height: u32 = 1;
    proof {
        lemma2_to64();
    }
    while level < m
        invariant
            level <= m <= 31,
            height == pow2(level as nat),
            stages@ == passes(count, level as nat),
        decreases m - level,
    {
        proof {
            lemma_pow2_unfold((level + 1) as nat);
            if level + 1 < 31 {
                lemma_pow2_strictly_increases((level + 1) as nat, 31);
            }
            lemma2_to64();
        }
        let mut width: u32 = height;
        height = height * 2;
        level = level + 1;
        let mut step: u32 = 0;
        let ghost done = stages@;
        while width > 0
            invariant
                1 <= level <= 31,
                step <= level,
                height == pow2(level as nat),
                step < level ==> width == pow2((level - 1 - step) as nat),
                step == level ==> width == 0,
                done == passes(count, (level - 1) as nat),
                stages@ == done + merge_pass(count, level as nat).subrange(0, step as int),
            decreases width,
        {
            proof {
                lemma_pow2_pos((level - 1 - step) as nat);
            }
            stages.push(
                SortParams {
                    num_elements: count,
                    block_height: height,
                    block_width: width,
                    algo: 0,
                },
            );
            proof {
                if step + 1 < level {
                    lemma_pow2_unfold((level - 1 - step) as nat);
                } else {
                    lemma2_to64();
                }
                assert(stages@ =~= done + merge_pass(count, level as nat).subrange(
                    0,
                    step + 1,
                ));
            }
            width = width / 2;
            step = step + 1;
        }
        proof {
            lemma_pow2_pos((level - 1 - step) as nat);
            assert(step == level);
            assert(merge_pass(count, level as nat).subrange(0, step as int) =~= merge_pass(
                count,
                level as nat,
            ));
        }
    }
    proof {
        lemma_schedule_len(count);
    }
    stages
}

/// Lays the stage records out for upload: one record every 256 bytes.
pub fn encode_sort_params(stages: &Vec<SortParams>) -> (bytes: Vec<u8>)
    ensures
        bytes@ == sort_records(stages@),
        bytes@.len() == 256 * stages@.len(),
{
    let mut bytes: Vec<u8> = Vec::new();
    let mut i: usize = 0;
    while i < stages.len()
        invariant
            i <= stages.len(),
            bytes@ == sort_records(stages@.subrange(0, i as int)),
        decreases stages.len() - i,
    {
        let ghost before = bytes@;
        let p = stages[i];
        push_word(&mut bytes, p.num_elements);
        push_word(&mut bytes, p.block_height);
        push_word(&mut bytes, p.block_width);
        push_word(&mut bytes, p.algo);
        push_zeros(&mut bytes, 240);
        i += 1;
        proof {
            reveal(sort_record);
            assert(bytes@ =~= before + sort_record(p));
            assert(sort_record(p).len() == 256);
            let prefix = stages@.subrange(0, i as int);
            assert forall|b: int| 0 <= b < 256 * i implies bytes@[b] == sort_record(
                prefix[b / 256],
            )[b % 256] by {
                if b < 256 * (i - 1) {
                    assert(bytes@[b] == before[b]);
                    assert(stages@.subrange(0, i - 1)[b / 256] == prefix[b / 256]);
                } else {
                    assert(b / 256 == i - 1);
                    assert(b % 256 == b - 256 * (i - 1));
                    assert(bytes@[b] == sort_record(p)[b - 256 * (i - 1)]);
                }
            }
            assert(bytes@ =~= sort_records(prefix));
        }
    }
    assert(stages@.subrange(0, i as int) =~= stages@);
    bytes
}

/// Byte offset of the record of stage `index`.
pub fn stage_offset(index: u32) -> (offset: u32)
    requires
        256 * index <= u32::MAX,
    ensures
        offset == 256 * index,
{
    index * SORT_RECORD_STRIDE
}

} // verus!

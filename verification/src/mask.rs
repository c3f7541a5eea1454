//! Affinity mask calculation: a set of logical CPU indices becomes a
//! platform bitmask of a given word width. Indices at or above the width
//! are dropped and reported, never folded into other bits; a mask with no
//! bit set at all is an error, since no usable CPU would remain.

use vstd::prelude::*;

verus! {

/// Failure of the mask calculation.
#[derive(Clone, Copy, Debug, PartialEq, Eq, Structural)]
pub enum MaskError {
    /// Every requested index lay outside the platform word, so the mask
    /// came out zero and no usable CPU remained.
    InvalidMask,
}

/// Whether CPU index `i` lies inside a word of `width` bits.
pub open spec fn in_word(i: usize, width: u32) -> bool {
    (i as int) < (width as int)
}

/// The mask of a CPU-index sequence: the OR of `1 << i` over every entry
/// `i` that lies inside the word; entries outside contribute nothing.
pub open spec fn spec_mask(cpus: Seq<usize>, width: u32) -> u64
    decreases cpus.len(),
{
    if cpus.len() == 0 {
        0u64
    } else {
        let rest = spec_mask(cpus.drop_last(), width);
        if in_word(cpus.last(), width) {
            rest | (1u64 << (cpus.last() as u64))
        } else {
            rest
        }
    }
}

/// Bit `j` of the mask is set exactly when `j` occurs in the input and lies
/// inside the word: out-of-range indices never appear in the mask and never
/// corrupt other bits.
pub proof fn lemma_mask_bit(cpus: Seq<usize>, width: u32, j: usize)
    requires
        width <= 64,
        j < 64,
    ensures
        (spec_mask(cpus, width) & (1u64 << (j as u64)) != 0) <==> (cpus.contains(j) && in_word(
            j,
            width,
        )),
    decreases cpus.len(),
{
    if cpus.len() == 0 {
        assert(0u64 & (1u64 << (j as u64)) == 0) by (bit_vector);
        assert(!cpus.contains(j));
    } else {
        let front = cpus.drop_last();
        let last = cpus.last();
        let m = spec_mask(front, width);
        lemma_mask_bit(front, width, j);
        assert(cpus.contains(j) <==> (front.contains(j) || last == j)) by {
            assert(cpus =~= front.push(last));
            vstd::seq_lib::lemma_seq_contains_after_push(front, last, j);
        }
        if in_word(last, width) {
            let l = last as u64;
            let jj = j as u64;
            assert((m | (1u64 << l)) & (1u64 << jj) != 0 <==> (m & (1u64 << jj) != 0 || l == jj))
                by (bit_vector)
                requires
                    l < 64 && jj < 64,
            ;
        }
    }
}

/// If every index of the input lies outside the word, the mask is zero.
pub proof fn lemma_all_outside_mask_zero(cpus: Seq<usize>, width: u32)
    requires
        forall|k: int| 0 <= k < cpus.len() ==> !in_word(#[trigger] cpus[k], width),
    ensures
        spec_mask(cpus, width) == 0,
    decreases cpus.len(),
{
    if cpus.len() > 0 {
        lemma_all_outside_mask_zero(cpus.drop_last(), width);
    }
}

/// A successful mask calculation: the mask itself together with the indices
/// that were dropped for lying outside the word, reported so the caller can
/// warn about them.
#[derive(Clone, Debug)]
pub struct MaskComputation {
    pub mask: u64,
    pub ignored: Vec<usize>,
}

/// Compute the affinity mask of `cpus` for a word of `width` bits.
///
/// Returns the mask and the dropped indices, or `InvalidMask` when no
/// requested index lay inside the word and the mask would be zero.
pub fn compute_mask(cpus: &Vec<usize>, width: u32) -> (r: Result<MaskComputation, MaskError>)
    requires
        1 <= width <= 64,
    ensures
        match r {
            Ok(c) => c.mask == spec_mask(cpus@, width) && c.mask != 0 && c.ignored@ == cpus@.filter(
                |i: usize| !in_word(i, width),
            ),
            Err(e) => e == MaskError::InvalidMask && spec_mask(cpus@, width) == 0,
        },
{
    broadcast use Seq::lemma_filter_push;

    let ghost out_of_word = |i: usize| !in_word(i, width);
    let mut mask: u64 = 0;
    let mut ignored: Vec<usize> = Vec::new();
    let mut k: usize = 0;
    proof {
        assert(cpus@.subrange(0, 0).filter(out_of_word) =~= Seq::<usize>::empty());
    }
    while k < cpus.len()
        invariant
            k <= cpus@.len(),
            1 <= width <= 64,
            mask == spec_mask(cpus@.subrange(0, k as int), width),
            ignored@ == cpus@.subrange(0, k as int).filter(out_of_word),
            out_of_word == (|i: usize| !in_word(i, width)),
        decreases cpus@.len() - k,
    {
        let cpu = cpus[k];
        proof {
            assert(cpus@.subrange(0, k + 1).drop_last() =~= cpus@.subrange(0, k as int));
            assert(cpus@.subrange(0, k + 1) =~= cpus@.subrange(0, k as int).push(cpu));
        }
        if cpu < width as usize {
            mask = mask | (1u64 << cpu);
        } else {
            ignored.push(cpu);
        }
        proof {
            let prefix = cpus@.subrange(0, k as int);
            prefix.lemma_filter_push(cpu, out_of_word);
            assert(prefix.push(cpu).filter(out_of_word) == if out_of_word(cpu) {
                prefix.filter(out_of_word).push(cpu)
            } else {
                prefix.filter(out_of_word)
            });
        }
        k = k + 1;
    }
    proof {
        assert(cpus@.subrange(0, cpus@.len() as int) =~= cpus@);
    }
    if mask == 0 {
        Err(MaskError::InvalidMask)
    } else {
        Ok(MaskComputation { mask, ignored })
    }
}

} // verus!

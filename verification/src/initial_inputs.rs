//! Seed inputs for the fuzzer, sliced out of reference firmware images:
//! the bytes each configured input window covers, concatenated in window
//! order, form one seed.

use vstd::prelude::*;

verus! {

/// Mask selecting the offset of a flash address within the image file.
pub const FLASH_OFFSET_MASK: u32 = 0x00ff_ffff;

/// The seed bytes extracted from an image: for each window in declared
/// order, the window's size in bytes starting at the window address's
/// offset within the image.
pub open spec fn spec_seed_image(image: Seq<u8>, mem: Seq<(u32, usize)>) -> Seq<u8>
    decreases mem.len(),
{
    if mem.len() == 0 {
        Seq::empty()
    } else {
        spec_seed_image(image, mem.drop_last()) + image.subrange(
            (mem.last().0 & FLASH_OFFSET_MASK) as int,
            (mem.last().0 & FLASH_OFFSET_MASK) + mem.last().1,
        )
    }
}

/// Generator of seed inputs from reference images.
pub struct InitialInput {}

impl InitialInput {
    /// Creates a generator.
    pub fn new() -> Self {
        InitialInput {}
    }

    /// Slices one seed input out of a reference image. Every window must
    /// lie inside the flash and its offset range inside the image, and the
    /// windows' sizes must sum to the configured total, which is exactly
    /// the length of the extracted seed.
    pub fn extract_seed_image(
        &self,
        image: &Vec<u8>,
        input_mem: &Vec<(u32, usize)>,
        flash_size: u32,
        input_total_size: usize,
    ) -> (r: Vec<u8>)
        requires
            crate::harness::spec_sum_sizes(input_mem@) == input_total_size,
            forall|i: int|
                #![trigger input_mem@[i]]
                0 <= i < input_mem@.len() ==> input_mem@[i].0 < flash_size && input_mem@[i].1
                    < flash_size,
            forall|i: int|
                #![trigger input_mem@[i]]
                0 <= i < input_mem@.len() ==> (input_mem@[i].0 & FLASH_OFFSET_MASK)
                    + input_mem@[i].1 <= image@.len(),
        ensures
            r@ == spec_seed_image(image@, input_mem@),
            r@.len() == input_total_size,
    {
        let mut r: Vec<u8> = Vec::new();
        let mut i: usize = 0;
        proof {
            assert(input_mem@.take(0) =~= Seq::<(u32, usize)>::empty());
        }
        while i < input_mem.len()
            invariant
                0 <= i <= input_mem@.len(),
                r@ == spec_seed_image(image@, input_mem@.take(i as int)),
                r@.len() == crate::harness::spec_sum_sizes(input_mem@.take(i as int)),
            decreases input_mem@.len() - i,
        {
            let (addr, size) = input_mem[i];
            let start = (addr & FLASH_OFFSET_MASK) as usize;
            proof {
                assert(input_mem@.take(i + 1).drop_last() =~= input_mem@.take(i as int));
                assert(input_mem@.take(i + 1).last() == input_mem@[i as int]);
            }
            let ghost pre = r@;
            let mut k: usize = 0;
            while k < size
                invariant
                    0 <= k <= size,
                    start + size <= image@.len(),
                    r@ == pre + image@.subrange(start as int, start + k),
                decreases size - k,
            {
                let n = image.len();
                proof {
                    assert(start + k < n);
                }
                r.push(image[start + k]);
                proof {
                    assert(image@.subrange(start as int, start + k + 1) =~= image@.subrange(
                        start as int,
                        start + k,
                    ).push(image@[start + k]));
                    assert(r@ =~= pre + image@.subrange(start as int, start + k + 1));
                }
                k = k + 1;
            }
            i = i + 1;
        }
        proof {
            assert(input_mem@.take(input_mem@.len() as int) =~= input_mem@);
        }
        r
    }
}

} // verus!

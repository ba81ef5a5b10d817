//! Pixel interleaving: combine two equal-length flat pixel byte sequences
//! by alternating four-byte channel groups between the two sources.

use vstd::prelude::*;

verus! {

/// True when the byte at offset `i` belongs to a four-byte group taken from
/// the first source. Groups start at offsets 0, 4, 8, ...; a group starting
/// at a multiple of 8 comes from the first source, the rest from the second,
/// so a byte comes from the first source exactly when its offset modulo 8 is
/// below 4.
pub open spec fn from_first_source(i: int) -> bool {
    i % 8 < 4
}

/// The combined byte sequence: as long as the first source, each byte drawn
/// from the source that owns the four-byte group at its offset.
pub open spec fn interleave_spec(a: Seq<u8>, b: Seq<u8>) -> Seq<u8>
    recommends
        a.len() == b.len(),
{
    Seq::new(a.len(), |i: int| if from_first_source(i) { a[i] } else { b[i] })
}

/// Extracts the channel group `vec[start..=end]` as a fresh vector.
/// Out-of-range reads are excluded up front: they would be unrecoverable
/// internal faults, not expected inputs.
pub fn set_rgba(vec: &Vec<u8>, start: usize, end: usize) -> (r: Vec<u8>)
    requires
        start <= end,
        end < vec@.len(),
    ensures
        r@ == vec@.subrange(start as int, end + 1),
{
    let mut rgba: Vec<u8> = Vec::new();
    let n: usize = vec.len();
    let mut i: usize = start;
    while i <= end
        invariant
            start <= i <= end + 1,
            end < n,
            n == vec@.len(),
            rgba@ == vec@.subrange(start as int, i as int),
        decreases end + 1 - i,
    {
        let val: u8 = vec[i];
        rgba.push(val);
        proof {
            assert(rgba@ =~= vec@.subrange(start as int, i + 1));
        }
        i = i + 1;
    }
    rgba
}

/// Walks the output in strides of four bytes; the group at offset `i` is
/// read from the first input when `i` is a multiple of 8 and from the
/// second otherwise. The output is exactly as long as the first input.
/// The inputs must have equal lengths divisible by four: a trailing partial
/// group would force a read past the end of a source buffer.
pub fn alternate_pixels(vec_1: Vec<u8>, vec_2: Vec<u8>) -> (r: Vec<u8>)
    requires
        vec_1@.len() == vec_2@.len(),
        vec_1@.len() % 4 == 0,
    ensures
        r@.len() == vec_1@.len(),
        r@ == interleave_spec(vec_1@, vec_2@),
{
    let mut combined_data: Vec<u8> = Vec::new();

    let mut i: usize = 0;
    while i < vec_1.len()
        invariant
            vec_1@.len() == vec_2@.len(),
            vec_1@.len() % 4 == 0,
            i % 4 == 0,
            i <= vec_1@.len(),
            combined_data@ == interleave_spec(vec_1@, vec_2@).subrange(0, i as int),
        decreases vec_1@.len() - i,
    {
        assert(i + 4 <= vec_1@.len());
        let group = if i % 8 == 0 {
            set_rgba(&vec_1, i, i + 3)
        } else {
            set_rgba(&vec_2, i, i + 3)
        };
        let mut j: usize = 0;
        while j < 4
            invariant
                j <= 4,
                i % 4 == 0,
                i + 4 <= vec_1@.len(),
                vec_1@.len() == vec_2@.len(),
                group@.len() == 4,
                forall|k: int| 0 <= k < 4 ==> group@[k] == interleave_spec(vec_1@, vec_2@)[i + k],
                combined_data@ == interleave_spec(vec_1@, vec_2@).subrange(0, i + j),
            decreases 4 - j,
        {
            combined_data.push(group[j]);
            proof {
                assert(combined_data@ =~= interleave_spec(vec_1@, vec_2@).subrange(0, i + j + 1));
            }
            j = j + 1;
        }
        i = i + 4;
    }
    proof {
        assert(combined_data@ =~= interleave_spec(vec_1@, vec_2@));
    }
    combined_data
}

} // verus!

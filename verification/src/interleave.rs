use vstd::prelude::*;
use crate::errors::ImageDataErrors;

verus! {

/// The byte sequence formed by alternating 4-byte chunks of `a` and `b`:
/// bytes whose index falls in an even 4-byte chunk (index `i` with
/// `i % 8 < 4`) come from `a`, the others from `b`.
pub open spec fn interleaved(a: Seq<u8>, b: Seq<u8>) -> Seq<u8>
    recommends
        a.len() == b.len(),
{
    Seq::new(a.len(), |i: int| if i % 8 < 4 { a[i] } else { b[i] })
}

/// Whether two pixel buffers may be interleaved: equal lengths, and a
/// length that is a whole number of 4-byte pixel units.
pub open spec fn interleavable(a: Seq<u8>, b: Seq<u8>) -> bool {
    a.len() == b.len() && a.len() % 4 == 0
}

/// Copies the bytes of `vec` in the half-open index range `[start, end)`
/// into a fresh vector.
pub fn set_rgba(vec: &Vec<u8>, start: usize, end: usize) -> (r: Vec<u8>)
    requires
        start <= end <= vec@.len(),
    ensures
        r@ == vec@.subrange(start as int, end as int),
{
    let mut rgba: Vec<u8> = Vec::new();
    let mut i: usize = start;
    while i < end
        invariant
            start <= i <= end <= vec@.len(),
            rgba@ == vec@.subrange(start as int, i as int),
        decreases end - i,
    {
        rgba.push(vec[i]);
        i = i + 1;
        proof {
            assert(rgba@ =~= vec@.subrange(start as int, i as int));
        }
    }
    rgba
}

/// Interleaves two equal-length, 4-byte-aligned pixel buffers into one
/// combined buffer of the same length, alternating 4-byte chunks: chunks at
/// offsets that are multiples of 8 come from `vec_1`, the others from
/// `vec_2`. Buffers that are not equal-length and 4-byte-aligned are
/// rejected up front with an out-of-bounds error; nothing is read from them.
pub fn alternate_pixels(vec_1: Vec<u8>, vec_2: Vec<u8>) -> (r: Result<Vec<u8>, ImageDataErrors>)
    ensures
        r is Ok <==> interleavable(vec_1@, vec_2@),
        r matches Ok(c) ==> c@ == interleaved(vec_1@, vec_2@),
        !interleavable(vec_1@, vec_2@) ==> r == Err::<Vec<u8>, ImageDataErrors>(
            ImageDataErrors::OutOfBounds,
        ),
{
    if vec_1.len() != vec_2.len() || vec_1.len() % 4 != 0 {
        return Err(ImageDataErrors::OutOfBounds);
    }
    let ghost goal: Seq<u8> = interleaved(vec_1@, vec_2@);
    let mut combined_data: Vec<u8> = Vec::new();
    let mut i: usize = 0;
    while i < vec_1.len()
        invariant
            i <= vec_1@.len(),
            i % 4 == 0,
            vec_1@.len() == vec_2@.len(),
            vec_1@.len() % 4 == 0,
            goal == interleaved(vec_1@, vec_2@),
            combined_data@ == goal.subrange(0, i as int),
        decreases vec_1@.len() - i,
    {
        assert(i + 4 <= vec_1@.len());
        let mut chunk: Vec<u8>;
        if i % 8 == 0 {
            chunk = set_rgba(&vec_1, i, i + 4);
            assert forall|j: int| i <= j < i + 4 implies goal[j] == vec_1@[j] by {
                assert(j % 8 == j - i) by (nonlinear_arith)
                    requires
                        i % 8 == 0,
                        i <= j < i + 4,
                ;
            }
        } else {
            chunk = set_rgba(&vec_2, i, i + 4);
            assert(i % 8 == 4) by (nonlinear_arith)
                requires
                    i % 4 == 0,
                    i % 8 != 0,
                    i >= 0,
            ;
            assert forall|j: int| i <= j < i + 4 implies goal[j] == vec_2@[j] by {
                assert(j % 8 == 4 + (j - i)) by (nonlinear_arith)
                    requires
                        i % 8 == 4,
                        i <= j < i + 4,
                ;
            }
        }
        combined_data.append(&mut chunk);
        i = i + 4;
        proof {
            assert(combined_data@ =~= goal.subrange(0, i as int));
        }
    }
    proof {
        assert(combined_data@ =~= goal);
    }
    Ok(combined_data)
}

/// For all equal-length 4-byte-aligned buffers `a` and `b`: the interleaved
/// result has the length of `a`, and for every chunk index `k`, 4-byte chunk
/// `k` of the result equals chunk `k` of `a` when `k` is even and chunk `k`
/// of `b` when `k` is odd.
pub proof fn lemma_interleaved_chunks(a: Seq<u8>, b: Seq<u8>, k: int)
    requires
        a.len() == b.len(),
        a.len() % 4 == 0,
        0 <= k,
        4 * k + 4 <= a.len(),
    ensures
        interleaved(a, b).len() == a.len(),
        k % 2 == 0 ==> interleaved(a, b).subrange(4 * k, 4 * k + 4) == a.subrange(
            4 * k,
            4 * k + 4,
        ),
        k % 2 == 1 ==> interleaved(a, b).subrange(4 * k, 4 * k + 4) == b.subrange(
            4 * k,
            4 * k + 4,
        ),
{
    if k % 2 == 0 {
        assert forall|j: int| 4 * k <= j < 4 * k + 4 implies interleaved(a, b)[j] == a[j] by {
            assert(j % 8 == j - 4 * k) by (nonlinear_arith)
                requires
                    k % 2 == 0,
                    0 <= k,
                    4 * k <= j < 4 * k + 4,
            ;
        }
        assert(interleaved(a, b).subrange(4 * k, 4 * k + 4) =~= a.subrange(4 * k, 4 * k + 4));
    } else {
        assert forall|j: int| 4 * k <= j < 4 * k + 4 implies interleaved(a, b)[j] == b[j] by {
            assert(j % 8 == 4 + (j - 4 * k)) by (nonlinear_arith)
                requires
                    k % 2 == 1,
                    0 <= k,
                    4 * k <= j < 4 * k + 4,
            ;
        }
        assert(interleaved(a, b).subrange(4 * k, 4 * k + 4) =~= b.subrange(4 * k, 4 * k + 4));
    }
}

} // verus!

//! Merging of two RGBA byte buffers by alternating their pixels.

use vstd::prelude::*;

verus! {

/// Bytes in one RGBA pixel.
pub const PIXEL_BYTES: usize = 4;

/// Whether the byte at offset `i` of a merged buffer comes from the first
/// source: it does when the pixel that holds it has an even index.
pub open spec fn from_first(i: int) -> bool {
    (i / 4) % 2 == 0
}

/// The merge of `a` and `b`: as long as `a`, with every byte taken at its own
/// offset from `a` where the pixel index is even, and from `b` where it is odd.
pub open spec fn interleaved(a: Seq<u8>, b: Seq<u8>) -> Seq<u8> {
    Seq::new(
        a.len(),
        |i: int|
            if from_first(i) {
                a[i]
            } else {
                b[i]
            },
    )
}

/// The bytes of `bytes` at the offsets `start..=end`, none where `start > end`.
pub open spec fn inclusive_range(bytes: Seq<u8>, start: int, end: int) -> Seq<u8> {
    if start <= end {
        bytes.subrange(start, end + 1)
    } else {
        Seq::empty()
    }
}

/// Copies the bytes at the offsets `start..=end` out of `vec`.
///
/// A range that reaches past the end of `vec` is a broken invariant of the
/// caller, so it is excluded here; an empty range (`start > end`) reads nothing.
pub fn set_rgba(vec: &Vec<u8>, start: usize, end: usize) -> (rgba: Vec<u8>)
    requires
        start <= end ==> end < vec.len(),
    ensures
        rgba@ == inclusive_range(vec@, start as int, end as int),
{
    let mut rgba: Vec<u8> = Vec::new();
    if start > end {
        return rgba;
    }
    let mut i: usize = start;
    while i <= end
        invariant
            start <= i <= end + 1,
            end < vec.len(),
            rgba@ == vec@.subrange(start as int, i as int),
        decreases end + 1 - i,
    {
        rgba.push(vec[i]);
        assert(rgba@ == vec@.subrange(start as int, i + 1));
        i += 1;
    }
    rgba
}

/// Overwrites the bytes of `dest` from offset `start` on with those of `group`.
fn put_group(dest: &mut Vec<u8>, start: usize, group: &Vec<u8>)
    requires
        start + group.len() <= old(dest).len(),
    ensures
        final(dest).len() == old(dest).len(),
        forall|j: int|
            0 <= j < old(dest).len() ==> final(dest)@[j] == if start <= j < start + group.len() {
                group@[j - start]
            } else {
                old(dest)@[j]
            },
{
    let mut k: usize = 0;
    while k < group.len()
        invariant
            k <= group.len(),
            dest.len() == old(dest).len(),
            start + group.len() <= dest.len(),
            forall|j: int|
                0 <= j < dest.len() ==> dest@[j] == if start <= j < start + k {
                    group@[j - start]
                } else {
                    old(dest)@[j]
                },
        decreases group.len() - k,
    {
        dest[start + k] = group[k];
        k += 1;
    }
}

/// Merges two RGBA buffers of one length into a buffer of that length, pixel
/// by pixel: the pixels with an even index come from `vec_1`, those with an
/// odd index from `vec_2`, each at the offset it had in its source.
///
/// Both buffers must hold whole pixels of one image size; anything else is
/// malformed pixel data and is excluded.
pub fn alternate_pixels(vec_1: Vec<u8>, vec_2: Vec<u8>) -> (combined: Vec<u8>)
    requires
        vec_1.len() == vec_2.len(),
        vec_1.len() % PIXEL_BYTES == 0,
    ensures
        combined@ == interleaved(vec_1@, vec_2@),
{
    let mut combine_data: Vec<u8> = vec![0u8; vec_1.len()];
    let mut i: usize = 0;
    while i < vec_1.len()
        invariant
            i <= vec_1.len(),
            i % 4 == 0,
            vec_1.len() == vec_2.len(),
            vec_1.len() % 4 == 0,
            combine_data.len() == vec_1.len(),
            forall|j: int| 0 <= j < i ==> combine_data@[j] == interleaved(vec_1@, vec_2@)[j],
        decreases vec_1.len() - i,
    {
        if i % 8 == 0 {
            let rgba = set_rgba(&vec_1, i, i + 3);
            put_group(&mut combine_data, i, &rgba);
        } else {
            let rgba = set_rgba(&vec_2, i, i + 3);
            put_group(&mut combine_data, i, &rgba);
        }
        i += 4;
    }
    assert(combine_data@ =~= interleaved(vec_1@, vec_2@));
    combine_data
}

/// Each whole pixel of a merge is the pixel at the same offset of one source:
/// of `a` where the pixel index `i / 4` is even, of `b` where it is odd.
pub proof fn lemma_interleaved_pixel(a: Seq<u8>, b: Seq<u8>, i: int)
    requires
        a.len() == b.len(),
        0 <= i,
        i % 4 == 0,
        i + 4 <= a.len(),
    ensures
        (i / 4) % 2 == 0 ==> interleaved(a, b).subrange(i, i + 4) == a.subrange(i, i + 4),
        (i / 4) % 2 != 0 ==> interleaved(a, b).subrange(i, i + 4) == b.subrange(i, i + 4),
{
    if (i / 4) % 2 == 0 {
        assert(interleaved(a, b).subrange(i, i + 4) =~= a.subrange(i, i + 4));
    } else {
        assert(interleaved(a, b).subrange(i, i + 4) =~= b.subrange(i, i + 4));
    }
}

/// Merging is not commutative: two different buffers of one length never give
/// the same merge in both orders.
pub proof fn lemma_interleaved_not_commutative(a: Seq<u8>, b: Seq<u8>)
    requires
        a.len() == b.len(),
        a != b,
    ensures
        interleaved(a, b) != interleaved(b, a),
{
    if interleaved(a, b) == interleaved(b, a) {
        assert forall|j: int| 0 <= j < a.len() implies a[j] == b[j] by {
            assert(interleaved(a, b)[j] == interleaved(b, a)[j]);
        }
        assert(a =~= b);
    }
}

} // verus!

//! Vector utilities shared by the evaluation step of training: selecting the
//! leftmost maximum of a vector, and an order key for single-precision bit
//! patterns so that such vectors can be compared as plain unsigned values.

use vstd::prelude::*;

verus! {

/// Index of the leftmost maximum of a sequence; `0` for the empty sequence.
pub open spec fn leftmost_max_index(s: Seq<u32>) -> int
    decreases s.len(),
{
    if s.len() <= 1 {
        0
    } else {
        let prefix = leftmost_max_index(s.drop_last());
        if s.last() > s[prefix] {
            s.len() - 1
        } else {
            prefix
        }
    }
}

/// The leftmost maximum is a position of a largest element, and every
/// position before it holds a strictly smaller element. In particular, a
/// unique maximum is always selected, and of two equal maxima the lower
/// index wins.
pub proof fn lemma_leftmost_max_index(s: Seq<u32>)
    requires
        s.len() > 0,
    ensures
        0 <= leftmost_max_index(s) < s.len(),
        forall|i: int| 0 <= i < s.len() ==> #[trigger] s[i] <= s[leftmost_max_index(s)],
        forall|i: int| 0 <= i < leftmost_max_index(s) ==> #[trigger] s[i] < s[leftmost_max_index(s)],
    decreases s.len(),
{
    if s.len() > 1 {
        lemma_leftmost_max_index(s.drop_last());
        assert(forall|i: int| 0 <= i < s.len() - 1 ==> s.drop_last()[i] == s[i]);
    }
}

/// Index of a largest value of the vector, the leftmost one when several
/// positions hold it; `0` when the vector is empty.
pub fn max_index(nets: &Vec<u32>) -> (r: usize)
    ensures
        r == leftmost_max_index(nets@),
{
    if nets.len() == 0 {
        return 0;
    }
    let mut index: usize = 0;
    let mut i: usize = 1;
    while i < nets.len()
        invariant
            1 <= i <= nets@.len(),
            index < i,
            index == leftmost_max_index(nets@.take(i as int)),
        decreases nets@.len() - i,
    {
        assert(nets@.take(i + 1).drop_last() =~= nets@.take(i as int));
        if nets[i] > nets[index] {
            index = i;
        }
        i = i + 1;
    }
    assert(nets@.take(nets@.len() as int) =~= nets@);
    index
}

/// Order key for an IEEE-754 single-precision bit pattern: the high bit is
/// flipped for a non-negative pattern and the whole word is inverted for a
/// negative one, so that the unsigned order of the keys follows the numeric
/// order of the encoded values (with the negative zero pattern keyed just
/// below the positive zero pattern, and NaN patterns at the two extremes).
pub open spec fn spec_float_sort_key(bits: u32) -> u32 {
    if bits < 0x8000_0000 {
        (bits + 0x8000_0000) as u32
    } else {
        !bits
    }
}

/// Order key for an IEEE-754 single-precision bit pattern.
pub fn float_sort_key(bits: u32) -> (r: u32)
    ensures
        r == spec_float_sort_key(bits),
{
    if bits < 0x8000_0000 {
        bits + 0x8000_0000
    } else {
        !bits
    }
}

} // verus!

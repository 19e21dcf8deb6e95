//! Summing the values that are present in a sequence of optional
//! numbers, skipping the absent ones.

use vstd::prelude::*;

verus! {

/// The sum of the present values of `s`; an absent entry contributes
/// nothing.
pub open spec fn present_sum(s: Seq<Option<i32>>) -> int
    decreases s.len(),
{
    if s.len() == 0 {
        0
    } else {
        present_sum(s.drop_last()) + (match s.last() {
            Some(n) => n as int,
            None => 0,
        })
    }
}

/// Adds up the present values of `values`. The result type is wide
/// enough that, for any sequence whose length fits 32 bits, no
/// overflow can occur.
pub fn sum_present(values: &Vec<Option<i32>>) -> (r: i128)
    requires
        values@.len() <= 0xffff_ffff,
    ensures
        r == present_sum(values@),
{
    let mut total: i128 = 0;
    let mut i: usize = 0;
    while i < values.len()
        invariant
            i <= values@.len(),
            values@.len() <= 0xffff_ffff,
            total == present_sum(values@.subrange(0, i as int)),
            -0x8000_0000 * (i as int) <= total <= 0x7fff_ffff * (i as int),
        decreases values@.len() - i,
    {
        proof {
            assert(values@.subrange(0, i + 1).drop_last() =~= values@.subrange(0, i as int));
            assert(values@.subrange(0, i + 1).last() == values@[i as int]);
        }
        match values[i] {
            Some(x) => {
                total = total + x as i128;
            },
            None => {},
        }
        i = i + 1;
    }
    proof {
        assert(values@.subrange(0, values@.len() as int) =~= values@);
    }
    total
}

} // verus!

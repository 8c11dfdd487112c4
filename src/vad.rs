//! Energy measures over 16-bit PCM audio for voice activity detection.
//!
//! A window's RMS level is compared with a threshold without taking a square
//! root: `rms(s) < level` exactly when `sum_squares(s) < level * level * len(s)`.
use vstd::prelude::*;

verus! {

/// Largest square of a 16-bit sample.
pub const MAX_SQUARE: u64 = 1073741824;

/// Sum of the squares of the samples of `s`.
pub open spec fn sum_squares(s: Seq<i16>) -> int
    decreases s.len(),
{
    if s.len() == 0 {
        0
    } else {
        sum_squares(s.drop_last()) + s.last() * s.last()
    }
}

/// Whether the mean square of `s` is below `energy`, that is, whether its
/// RMS level is below the square root of `energy`.
pub open spec fn below_energy(s: Seq<i16>, energy: int) -> bool {
    sum_squares(s) < energy * s.len()
}

/// The square of a 16-bit sample is at most [`MAX_SQUARE`].
pub proof fn lemma_square_bounds(x: i16)
    ensures
        0 <= x * x <= MAX_SQUARE,
{
    assert(0 <= x * x <= MAX_SQUARE) by (nonlinear_arith)
        requires
            -32768 <= x <= 32767,
    ;
}

/// A sum of squares is at most [`MAX_SQUARE`] per sample.
pub proof fn lemma_sum_squares_bounds(s: Seq<i16>)
    ensures
        0 <= sum_squares(s) <= MAX_SQUARE * s.len(),
    decreases s.len(),
{
    if s.len() > 0 {
        lemma_sum_squares_bounds(s.drop_last());
        lemma_square_bounds(s.last());
    }
}

/// Sum of the squares of `s[lo..hi]`.
pub fn energy_of(s: &[i16], lo: usize, hi: usize) -> (r: u64)
    requires
        lo <= hi <= s@.len(),
        hi - lo <= 8589934592,
    ensures
        r == sum_squares(s@.subrange(lo as int, hi as int)),
{
    let mut i: usize = lo;
    let mut acc: u64 = 0;
    assert(s@.subrange(lo as int, lo as int) =~= Seq::<i16>::empty());
    while i < hi
        invariant
            lo <= i <= hi <= s@.len(),
            hi - lo <= 8589934592,
            acc == sum_squares(s@.subrange(lo as int, i as int)),
            acc <= MAX_SQUARE * (i - lo),
        decreases hi - i,
    {
        let x = s[i];
        proof {
            lemma_square_bounds(x);
            assert(s@.subrange(lo as int, i + 1).drop_last() =~= s@.subrange(lo as int, i as int));
            assert(MAX_SQUARE * (i + 1 - lo) <= MAX_SQUARE * 8589934592) by (nonlinear_arith)
                requires
                    i + 1 - lo <= 8589934592,
            ;
        }
        acc = acc + (x as i64 * x as i64) as u64;
        i = i + 1;
    }
    acc
}

} // verus!

//! Linear-interpolation sample-rate conversion of 16-bit PCM audio.
use vstd::prelude::*;

verus! {

/// Number of output samples when `len` input samples are converted from
/// `from_rate` to `to_rate`: `floor(len * to_rate / from_rate)`.
pub open spec fn resampled_len(len: nat, from_rate: nat, to_rate: nat) -> nat {
    if from_rate == to_rate {
        len
    } else {
        (len * to_rate / from_rate) as nat
    }
}

/// Output sample `i`: its source position is `i * from_rate / to_rate`; the
/// value is the two bracketing input samples blended by the fractional part
/// of that position and rounded down, or the last sample once the position
/// has no right neighbour.
pub open spec fn resampled_at(s: Seq<i16>, from_rate: nat, to_rate: nat, i: nat) -> int {
    let pos = i * from_rate;
    let idx = (pos / to_rate) as int;
    let frac = (pos % to_rate) as int;
    if idx + 1 < s.len() {
        (s[idx] * (to_rate - frac) + s[idx + 1] * frac) / (to_rate as int)
    } else {
        s[s.len() - 1] as int
    }
}

/// The whole output of converting `s` from `from_rate` to `to_rate`.
pub open spec fn resampled(s: Seq<i16>, from_rate: nat, to_rate: nat) -> Seq<i16> {
    if from_rate == to_rate {
        s
    } else {
        Seq::new(
            resampled_len(s.len(), from_rate, to_rate),
            |i: int| resampled_at(s, from_rate, to_rate, i as nat) as i16,
        )
    }
}

proof fn lemma_blend_bounds(a: int, b: int, to: int, frac: int)
    requires
        -32768 <= a <= 32767,
        -32768 <= b <= 32767,
        0 <= frac < to,
    ensures
        ({
            let q = (a * (to - frac) + b * frac) / to;
            &&& -32768 <= q <= 32767
            &&& (a + 32768) * (to - frac) + (b + 32768) * frac == a * (to - frac) + b * frac
                + 32768 * to
            &&& ((a + 32768) * (to - frac) + (b + 32768) * frac) / to == q + 32768
        }),
{
    let n = a * (to - frac) + b * frac;
    assert(n + 32768 * to == (a + 32768) * (to - frac) + (b + 32768) * frac) by (nonlinear_arith)
        requires
            n == a * (to - frac) + b * frac,
    ;
    assert(-32768 * to <= n <= 32767 * to) by (nonlinear_arith)
        requires
            -32768 <= a <= 32767,
            -32768 <= b <= 32767,
            0 <= frac < to,
            n == a * (to - frac) + b * frac,
    ;
    assert((n + 32768 * to) / to == n / to + 32768) by (nonlinear_arith)
        requires
            to > 0,
    ;
    assert(-32768 <= n / to <= 32767) by (nonlinear_arith)
        requires
            to > 0,
            -32768 * to <= n <= 32767 * to,
    ;
}

proof fn lemma_index_in_range(len: nat, from: nat, to: nat, i: nat)
    requires
        from > 0,
        to > 0,
        i < len * to / from,
    ensures
        i * from / to < len,
{
    assert(i * from < len * to) by (nonlinear_arith)
        requires
            from > 0,
            i < len * to / from,
    ;
    assert(i * from / to < len) by (nonlinear_arith)
        requires
            to > 0,
            i * from < len * to,
    ;
}

/// Converts `samples` from `from_rate` to `to_rate` by linear interpolation.
/// Equal rates give an exact copy.
pub fn resample(samples: &[i16], from_rate: u32, to_rate: u32) -> (r: Vec<i16>)
    requires
        from_rate > 0 || from_rate == to_rate,
        from_rate > 0 ==> samples@.len() * (to_rate as nat) / (from_rate as nat) <= usize::MAX,
    ensures
        r@ == resampled(samples@, from_rate as nat, to_rate as nat),
        r@.len() == resampled_len(samples@.len(), from_rate as nat, to_rate as nat),
        from_rate == to_rate ==> r@ == samples@,
        from_rate != to_rate ==> forall|i: int|
            0 <= i < r@.len() ==> r@[i] == resampled_at(
                samples@,
                from_rate as nat,
                to_rate as nat,
                i as nat,
            ),
{
    if from_rate == to_rate {
        return vstd::slice::slice_to_vec(samples);
    }
    let from = from_rate as u128;
    let to = to_rate as u128;
    assert((samples.len() as u128) * to <= (usize::MAX as u128) * (u32::MAX as u128))
        by (nonlinear_arith)
        requires
            to <= u32::MAX,
    ;
    let out_len = ((samples.len() as u128) * to / from) as usize;
    let mut output: Vec<i16> = Vec::with_capacity(out_len);
    let mut i: usize = 0;
    while i < out_len
        invariant
            from_rate != to_rate,
            from == from_rate as u128,
            to == to_rate as u128,
            from > 0,
            out_len == samples@.len() * (to_rate as nat) / (from_rate as nat),
            i <= out_len,
            output@.len() == i,
            forall|k: int|
                0 <= k < i ==> output@[k] == resampled_at(
                    samples@,
                    from_rate as nat,
                    to_rate as nat,
                    k as nat,
                ),
        decreases out_len - i,
    {
        proof {
            if to_rate == 0 {
                assert(samples@.len() * 0nat / (from_rate as nat) == 0);
            }
        }
        assert(to > 0);
        proof {
            lemma_index_in_range(samples@.len(), from_rate as nat, to_rate as nat, i as nat);
        }
        assert((i as u128) * from <= (usize::MAX as u128) * (u32::MAX as u128)) by (nonlinear_arith)
            requires
                i <= usize::MAX,
                from <= u32::MAX,
        ;
        let pos: u128 = (i as u128) * from;
        let n = samples.len();
        assert(pos / to < n);
        let idx = (pos / to) as usize;
        let frac = pos % to;
        let value: i16 = if idx + 1 < n {
            let a = samples[idx] as i32 + 32768;
            let b = samples[idx + 1] as i32 + 32768;
            proof {
                lemma_blend_bounds(samples@[idx as int] as int, samples@[idx + 1] as int,
                    to as int, frac as int);
            }
            assert((a as u128) * (to - frac) <= 65535 * (u32::MAX as u128)) by (nonlinear_arith)
                requires
                    0 <= a <= 65535,
                    frac < to,
                    to <= u32::MAX,
            ;
            assert((b as u128) * frac <= 65535 * (u32::MAX as u128)) by (nonlinear_arith)
                requires
                    0 <= b <= 65535,
                    frac < to,
                    to <= u32::MAX,
            ;
            let shifted: u128 = ((a as u128) * (to - frac) + (b as u128) * frac) / to;
            (shifted as i32 - 32768) as i16
        } else {
            samples[idx]
        };
        output.push(value);
        i = i + 1;
    }
    output
}

} // verus!

//! The per-stream sample clock and the request handed to the generator.
//!
//! A running stream advances the clock by exactly one per output frame and
//! wraps it modulo the sample rate, so the clock is strictly periodic with
//! period `sample_rate` frames: one full cycle per second of audio at the
//! nominal rate.

use vstd::prelude::*;
use vstd::arithmetic::div_mod::lemma_add_mod_noop_right;
use vstd::arithmetic::div_mod::lemma_fundamental_div_mod;
use vstd::arithmetic::div_mod::lemma_mod_add_multiples_vanish;
use vstd::arithmetic::div_mod::lemma_mod_division_less_than_divisor;
use vstd::arithmetic::div_mod::lemma_small_mod;

verus! {

/// The immutable view a generator gets for one output frame: the negotiated
/// sample rate and the clock value at the moment of the call. The clock
/// counts frames and lives in `[0, sample_rate)`.
#[derive(Clone, Copy, Debug)]
pub struct SampleRequestOptions {
    pub sample_rate: u32,
    pub sample_clock: u32,
}

/// The clock value one frame after `c` at rate `r`: advance by one, wrapping
/// modulo the rate.
pub open spec fn next_clock(c: int, r: int) -> int {
    (c + 1) % r
}

/// The clock value `n` frames after `c` at rate `r`.
pub open spec fn clock_after(c: int, r: int, n: nat) -> int
    decreases n,
{
    if n == 0 {
        c
    } else {
        next_clock(clock_after(c, r, (n - 1) as nat), r)
    }
}

impl SampleRequestOptions {
    /// A request is well formed when the rate is positive and the clock lies
    /// in `[0, sample_rate)`.
    pub open spec fn wf(self) -> bool {
        0 < self.sample_rate && self.sample_clock < self.sample_rate
    }

    /// The clock a fresh stream starts from: zero, one tick before the first
    /// frame's value of one.
    pub fn new(sample_rate: u32) -> (r: SampleRequestOptions)
        requires
            0 < sample_rate,
        ensures
            r.sample_rate == sample_rate,
            r.sample_clock == 0,
            r.wf(),
    {
        SampleRequestOptions { sample_rate, sample_clock: 0 }
    }

    /// Advance the clock by exactly one frame, wrapping modulo the rate.
    pub fn tick(&mut self)
        requires
            old(self).wf(),
        ensures
            final(self).sample_rate == old(self).sample_rate,
            final(self).sample_clock == next_clock(old(self).sample_clock as int, old(self).sample_rate as int),
            final(self).wf(),
    {
        self.sample_clock = (self.sample_clock + 1) % self.sample_rate;
    }
}

/// After `n` ticks from a clock in range, the clock equals the start plus `n`,
/// reduced modulo the rate.
pub proof fn lemma_clock_after_closed_form(c: int, r: int, n: nat)
    requires
        0 < r,
        0 <= c < r,
    ensures
        clock_after(c, r, n) == (c + n) % r,
    decreases n,
{
    if n == 0 {
        lemma_small_mod(c as nat, r as nat);
    } else {
        lemma_clock_after_closed_form(c, r, (n - 1) as nat);
        lemma_add_mod_noop_right(1, c + n - 1, r);
    }
}

/// The clock never leaves `[0, rate)` however often it is advanced.
pub proof fn lemma_clock_after_in_range(c: int, r: int, n: nat)
    requires
        0 < r,
        0 <= c < r,
    ensures
        0 <= clock_after(c, r, n) < r,
{
    lemma_clock_after_closed_form(c, r, n);
    lemma_mod_division_less_than_divisor(c + n, r);
}

/// Advancing the clock exactly `rate` times returns it to its starting value:
/// the cycle has period `sample_rate`.
pub proof fn lemma_clock_periodic(c: int, r: int)
    requires
        0 < r,
        0 <= c < r,
    ensures
        clock_after(c, r, r as nat) == c,
{
    lemma_clock_after_closed_form(c, r, r as nat);
    lemma_mod_add_multiples_vanish(c, r);
    lemma_small_mod(c as nat, r as nat);
}

/// Ticking `m + n` times is ticking `m` times and then `n` more: the clock
/// advances by exactly one per frame with nothing skipped, however the frames
/// are split across callback buffers.
pub proof fn lemma_clock_after_add(c: int, r: int, m: nat, n: nat)
    requires
        0 < r,
        0 <= c < r,
    ensures
        clock_after(c, r, m + n) == clock_after(clock_after(c, r, m), r, n),
{
    lemma_clock_after_closed_form(c, r, m);
    lemma_clock_after_in_range(c, r, m);
    lemma_clock_after_closed_form(clock_after(c, r, m), r, n);
    lemma_clock_after_closed_form(c, r, m + n);
    lemma_add_mod_noop_right(n as int, c + m, r);
}

/// Within one period the clock never repeats a value: two distinct tick
/// counts below the rate give two distinct clock values, so the cycle is
/// strict and visits `rate` distinct values of `[0, rate)` before closing.
pub proof fn lemma_clock_distinct_within_period(c: int, r: int, i: nat, j: nat)
    requires
        0 < r,
        0 <= c < r,
        i < j,
        j < r,
    ensures
        clock_after(c, r, i) != clock_after(c, r, j),
{
    lemma_clock_after_closed_form(c, r, i);
    lemma_clock_after_closed_form(c, r, j);
    if clock_after(c, r, i) == clock_after(c, r, j) {
        lemma_fundamental_div_mod(c + i, r);
        lemma_fundamental_div_mod(c + j, r);
        let q = (c + j) / r - (c + i) / r;
        assert(j - i == r * q) by (nonlinear_arith)
            requires
                c + i == r * ((c + i) / r) + (c + i) % r,
                c + j == r * ((c + j) / r) + (c + j) % r,
                (c + i) % r == (c + j) % r,
                q == (c + j) / r - (c + i) / r,
        {
        }
        assert(false) by (nonlinear_arith)
            requires
                j - i == r * q,
                0 < j - i < r,
        {
        }
    }
}

} // verus!

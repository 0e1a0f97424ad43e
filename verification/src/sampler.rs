//! The per-pixel sample-stream generator: a deterministic, seedable
//! congruential stream of fixed-point values in [0, ONE), with the
//! array-request bookkeeping that keeps per-pixel streams aligned
//! call-for-call across pixels and workers.

use vstd::prelude::*;
use vstd::arithmetic::div_mod::{lemma_add_mod_noop, lemma_small_mod};
use crate::geometry::{Point2, Point2i};
use crate::num::{isqrt, ONE};

verus! {

/// The multiplier of the linear congruential step.
pub const LCG_A: u64 = 6364136223846793005;

/// The increment of the linear congruential step.
pub const LCG_C: u64 = 1442695040888963407;

/// The congruential step: the whole stream is a pure function of the
/// state, which is what makes every sampler contract functional and the
/// generator reproducible.
pub open spec fn lcg_of(s: u64) -> u64 {
    (((s as int) * (LCG_A as int) + LCG_C as int) % 0x1_0000_0000_0000_0000int) as u64
}

/// The fixed-point sample in [0, ONE) read off a state: its top 16 bits.
pub open spec fn sample_of(s: u64) -> i64 {
    (s / 0x1_0000_0000_0000u64) as i64
}

/// The stream state for a seed, pixel and sample index: an arithmetic mix
/// followed by one congruential step.  Identical inputs give identical
/// states on every machine.
pub open spec fn mix_state(seed: u64, px: i64, py: i64, sample: int) -> u64 {
    lcg_of(
        seed.wrapping_add((px as u64).wrapping_mul(0x9E3779B97F4A7C15u64)).wrapping_add(
            (py as u64).wrapping_mul(0xD1B54A32D192ED03u64),
        ).wrapping_add(((sample as i64) as u64).wrapping_mul(0x94D049BB133111EBu64)),
    )
}

/// One congruential step, exactly the spec-level `lcg_of`.
fn lcg_next(s: u64) -> (r: u64)
    ensures
        r == lcg_of(s),
{
    let m: u64 = s.wrapping_mul(LCG_A);
    let r: u64 = m.wrapping_add(LCG_C);
    proof {
        lemma_small_mod(LCG_C as nat, 0x1_0000_0000_0000_0000nat);
        lemma_add_mod_noop((s as int) * (LCG_A as int), LCG_C as int, 0x1_0000_0000_0000_0000int);
        lemma_small_mod(m as nat, 0x1_0000_0000_0000_0000nat);
    }
    r
}

/// The lens and film-plane values a camera model needs for one sample,
/// drawn from the same stream position bookkeeping as everything else.
#[derive(Clone, Copy, PartialEq, Eq, Structural, Debug)]
pub struct CameraSample {
    pub p_film: Point2,
    pub time: i64,
    pub p_lens: Point2,
}

/// A per-worker, stateful sample-stream generator.
#[derive(Clone, Debug)]
pub struct Sampler {
    pub samples_per_pixel: i64,
    pub seed: u64,
    pub state: u64,
    pub current_pixel: Point2i,
    pub current_sample: i64,
    pub array_sizes: Vec<usize>,
    pub array_cursor: usize,
}

/// The configuration and cursor fields two states share when only the
/// stream state differs.
pub open spec fn same_but_state(a: Sampler, b: Sampler) -> bool {
    &&& a.samples_per_pixel == b.samples_per_pixel
    &&& a.seed == b.seed
    &&& a.current_pixel == b.current_pixel
    &&& a.current_sample == b.current_sample
    &&& a.array_sizes@ == b.array_sizes@
    &&& a.array_cursor == b.array_cursor
}

/// A perfect square.
pub open spec fn is_square(n: int) -> bool {
    exists|k: int| 0 <= k && #[trigger] (k * k) == n
}

/// The next registered array request is exactly for `n` pairs.
pub open spec fn array_request_matches(s: Sampler, n: i32) -> bool {
    (s.array_cursor as int) < s.array_sizes@.len() && s.array_sizes@[s.array_cursor as int]
        == n as usize
}

impl Sampler {
    pub open spec fn wf(&self) -> bool {
        &&& 1 <= self.samples_per_pixel
        &&& 0 <= self.current_sample <= self.samples_per_pixel
    }

    /// A fresh sampler: pixel (0, 0), sample index zero, no arrays yet.
    pub fn new(samples_per_pixel: i64, seed: u64) -> (r: Sampler)
        requires
            1 <= samples_per_pixel,
        ensures
            r.samples_per_pixel == samples_per_pixel,
            r.seed == seed,
            r.state == mix_state(seed, 0, 0, 0),
            r.current_pixel == (Point2i { x: 0, y: 0 }),
            r.current_sample == 0,
            r.array_sizes@.len() == 0,
            r.array_cursor == 0,
            r.wf(),
    {
        Sampler {
            samples_per_pixel,
            seed,
            state: mix_exec(seed, 0, 0, 0),
            current_pixel: Point2i { x: 0, y: 0 },
            current_sample: 0,
            array_sizes: Vec::new(),
            array_cursor: 0,
        }
    }

    /// Begins a new pixel: resets the sample index, the array cursor and
    /// the stream state, which depends only on seed, pixel and index.
    pub fn start_pixel(&mut self, p: Point2i)
        ensures
            final(self).samples_per_pixel == old(self).samples_per_pixel,
            final(self).seed == old(self).seed,
            final(self).array_sizes@ == old(self).array_sizes@,
            final(self).current_pixel == p,
            final(self).current_sample == 0,
            final(self).array_cursor == 0,
            final(self).state == mix_state(old(self).seed, p.x, p.y, 0),
            old(self).samples_per_pixel >= 1 ==> final(self).wf(),
    {
        self.current_pixel = p;
        self.current_sample = 0;
        self.array_cursor = 0;
        self.state = mix_exec(self.seed, p.x, p.y, 0);
    }

    /// One fixed-point scalar in [0, ONE) from the stream.
    pub fn get_1d(&mut self) -> (r: i64)
        ensures
            same_but_state(*final(self), *old(self)),
            final(self).state == lcg_of(old(self).state),
            r == sample_of(final(self).state),
            0 <= r < ONE,
    {
        self.state = lcg_next(self.state);
        let r: i64 = (self.state / 0x1_0000_0000_0000u64) as i64;
        r
    }

    /// One fixed-point pair in [0, ONE)^2 from the stream.
    pub fn get_2d(&mut self) -> (r: Point2)
        ensures
            same_but_state(*final(self), *old(self)),
            final(self).state == lcg_of(lcg_of(old(self).state)),
            r.x == sample_of(lcg_of(old(self).state)),
            r.y == sample_of(final(self).state),
            0 <= r.x < ONE,
            0 <= r.y < ONE,
    {
        let x: i64 = self.get_1d();
        let y: i64 = self.get_1d();
        Point2 { x, y }
    }

    /// Registers that every pixel sample will need one more fixed-size
    /// array of `n` pairs, served in registration order.
    pub fn request_2d_array(&mut self, n: i32)
        requires
            1 <= n,
        ensures
            final(self).array_sizes@ == old(self).array_sizes@.push(n as usize),
            final(self).samples_per_pixel == old(self).samples_per_pixel,
            final(self).seed == old(self).seed,
            final(self).state == old(self).state,
            final(self).current_pixel == old(self).current_pixel,
            final(self).current_sample == old(self).current_sample,
            final(self).array_cursor == old(self).array_cursor,
    {
        self.array_sizes.push(n as usize);
    }

    /// The smallest perfect square at or above `count`: the stratification
    /// pattern of this generator is square, so callers must request the
    /// rounded count.
    pub fn round_count(&self, count: i32) -> (r: i32)
        requires
            0 <= count <= 2147395600,
        ensures
            r >= count,
            is_square(r as int),
            forall|m: int| count <= m < r ==> !is_square(m),
    {
        let s: u64 = isqrt(count as u128);
        proof {
            assert((s as int) < 0x10000int) by (nonlinear_arith)
                requires
                    (s as int) * (s as int) <= count as int,
                    count < 0x8000_0000int,
            ;
        }
        let si: i32 = s as i32;
        if si * si == count {
            proof {
                assert(is_square(count as int));
                assert forall|m: int| count <= m < count as int implies !is_square(m) by {}
            }
            count
        } else {
            proof {
                assert((s as int) < 46340int) by (nonlinear_arith)
                    requires
                        (s as int) * (s as int) <= count as int,
                        (s as int) * (s as int) != count as int,
                        count <= 2147395600int,
                ;
                assert(((si + 1) as int) * ((si + 1) as int) <= 2147395600int) by (nonlinear_arith)
                    requires
                        0 <= si + 1 <= 46340,
                ;
            }
            let r: i32 = (si + 1) * (si + 1);
            proof {
                assert(((si + 1) as int) * ((si + 1) as int) == r as int);
                assert(is_square(r as int));
                assert forall|m: int| count <= m < r && #[trigger] is_square(m) implies false by {
                    let k = choose|k: int| 0 <= k && #[trigger] (k * k) == m;
                    assert(k <= s as int) by (nonlinear_arith)
                        requires
                            0 <= k,
                            k * k == m,
                            m < ((s as int) + 1) * ((s as int) + 1),
                    ;
                    assert(k * k <= (s as int) * (s as int)) by (nonlinear_arith)
                        requires
                            0 <= k <= s as int,
                    ;
                }
            }
            r
        }
    }

    /// The next pre-registered array: exactly `n` pairs.  When `n` does
    /// not match the next registered request (a configuration fault), the
    /// result is the defined zero-filled array of the same length.
    pub fn get_2d_array(&mut self, n: i32) -> (r: Vec<Point2>)
        requires
            0 <= n,
        ensures
            r@.len() == n as int,
            forall|j: int| 0 <= j < n as int ==> 0 <= #[trigger] r@[j].x < ONE && 0 <= r@[j].y < ONE,
            final(self).samples_per_pixel == old(self).samples_per_pixel,
            final(self).seed == old(self).seed,
            final(self).array_sizes@ == old(self).array_sizes@,
            final(self).current_pixel == old(self).current_pixel,
            final(self).current_sample == old(self).current_sample,
            array_request_matches(*old(self), n) ==> final(self).array_cursor == old(
                self,
            ).array_cursor + 1,
            !array_request_matches(*old(self), n) ==> final(self).array_cursor == old(
                self,
            ).array_cursor && final(self).state == old(self).state && (forall|j: int|
                0 <= j < n as int ==> #[trigger] r@[j] == (Point2 { x: 0, y: 0 })),
    {
        let matched: bool = self.array_cursor < self.array_sizes.len()
            && self.array_sizes[self.array_cursor] == n as usize;
        let mut out: Vec<Point2> = Vec::new();
        let mut j: i32 = 0;
        if matched {
            self.array_cursor = self.array_cursor + 1;
            while j < n
                invariant
                    0 <= j <= n,
                    out@.len() == j as int,
                    forall|t: int|
                        0 <= t < j as int ==> 0 <= #[trigger] out@[t].x < ONE && 0 <= out@[t].y
                            < ONE,
                    self.samples_per_pixel == old(self).samples_per_pixel,
                    self.seed == old(self).seed,
                    self.array_sizes@ == old(self).array_sizes@,
                    self.current_pixel == old(self).current_pixel,
                    self.current_sample == old(self).current_sample,
                    self.array_cursor == old(self).array_cursor + 1,
                decreases n - j,
            {
                let v: Point2 = self.get_2d();
                out.push(v);
                j = j + 1;
            }
        } else {
            while j < n
                invariant
                    0 <= j <= n,
                    out@.len() == j as int,
                    forall|t: int| 0 <= t < j as int ==> #[trigger] out@[t] == (Point2 { x: 0, y: 0 }),
                decreases n - j,
            {
                out.push(Point2 { x: 0, y: 0 });
                j = j + 1;
            }
        }
        out
    }

    /// Advances to the next sample of the current pixel.  Exactly
    /// `samples_per_pixel` successive calls from a fresh pixel return
    /// true; the next returns false.
    pub fn start_next_sample(&mut self) -> (r: bool)
        requires
            old(self).current_sample < 0x7fff_ffff_ffff_ffff,
        ensures
            final(self).current_sample == old(self).current_sample + 1,
            final(self).array_cursor == 0,
            final(self).state == mix_state(
                old(self).seed,
                old(self).current_pixel.x,
                old(self).current_pixel.y,
                old(self).current_sample + 1,
            ),
            final(self).samples_per_pixel == old(self).samples_per_pixel,
            final(self).seed == old(self).seed,
            final(self).current_pixel == old(self).current_pixel,
            final(self).array_sizes@ == old(self).array_sizes@,
            r == (old(self).current_sample + 1 <= old(self).samples_per_pixel),
    {
        self.current_sample = self.current_sample + 1;
        self.array_cursor = 0;
        self.state = mix_exec(
            self.seed,
            self.current_pixel.x,
            self.current_pixel.y,
            self.current_sample,
        );
        self.current_sample <= self.samples_per_pixel
    }

    /// The film, time and lens values for one camera sample, drawn in a
    /// fixed order from the single underlying stream.
    pub fn get_camera_sample(&mut self, p_raster: Point2i) -> (cs: CameraSample)
        requires
            -0x100_0000_0000 <= p_raster.x <= 0x100_0000_0000,
            -0x100_0000_0000 <= p_raster.y <= 0x100_0000_0000,
        ensures
            same_but_state(*final(self), *old(self)),
            cs.p_film.x == p_raster.x * ONE + sample_of(lcg_of(old(self).state)),
            cs.p_film.y == p_raster.y * ONE + sample_of(lcg_of(lcg_of(old(self).state))),
            cs.time == sample_of(lcg_of(lcg_of(lcg_of(old(self).state)))),
            cs.p_lens.x == sample_of(lcg_of(lcg_of(lcg_of(lcg_of(old(self).state))))),
            cs.p_lens.y == sample_of(lcg_of(lcg_of(lcg_of(lcg_of(lcg_of(old(self).state)))))),
            final(self).state == lcg_of(lcg_of(lcg_of(lcg_of(lcg_of(old(self).state))))),
    {
        let jitter: Point2 = self.get_2d();
        let time: i64 = self.get_1d();
        let p_lens: Point2 = self.get_2d();
        CameraSample {
            p_film: Point2 { x: p_raster.x * ONE + jitter.x, y: p_raster.y * ONE + jitter.y },
            time,
            p_lens,
        }
    }

    /// Reinitializes the stream engine for the current pixel and sample.
    pub fn reseed(&mut self, seed: u64)
        ensures
            final(self).seed == seed,
            final(self).state == mix_state(
                seed,
                old(self).current_pixel.x,
                old(self).current_pixel.y,
                old(self).current_sample as int,
            ),
            final(self).samples_per_pixel == old(self).samples_per_pixel,
            final(self).current_pixel == old(self).current_pixel,
            final(self).current_sample == old(self).current_sample,
            final(self).array_sizes@ == old(self).array_sizes@,
            final(self).array_cursor == old(self).array_cursor,
    {
        self.seed = seed;
        self.state = mix_exec(
            seed,
            self.current_pixel.x,
            self.current_pixel.y,
            self.current_sample,
        );
    }

    /// An independent sampler for another worker: the same configuration
    /// (samples per pixel and registered array requests) with a fresh
    /// stream under the given seed.
    pub fn clone_for_worker(&self, seed: u64) -> (r: Sampler)
        ensures
            r.samples_per_pixel == self.samples_per_pixel,
            r.array_sizes@ == self.array_sizes@,
            r.seed == seed,
            r.state == mix_state(seed, 0, 0, 0),
            r.current_pixel == (Point2i { x: 0, y: 0 }),
            r.current_sample == 0,
            r.array_cursor == 0,
    {
        Sampler {
            samples_per_pixel: self.samples_per_pixel,
            seed,
            state: mix_exec(seed, 0, 0, 0),
            current_pixel: Point2i { x: 0, y: 0 },
            current_sample: 0,
            array_sizes: self.array_sizes.clone(),
            array_cursor: 0,
        }
    }

    pub fn get_current_sample_number(&self) -> (r: i64)
        ensures
            r == self.current_sample,
    {
        self.current_sample
    }

    pub fn get_samples_per_pixel(&self) -> (r: i64)
        ensures
            r == self.samples_per_pixel,
    {
        self.samples_per_pixel
    }
}

/// The exec mix: identical, call for call, to the spec `mix_state`.
fn mix_exec(seed: u64, px: i64, py: i64, sample: i64) -> (r: u64)
    ensures
        r == mix_state(seed, px, py, sample as int),
{
    let m: u64 = seed.wrapping_add(
        (#[verifier::truncate] (px as u64)).wrapping_mul(0x9E3779B97F4A7C15u64),
    ).wrapping_add((#[verifier::truncate] (py as u64)).wrapping_mul(0xD1B54A32D192ED03u64))
        .wrapping_add((#[verifier::truncate] (sample as u64)).wrapping_mul(0x94D049BB133111EBu64));
    lcg_next(m)
}

/// Determinism of the stream: two samplers with the same state produce the
/// same next value and the same successor state, so identical seeds,
/// configuration and call sequences give bit-identical streams.
pub proof fn lemma_stream_deterministic(s1: u64, s2: u64)
    requires
        s1 == s2,
    ensures
        lcg_of(s1) == lcg_of(s2),
        sample_of(lcg_of(s1)) == sample_of(lcg_of(s2)),
{
}

} // verus!

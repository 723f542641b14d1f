//! The spectrum analyzer: snapshots the analysis window, applies a Hann
//! window, runs a discrete Fourier transform in fixed point, and returns the
//! magnitude of each bin in the lower half of the spectrum (the upper half
//! is redundant for real input).
//!
//! Magnitudes are normalized by the transform length, so a full-scale tone
//! peaks near `SCALE` regardless of the length.  A window still shorter than
//! the transform length yields an all-zero spectrum — insufficient data is
//! not an error.

use vstd::prelude::*;

use crate::fixed::{
    div_scale, div_trunc, div_trunc_i64, isqrt_spec, isqrt_u64, HEADROOM, SCALE,
};
use crate::trig::{cos_fx, cos_spec, sin_fx, sin_spec, TWO_PI_FX};
use crate::window::AnalysisWindow;

verus! {

/// Largest supported transform length; keeps every accumulated sum far from
/// the integer range's edge.
pub const FFT_SIZE_MAX: usize = 4096;

/// The transform length the program runs with.
pub const FFT_SIZE_DEFAULT: usize = 1024;

/// The Hann weight for index `i` of `n`: `(1 - cos(2 pi i / (n - 1))) / 2`.
pub open spec fn hann_spec(i: int, n: int) -> int
    recommends
        0 <= i < n,
        n >= 2,
{
    let angle = (TWO_PI_FX * i) / (n - 1);
    let wrapped = if angle >= TWO_PI_FX {
        angle - TWO_PI_FX
    } else {
        angle
    };
    (SCALE - cos_spec(wrapped)) / 2
}

/// Sample `i` of the snapshot under the Hann window.
pub open spec fn windowed_spec(x: Seq<i64>, n: int, i: int) -> int
    recommends
        x.len() == n,
        0 <= i < n,
{
    div_trunc(hann_spec(i, n) * x[i], SCALE as int)
}

/// The transform angle of bin `k`, term `i`: `2 pi k i / n`, wrapped into
/// one turn.
pub open spec fn tw_angle_spec(k: int, i: int, n: int) -> int
    recommends
        n >= 2,
        k >= 0,
        i >= 0,
{
    (TWO_PI_FX * ((k * i) % n)) / n
}

/// The first `j` cosine terms of bin `k`.
pub open spec fn dft_re_spec(x: Seq<i64>, k: int, j: int, n: int) -> int
    decreases j,
{
    if j <= 0 {
        0
    } else {
        dft_re_spec(x, k, j - 1, n) + div_trunc(
            windowed_spec(x, n, j - 1) * cos_spec(tw_angle_spec(k, j - 1, n)),
            SCALE as int,
        )
    }
}

/// The first `j` sine terms of bin `k`.
pub open spec fn dft_im_spec(x: Seq<i64>, k: int, j: int, n: int) -> int
    decreases j,
{
    if j <= 0 {
        0
    } else {
        dft_im_spec(x, k, j - 1, n) + div_trunc(
            windowed_spec(x, n, j - 1) * sin_spec(tw_angle_spec(k, j - 1, n)),
            SCALE as int,
        )
    }
}

/// The magnitude of bin `k`: the Euclidean norm of the bin's cosine and sine
/// sums, each normalized by the transform length.
pub open spec fn bin_spec(x: Seq<i64>, k: int, n: int) -> int
    recommends
        x.len() == n,
        n >= 2,
{
    let re = div_trunc(dft_re_spec(x, k, n, n), n);
    let im = div_trunc(dft_im_spec(x, k, n, n), n);
    isqrt_spec((re * re + im * im) as nat) as int
}

/// One produced spectrum: the lower-half magnitudes and the parameters they
/// were computed with.  Immutable once produced.
pub struct SpectrumFrame {
    pub magnitudes: Vec<i64>,
    pub sample_rate: u32,
    pub fft_size: usize,
}

impl SpectrumFrame {
    /// Half the transform length of non-negative magnitudes.
    pub open spec fn wf(self) -> bool {
        &&& self.magnitudes@.len() == self.fft_size / 2
        &&& forall|k: int| 0 <= k < self.magnitudes@.len() ==> #[trigger] self.magnitudes@[k] >= 0
    }
}

fn hann(i: usize, n: usize) -> (w: i64)
    requires
        i < n,
        2 <= n <= FFT_SIZE_MAX,
    ensures
        w == hann_spec(i as int, n as int),
        0 <= w <= SCALE,
{
    proof {
        assert(0 <= (TWO_PI_FX * (i as int)) / (n as int - 1) <= TWO_PI_FX) by (nonlinear_arith)
            requires
                0 <= i <= n - 1,
                n >= 2,
                TWO_PI_FX == 6_283_185,
        ;
    }
    let angle_raw: i64 = (((TWO_PI_FX as u64) * (i as u64)) / ((n - 1) as u64)) as i64;
    let angle: i64 = if angle_raw >= TWO_PI_FX {
        angle_raw - TWO_PI_FX
    } else {
        angle_raw
    };
    let c: i64 = cos_fx(angle);
    (((SCALE - c) as u64) / 2) as i64
}

/// Computes the magnitude spectrum of the analysis window.  With fewer than
/// `fft_size` samples buffered the result is a zero spectrum of the usual
/// length; otherwise the most recent `fft_size` samples are transformed.
pub fn analyze(window: &AnalysisWindow, fft_size: usize, sample_rate: u32) -> (f: SpectrumFrame)
    requires
        window.wf(),
        2 <= fft_size <= FFT_SIZE_MAX,
    ensures
        f.wf(),
        f.fft_size == fft_size,
        f.sample_rate == sample_rate,
        f.magnitudes@.len() == fft_size / 2,
        window@.len() < fft_size ==> forall|k: int|
            0 <= k < fft_size / 2 ==> #[trigger] f.magnitudes@[k] == 0,
        window@.len() >= fft_size ==> forall|k: int|
            0 <= k < fft_size / 2 ==> #[trigger] f.magnitudes@[k] as int == bin_spec(
                window@.skip(window@.len() - fft_size),
                k,
                fft_size as int,
            ),
{
    let half: usize = fft_size / 2;
    let mut magnitudes: Vec<i64> = Vec::new();
    if window.len() < fft_size {
        let mut k: usize = 0;
        while k < half
            invariant
                0 <= k <= half,
                magnitudes@.len() == k,
                forall|j: int| 0 <= j < k ==> #[trigger] magnitudes@[j] == 0,
            decreases half - k,
        {
            magnitudes.push(0);
            k = k + 1;
        }
        return SpectrumFrame { magnitudes, sample_rate, fft_size };
    }
    let wlen: usize = window.len();
    let offset: usize = wlen - fft_size;
    let ghost x: Seq<i64> = window@.skip(offset as int);
    let n: usize = fft_size;
    let mut xw: Vec<i64> = Vec::new();
    let mut i: usize = 0;
    while i < n
        invariant
            0 <= i <= n,
            n == fft_size,
            2 <= n <= FFT_SIZE_MAX,
            offset + n == wlen,
            wlen == window@.len(),
            window.wf(),
            x == window@.skip(offset as int),
            x.len() == n,
            xw@.len() == i,
            forall|j: int| 0 <= j < i ==> #[trigger] xw@[j] as int == windowed_spec(
                x,
                n as int,
                j,
            ),
            forall|j: int| 0 <= j < i ==> -HEADROOM <= #[trigger] xw@[j] <= HEADROOM,
        decreases n - i,
    {
        let w: i64 = hann(i, n);
        let v: i64 = window.get(offset + i);
        proof {
            assert(x[i as int] == window@[offset + i]);
            assert(-HEADROOM * SCALE <= w * v <= HEADROOM * SCALE) by (nonlinear_arith)
                requires
                    0 <= w <= SCALE,
                    -HEADROOM <= v <= HEADROOM,
            ;
            assert(-HEADROOM <= div_trunc(w * v, SCALE as int) <= HEADROOM) by (nonlinear_arith)
                requires
                    -HEADROOM * SCALE <= w * v <= HEADROOM * SCALE,
                    SCALE == 1_000_000,
                    HEADROOM == 64_000_000,
            ;
        }
        xw.push(div_scale(w * v));
        i = i + 1;
    }
    let mut k: usize = 0;
    while k < half
        invariant
            0 <= k <= half,
            half == fft_size / 2,
            n == fft_size,
            2 <= n <= FFT_SIZE_MAX,
            x.len() == n,
            xw@.len() == n,
            forall|j: int| 0 <= j < n ==> #[trigger] xw@[j] as int == windowed_spec(
                x,
                n as int,
                j,
            ),
            forall|j: int| 0 <= j < n ==> -HEADROOM <= #[trigger] xw@[j] <= HEADROOM,
            magnitudes@.len() == k,
            forall|j: int| 0 <= j < k ==> #[trigger] magnitudes@[j] as int == bin_spec(
                x,
                j,
                n as int,
            ),
            forall|j: int| 0 <= j < k ==> #[trigger] magnitudes@[j] >= 0,
        decreases half - k,
    {
        let mut re: i64 = 0;
        let mut im: i64 = 0;
        let mut i2: usize = 0;
        while i2 < n
            invariant
                0 <= i2 <= n,
                0 <= k < n,
                2 <= n <= FFT_SIZE_MAX,
                x.len() == n,
                xw@.len() == n,
                forall|j: int| 0 <= j < n ==> #[trigger] xw@[j] as int == windowed_spec(
                    x,
                    n as int,
                    j,
                ),
                forall|j: int| 0 <= j < n ==> -HEADROOM <= #[trigger] xw@[j] <= HEADROOM,
                re == dft_re_spec(x, k as int, i2 as int, n as int),
                im == dft_im_spec(x, k as int, i2 as int, n as int),
                -(i2 as int) * HEADROOM <= re <= (i2 as int) * HEADROOM,
                -(i2 as int) * HEADROOM <= im <= (i2 as int) * HEADROOM,
            decreases n - i2,
        {
            proof {
                assert(0 <= k * i2 <= FFT_SIZE_MAX * FFT_SIZE_MAX) by (nonlinear_arith)
                    requires
                        0 <= k <= FFT_SIZE_MAX,
                        0 <= i2 <= FFT_SIZE_MAX,
                ;
            }
            let idx: usize = (k * i2) % n;
            proof {
                assert(0 <= (TWO_PI_FX * (idx as int)) / (n as int) < TWO_PI_FX)
                    by (nonlinear_arith)
                    requires
                        0 <= idx < n,
                        n >= 2,
                        TWO_PI_FX == 6_283_185,
                ;
            }
            let angle: i64 = (((TWO_PI_FX as u64) * (idx as u64)) / (n as u64)) as i64;
            let c: i64 = cos_fx(angle);
            let sv: i64 = sin_fx(angle);
            let wv: i64 = xw[i2];
            proof {
                assert(-HEADROOM * SCALE <= wv * c <= HEADROOM * SCALE && -HEADROOM * SCALE <= wv
                    * sv <= HEADROOM * SCALE) by (nonlinear_arith)
                    requires
                        -HEADROOM <= wv <= HEADROOM,
                        -SCALE <= c <= SCALE,
                        -SCALE <= sv <= SCALE,
                ;
                assert(-HEADROOM <= div_trunc(wv * c, SCALE as int) <= HEADROOM && -HEADROOM
                    <= div_trunc(wv * sv, SCALE as int) <= HEADROOM) by (nonlinear_arith)
                    requires
                        -HEADROOM * SCALE <= wv * c <= HEADROOM * SCALE,
                        -HEADROOM * SCALE <= wv * sv <= HEADROOM * SCALE,
                        SCALE == 1_000_000,
                        HEADROOM == 64_000_000,
                ;
                assert((i2 as int + 1) * HEADROOM == (i2 as int) * HEADROOM + HEADROOM);
            }
            re = re + div_scale(wv * c);
            im = im + div_scale(wv * sv);
            i2 = i2 + 1;
        }
        proof {
            assert(-(FFT_SIZE_MAX as int) * HEADROOM <= re <= (FFT_SIZE_MAX as int) * HEADROOM
                && -(FFT_SIZE_MAX as int) * HEADROOM <= im <= (FFT_SIZE_MAX as int) * HEADROOM)
                by (nonlinear_arith)
                requires
                    -(n as int) * HEADROOM <= re <= (n as int) * HEADROOM,
                    -(n as int) * HEADROOM <= im <= (n as int) * HEADROOM,
                    2 <= n <= FFT_SIZE_MAX,
                    HEADROOM == 64_000_000,
            ;
            assert(-HEADROOM <= div_trunc(re as int, n as int) <= HEADROOM && -HEADROOM
                <= div_trunc(im as int, n as int) <= HEADROOM) by (nonlinear_arith)
                requires
                    -(n as int) * HEADROOM <= re <= (n as int) * HEADROOM,
                    -(n as int) * HEADROOM <= im <= (n as int) * HEADROOM,
                    n >= 2,
                    HEADROOM == 64_000_000,
            ;
        }
        let re_n: i64 = div_trunc_i64(re, n as i64);
        let im_n: i64 = div_trunc_i64(im, n as i64);
        proof {
            assert(0 <= re_n * re_n <= HEADROOM * HEADROOM && 0 <= im_n * im_n <= HEADROOM
                * HEADROOM && re_n * re_n + im_n * im_n <= 2 * HEADROOM * HEADROOM)
                by (nonlinear_arith)
                requires
                    -HEADROOM <= re_n <= HEADROOM,
                    -HEADROOM <= im_n <= HEADROOM,
            ;
        }
        let root: u64 = isqrt_u64((re_n * re_n + im_n * im_n) as u64);
        proof {
            assert(root <= 2 * HEADROOM) by (nonlinear_arith)
                requires
                    root * root <= 2 * HEADROOM * HEADROOM,
                    root >= 0,
                    HEADROOM == 64_000_000,
            ;
        }
        let mag: i64 = root as i64;
        magnitudes.push(mag);
        k = k + 1;
    }
    SpectrumFrame { magnitudes, sample_rate, fft_size }
}

/// Silence in, silence out: every bin of an all-zero snapshot is zero.
pub proof fn lemma_silent_bin(x: Seq<i64>, k: int, n: int)
    requires
        n >= 2,
        x.len() == n,
        forall|i: int| 0 <= i < n ==> #[trigger] x[i] == 0,
    ensures
        bin_spec(x, k, n) == 0,
{
    lemma_silent_sums(x, k, n, n);
    assert(div_trunc(0, n) == 0);
    assert(isqrt_spec((0int * 0 + 0 * 0) as nat) == 0) by (nonlinear_arith);
}

proof fn lemma_silent_sums(x: Seq<i64>, k: int, j: int, n: int)
    requires
        n >= 2,
        x.len() == n,
        j <= n,
        forall|i: int| 0 <= i < n ==> #[trigger] x[i] == 0,
    ensures
        dft_re_spec(x, k, j, n) == 0,
        dft_im_spec(x, k, j, n) == 0,
    decreases j,
{
    if j > 0 {
        lemma_silent_sums(x, k, j - 1, n);
        assert(hann_spec(j - 1, n) * x[j - 1] == 0) by (nonlinear_arith)
            requires
                x[j - 1] == 0,
        ;
        assert(windowed_spec(x, n, j - 1) == 0);
        assert(windowed_spec(x, n, j - 1) * cos_spec(tw_angle_spec(k, j - 1, n)) == 0)
            by (nonlinear_arith)
            requires
                windowed_spec(x, n, j - 1) == 0,
        ;
        assert(windowed_spec(x, n, j - 1) * sin_spec(tw_angle_spec(k, j - 1, n)) == 0)
            by (nonlinear_arith)
            requires
                windowed_spec(x, n, j - 1) == 0,
        ;
    }
}

} // verus!

use vstd::prelude::*;
use crate::canvas::{DrawPad, PIXELS, CHANNELS};

verus! {

/// Largest value of a channel byte.
pub const CHANNEL_MAX: u8 = 255;

/// `v` saturated into the range of a channel byte.
pub open spec fn clamp_byte(v: int) -> u8 {
    if v < 0 {
        0u8
    } else if v > CHANNEL_MAX as int {
        CHANNEL_MAX
    } else {
        v as u8
    }
}

/// Channel `c` (0 red, 1 green, 2 blue) of a scaled colour triple.
pub open spec fn channel_of(t: (i64, i64, i64), c: int) -> i64 {
    if c == 0 {
        t.0
    } else if c == 1 {
        t.1
    } else {
        t.2
    }
}

/// Byte `k` of the spectrum raster: black everywhere when the spectrum is silent
/// (`max_magnitude == 0`), else the saturated scaled channel of coefficient `k / 3`.
pub open spec fn spectrum_byte(max_magnitude: u64, scaled: Seq<(i64, i64, i64)>, k: int) -> u8 {
    if max_magnitude == 0 {
        0u8
    } else {
        clamp_byte(channel_of(scaled[k / CHANNELS as int], k % CHANNELS as int) as int)
    }
}

/// `raster` is the colourised spectrum of `scaled` under `max_magnitude`.
pub open spec fn is_spectrum_raster(
    max_magnitude: u64,
    scaled: Seq<(i64, i64, i64)>,
    raster: Seq<u8>,
) -> bool {
    &&& raster.len() == CHANNELS * scaled.len()
    &&& forall|k: int|
        0 <= k < raster.len() ==> #[trigger] raster[k] == spectrum_byte(max_magnitude, scaled, k)
}

/// Intensities widened to 16 bits, index for index.
pub open spec fn widened(s: Seq<u8>) -> Seq<u16> {
    Seq::new(s.len(), |i: int| s[i] as u16)
}

/// `m` is the largest element of `s`, or zero when `s` is empty.
pub open spec fn is_max_of(s: Seq<u64>, m: u64) -> bool {
    &&& forall|i: int| 0 <= i < s.len() ==> #[trigger] s[i] <= m
    &&& (m == 0 || exists|i: int| 0 <= i < s.len() && s[i] == m)
}

/// Widens each intensity of `pad` into `samples`, the real parts of the transform's
/// input field, index for index.
pub fn fill_transform_input(pad: &DrawPad, samples: &mut [u16])
    requires
        pad.wf(),
        old(samples)@.len() == PIXELS,
    ensures
        final(samples)@ == widened(pad@),
{
    let src = pad.samples();
    let mut i: usize = 0;
    while i < PIXELS
        invariant
            i <= PIXELS,
            src@ == pad@,
            pad.wf(),
            samples@.len() == PIXELS,
            forall|j: int| 0 <= j < i ==> #[trigger] samples@[j] == pad@[j] as u16,
        decreases PIXELS - i,
    {
        samples[i] = src[i] as u16;
        i = i + 1;
    }
    assert(samples@ =~= widened(pad@));
}

/// The largest of the rounded coefficient magnitudes, zero for an empty field.
pub fn max_magnitude(rounded: &[u64]) -> (r: u64)
    ensures
        is_max_of(rounded@, r),
{
    let mut best: u64 = 0;
    let mut i: usize = 0;
    while i < rounded.len()
        invariant
            i <= rounded@.len(),
            forall|j: int| 0 <= j < i ==> #[trigger] rounded@[j] <= best,
            best == 0 || exists|j: int| 0 <= j < i && rounded@[j] == best,
        decreases rounded@.len() - i,
    {
        if rounded[i] > best {
            best = rounded[i];
        }
        i = i + 1;
    }
    best
}

/// `v` saturated into a channel byte.
pub fn saturate_channel(v: i64) -> (r: u8)
    ensures
        r == clamp_byte(v as int),
{
    if v < 0 {
        0
    } else if v > CHANNEL_MAX as i64 {
        CHANNEL_MAX
    } else {
        v as u8
    }
}

/// Writes the colourised spectrum into `raster`: for coefficient `i`, bytes
/// `3i`, `3i + 1`, `3i + 2` are its scaled red, green and blue channels, saturated
/// to a byte. When `max_magnitude` is zero every byte is black.
pub fn colorize_spectrum(max_magnitude: u64, scaled: &[(i64, i64, i64)], raster: &mut [u8])
    requires
        old(raster)@.len() == CHANNELS * scaled@.len(),
    ensures
        is_spectrum_raster(max_magnitude, scaled@, final(raster)@),
{
    let n = scaled.len();
    let total = raster.len();
    let mut i: usize = 0;
    while i < n
        invariant
            n == scaled@.len(),
            total == CHANNELS * n,
            i <= n,
            raster@.len() == CHANNELS * n,
            forall|k: int|
                0 <= k < CHANNELS * i ==> #[trigger] raster@[k] == spectrum_byte(
                    max_magnitude,
                    scaled@,
                    k,
                ),
        decreases n - i,
    {
        let t = scaled[i];
        let (r, g, b) = if max_magnitude == 0 {
            (0u8, 0u8, 0u8)
        } else {
            (saturate_channel(t.0), saturate_channel(t.1), saturate_channel(t.2))
        };
        let base: usize = i * CHANNELS;
        raster[base] = r;
        raster[base + 1] = g;
        raster[base + 2] = b;
        assert forall|k: int| 0 <= k < CHANNELS * (i + 1) implies #[trigger] raster@[k]
            == spectrum_byte(max_magnitude, scaled@, k) by {
            if k >= CHANNELS * i {
                assert(k / 3 == i as int);
                assert(k % 3 == k - 3 * i);
            }
        }
        i = i + 1;
    }
}

/// A blank canvas gives an all-zero transform input.
pub proof fn lemma_blank_canvas_input_is_zero(pad: Seq<u8>)
    requires
        forall|i: int| 0 <= i < pad.len() ==> #[trigger] pad[i] == 0u8,
    ensures
        widened(pad).len() == pad.len(),
        forall|i: int| 0 <= i < pad.len() ==> #[trigger] widened(pad)[i] == 0u16,
{
}

/// A spectrum whose rounded magnitudes are all zero colourises to an all-black
/// raster, whatever the scaled colour channels hold.
pub proof fn lemma_silent_spectrum_is_black(
    rounded: Seq<u64>,
    m: u64,
    scaled: Seq<(i64, i64, i64)>,
    raster: Seq<u8>,
)
    requires
        forall|i: int| 0 <= i < rounded.len() ==> #[trigger] rounded[i] == 0u64,
        is_max_of(rounded, m),
        is_spectrum_raster(m, scaled, raster),
    ensures
        m == 0,
        forall|k: int| 0 <= k < raster.len() ==> #[trigger] raster[k] == 0u8,
{
    if m != 0 {
        let i = choose|i: int| 0 <= i < rounded.len() && rounded[i] == m;
        assert(rounded[i] == 0u64);
    }
    assert forall|k: int| 0 <= k < raster.len() implies #[trigger] raster[k] == 0u8 by {
        assert(raster[k] == spectrum_byte(m, scaled, k));
    }
}

/// When every rounded magnitude equals `v` (the flat spectrum of an impulse of
/// intensity `v`), the magnitude scan yields `v`.
pub proof fn lemma_flat_spectrum_max(rounded: Seq<u64>, v: u64, m: u64)
    requires
        rounded.len() > 0,
        forall|i: int| 0 <= i < rounded.len() ==> #[trigger] rounded[i] == v,
        is_max_of(rounded, m),
    ensures
        m == v,
{
    assert(rounded[0] == v);
    if m != 0 {
        let i = choose|i: int| 0 <= i < rounded.len() && rounded[i] == m;
        assert(rounded[i] == v);
    }
}

/// Colourising is idempotent: two runs on the same field give byte-identical
/// rasters, whatever the rasters held before.
pub proof fn lemma_colorize_idempotent(
    m: u64,
    scaled: Seq<(i64, i64, i64)>,
    first: Seq<u8>,
    second: Seq<u8>,
)
    requires
        is_spectrum_raster(m, scaled, first),
        is_spectrum_raster(m, scaled, second),
    ensures
        first == second,
{
    assert(first =~= second);
}

} // verus!

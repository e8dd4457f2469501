//! Forward and inverse real-valued spectral transform of one block.
//!
//! The transform itself is realfft's; this module derives magnitude and phase
//! per bin, reconstructs complex spectra from magnitude and phase with the
//! documented edge-bin handling, and normalizes the inverse transform.

use vstd::prelude::*;

use crate::constants::{DTLN_BLOCK_LEN, DTLN_FFT_OUT_SIZE, F32_BLOCK_LEN_BITS};
use crate::float_ops::{
    atan2_bits, cos_bits, div_bits, f32_atan2, f32_cos, f32_div, f32_hypot, f32_mul, f32_sin,
    hypot_bits, mul_bits, sin_bits,
};

verus! {

pub uninterp spec fn fft_bits(block: Seq<u32>) -> Seq<(u32, u32)>;

pub uninterp spec fn ifft_bits(spectrum: Seq<(u32, u32)>) -> Seq<u32>;

/// Relies on realfft's real-to-complex transform: a block of `DTLN_BLOCK_LEN`
/// real samples yields `DTLN_FFT_OUT_SIZE` complex bins, a deterministic
/// function of the input samples alone.
#[verifier::external_body]
fn fft_forward_bits(block: &Vec<u32>) -> (r: Vec<(u32, u32)>)
    requires
        block@.len() == DTLN_BLOCK_LEN,
    ensures
        r@ == fft_bits(block@),
        r@.len() == DTLN_FFT_OUT_SIZE,
{
    let mut input: Vec<_> =
        block.iter().map(|b| libm::copysignf(bytemuck::cast(*b), bytemuck::cast(*b))).collect();
    let mut planner = realfft::RealFftPlanner::new();
    let r2c = planner.plan_fft_forward(input.len());
    let mut spectrum = r2c.make_output_vec();
    r2c.process(&mut input, &mut spectrum).unwrap();
    spectrum.iter().map(|c| (c.re.to_bits(), c.im.to_bits())).collect()
}

/// Relies on realfft's complex-to-real transform: `DTLN_FFT_OUT_SIZE` complex
/// bins yield `DTLN_BLOCK_LEN` real samples (scaled by the block length), a
/// deterministic function of the bins alone. realfft reports an error when the
/// first or last bin has a non-zero imaginary part, so those inputs are ruled
/// out here and the call cannot fail.
#[verifier::external_body]
fn fft_inverse_bits(spectrum: &Vec<(u32, u32)>) -> (r: Vec<u32>)
    requires
        spectrum@.len() == DTLN_FFT_OUT_SIZE,
        spectrum@[0].1 == 0u32,
        spectrum@[DTLN_FFT_OUT_SIZE - 1].1 == 0u32,
    ensures
        r@ == ifft_bits(spectrum@),
        r@.len() == DTLN_BLOCK_LEN,
{
    let mut input: Vec<_> = spectrum
        .iter()
        .map(
            |b| realfft::num_complex::Complex::new(
                libm::copysignf(bytemuck::cast(b.0), bytemuck::cast(b.0)),
                libm::copysignf(bytemuck::cast(b.1), bytemuck::cast(b.1)),
            ),
        )
        .collect();
    let mut planner = realfft::RealFftPlanner::new();
    let c2r = planner.plan_fft_inverse(DTLN_BLOCK_LEN);
    let mut out = c2r.make_output_vec();
    c2r.process(&mut input, &mut out).unwrap();
    out.iter().map(|x| x.to_bits()).collect()
}

/// Per-bin modulus of a complex spectrum.
pub open spec fn mags_of(bins: Seq<(u32, u32)>) -> Seq<u32> {
    Seq::new(bins.len(), |i: int| f32_hypot(bins[i].0, bins[i].1))
}

/// Per-bin argument of a complex spectrum.
pub open spec fn phases_of(bins: Seq<(u32, u32)>) -> Seq<u32> {
    Seq::new(bins.len(), |i: int| f32_atan2(bins[i].1, bins[i].0))
}

/// Element-wise product of a magnitude spectrum and a suppression mask.
pub open spec fn masked_of(mag: Seq<u32>, mask: Seq<u32>) -> Seq<u32> {
    Seq::new(mag.len(), |i: int| f32_mul(mag[i], mask[i]))
}

/// Complex spectrum reconstructed from magnitude and phase. Interior bins are
/// `mag * (cos(phase), sin(phase))`; the first (DC) and last (Nyquist) bins
/// represent strictly real frequency components of a real-valued signal, so
/// they are rebuilt with a zero imaginary part and the magnitude as real part.
pub open spec fn spectrum_of(mag: Seq<u32>, phase: Seq<u32>) -> Seq<(u32, u32)> {
    Seq::new(
        mag.len(),
        |i: int|
            if i == 0 || i == mag.len() - 1 {
                (mag[i], 0u32)
            } else {
                (f32_mul(mag[i], f32_cos(phase[i])), f32_mul(mag[i], f32_sin(phase[i])))
            },
    )
}

/// Every sample divided by the block length, undoing the scaling convention
/// of the inverse transform.
pub open spec fn normalized_of(block: Seq<u32>) -> Seq<u32> {
    Seq::new(block.len(), |i: int| f32_div(block[i], F32_BLOCK_LEN_BITS))
}

/// Magnitude and phase of the forward transform of a block.
pub open spec fn forward_spec(block: Seq<u32>) -> (Seq<u32>, Seq<u32>) {
    (mags_of(fft_bits(block)), phases_of(fft_bits(block)))
}

/// Normalized inverse transform of the spectrum rebuilt from magnitude and
/// phase.
pub open spec fn inverse_spec(mag: Seq<u32>, phase: Seq<u32>) -> Seq<u32> {
    normalized_of(ifft_bits(spectrum_of(mag, phase)))
}

/// Edge-bin realness: however magnitude and phase were produced, the spectrum
/// rebuilt from them carries a zero imaginary part in its first (DC) and last
/// (Nyquist) bin, so the inverse transform is fed a spectrum of a real-valued
/// signal and no imaginary component leaks into the reconstruction.
pub proof fn lemma_edge_bins_real(mag: Seq<u32>, phase: Seq<u32>)
    requires
        mag.len() == DTLN_FFT_OUT_SIZE,
    ensures
        spectrum_of(mag, phase)[0].1 == 0u32,
        spectrum_of(mag, phase)[DTLN_FFT_OUT_SIZE - 1].1 == 0u32,
{
}

/// Forward transform: magnitude (modulus) and phase (argument) per bin of the
/// real-to-complex transform of `block`.
pub fn forward(block: &Vec<u32>) -> (r: (Vec<u32>, Vec<u32>))
    requires
        block@.len() == DTLN_BLOCK_LEN,
    ensures
        r.0@ == forward_spec(block@).0,
        r.1@ == forward_spec(block@).1,
        r.0@.len() == DTLN_FFT_OUT_SIZE,
        r.1@.len() == DTLN_FFT_OUT_SIZE,
{
    let bins = fft_forward_bits(block);
    let mut mag: Vec<u32> = Vec::new();
    let mut phase: Vec<u32> = Vec::new();
    let n = bins.len();
    let mut i: usize = 0;
    while i < n
        invariant
            n == bins@.len(),
            bins@ == fft_bits(block@),
            i <= n,
            mag@.len() == i,
            phase@.len() == i,
            forall|j: int| 0 <= j < i ==> mag@[j] == mags_of(bins@)[j],
            forall|j: int| 0 <= j < i ==> phase@[j] == phases_of(bins@)[j],
        decreases n - i,
    {
        let (re, im) = bins[i];
        mag.push(hypot_bits(re, im));
        phase.push(atan2_bits(im, re));
        i = i + 1;
    }
    proof {
        assert(mag@ =~= mags_of(bins@));
        assert(phase@ =~= phases_of(bins@));
    }
    (mag, phase)
}

/// Inverse transform: rebuild the complex spectrum from magnitude and phase
/// (edge bins purely real), apply the complex-to-real transform, and divide
/// each sample by the block length.
pub fn inverse(mag: &Vec<u32>, phase: &Vec<u32>) -> (r: Vec<u32>)
    requires
        mag@.len() == DTLN_FFT_OUT_SIZE,
        phase@.len() == DTLN_FFT_OUT_SIZE,
    ensures
        r@ == inverse_spec(mag@, phase@),
        r@.len() == DTLN_BLOCK_LEN,
{
    let mut spectrum: Vec<(u32, u32)> = Vec::new();
    let mut i: usize = 0;
    while i < DTLN_FFT_OUT_SIZE
        invariant
            mag@.len() == DTLN_FFT_OUT_SIZE,
            phase@.len() == DTLN_FFT_OUT_SIZE,
            i <= DTLN_FFT_OUT_SIZE,
            spectrum@.len() == i,
            forall|j: int| 0 <= j < i ==> spectrum@[j] == spectrum_of(mag@, phase@)[j],
        decreases DTLN_FFT_OUT_SIZE - i,
    {
        if i == 0 || i == DTLN_FFT_OUT_SIZE - 1 {
            spectrum.push((mag[i], 0u32));
        } else {
            let re = mul_bits(mag[i], cos_bits(phase[i]));
            let im = mul_bits(mag[i], sin_bits(phase[i]));
            spectrum.push((re, im));
        }
        i = i + 1;
    }
    proof {
        assert(spectrum@ =~= spectrum_of(mag@, phase@));
        lemma_edge_bins_real(mag@, phase@);
    }
    let raw = fft_inverse_bits(&spectrum);
    let mut out: Vec<u32> = Vec::new();
    let mut k: usize = 0;
    while k < DTLN_BLOCK_LEN
        invariant
            raw@.len() == DTLN_BLOCK_LEN,
            raw@ == ifft_bits(spectrum_of(mag@, phase@)),
            k <= DTLN_BLOCK_LEN,
            out@.len() == k,
            forall|j: int| 0 <= j < k ==> out@[j] == normalized_of(raw@)[j],
        decreases DTLN_BLOCK_LEN - k,
    {
        out.push(div_bits(raw[k], F32_BLOCK_LEN_BITS));
        k = k + 1;
    }
    proof {
        assert(out@ =~= normalized_of(raw@));
    }
    out
}

} // verus!

use dtln_rs::constants::{DTLN_BLOCK_LEN, DTLN_BLOCK_SHIFT, DTLN_FFT_OUT_SIZE, F32_BLOCK_LEN_BITS};
use dtln_rs::engine::DtlnEngine;
use dtln_rs::error::DtlnError;
use dtln_rs::estimator::{FailingEstimator, PassEstimator, ZeroEstimator};
use dtln_rs::frame::FrameBuffer;
use dtln_rs::spectral::{forward, inverse};

fn to_bits(v: &[f32]) -> Vec<u32> {
    v.iter().map(|x| x.to_bits()).collect()
}

fn to_floats(v: &[u32]) -> Vec<f32> {
    v.iter().map(|b| f32::from_bits(*b)).collect()
}

/// A deterministic, non-silent test signal.
fn test_signal(len: usize) -> Vec<u32> {
    (0..len)
        .map(|i| (((i * 2654435761) % 2000) as f32 / 1000.0 - 1.0).to_bits())
        .collect()
}

#[test]
fn test_block_len_bits_constant() {
    assert_eq!((DTLN_BLOCK_LEN as f32).to_bits(), F32_BLOCK_LEN_BITS);
}

#[test]
fn test_zero_input_zero_estimator_gives_zero_output() {
    // All-zero estimators and all-zero input: 1280 samples in, 1280 zero
    // samples out, bit for bit.
    let mut engine = DtlnEngine::new(ZeroEstimator, ZeroEstimator);
    let input = vec![0u32; 1280];
    let out = engine.denoise(&input).unwrap();
    assert_eq!(out, vec![0u32; 1280]);
}

#[test]
fn test_zero_mask_silences_nonzero_input() {
    // A stage-one estimator that returns an all-zero mask forces silence
    // whatever the input holds.
    let mut engine = DtlnEngine::new(ZeroEstimator, ZeroEstimator);
    let input = test_signal(1280);
    let out = engine.denoise(&input).unwrap();
    assert_eq!(out, vec![0u32; 1280]);
}

#[test]
fn test_block_shift_invariant_output_length() {
    let mut engine = DtlnEngine::new(PassEstimator, PassEstimator);
    for blocks in [1usize, 3, 10] {
        let input = test_signal(blocks * DTLN_BLOCK_SHIFT);
        let out = engine.denoise(&input).unwrap();
        assert_eq!(out.len(), input.len());
    }
}

#[test]
fn test_unaligned_input_rejected() {
    let mut engine = DtlnEngine::new(PassEstimator, PassEstimator);
    let input = test_signal(100);
    assert_eq!(engine.denoise(&input), Err(DtlnError::UnalignedInputLength));
    // Nothing was consumed: the analysis window is still all zero.
    assert_eq!(engine.analysis_window(), vec![0u32; DTLN_BLOCK_LEN]);
}

#[test]
fn test_state_continuity_split_equals_whole() {
    // The same stream, processed in one call or split in two, produces
    // identical output and identical final windows.
    let input = test_signal(2560);
    let mut whole = DtlnEngine::new(PassEstimator, PassEstimator);
    let expected = whole.denoise(&input).unwrap();

    let mut split = DtlnEngine::new(PassEstimator, PassEstimator);
    let mut got = split.denoise(&input[..1280].to_vec()).unwrap();
    got.extend(split.denoise(&input[1280..].to_vec()).unwrap());

    assert_eq!(got, expected);
    assert_eq!(split.analysis_window(), whole.analysis_window());
    assert_eq!(split.synthesis_window(), whole.synthesis_window());
}

#[test]
fn test_estimator_failure_leaves_windows_consistent() {
    let mut engine = DtlnEngine::new(FailingEstimator, PassEstimator);
    let chunk = test_signal(DTLN_BLOCK_SHIFT);
    assert_eq!(engine.denoise(&chunk), Err(DtlnError::EstimatorFailure));
    // The synthesis window was never touched; the analysis window took the
    // chunk so the next chunk continues the stream.
    assert_eq!(engine.synthesis_window(), vec![0u32; DTLN_BLOCK_LEN]);
    let analysis = engine.analysis_window();
    assert_eq!(&analysis[..DTLN_BLOCK_LEN - DTLN_BLOCK_SHIFT], &vec![0u32; 384][..]);
    assert_eq!(&analysis[DTLN_BLOCK_LEN - DTLN_BLOCK_SHIFT..], &chunk[..]);
}

#[test]
fn test_frame_buffer_rejects_wrong_chunk() {
    let mut frame = FrameBuffer::new();
    let short = vec![0u32; 64];
    assert_eq!(frame.advance(&short), Err(DtlnError::InvalidBlockSize));
    assert_eq!(frame.samples(), vec![0u32; DTLN_BLOCK_LEN]);
}

#[test]
fn test_forward_shapes_and_impulse() {
    // The transform of a unit impulse is flat: every bin has magnitude one.
    let mut block = vec![0.0f32; DTLN_BLOCK_LEN];
    block[0] = 1.0;
    let (mag, phase) = forward(&to_bits(&block));
    assert_eq!(mag.len(), DTLN_FFT_OUT_SIZE);
    assert_eq!(phase.len(), DTLN_FFT_OUT_SIZE);
    for m in to_floats(&mag) {
        assert!((m - 1.0).abs() < 1e-3);
    }
}

#[test]
fn test_inverse_accepts_any_magnitude_phase() {
    // Whatever magnitude and phase are handed in, the rebuilt spectrum is
    // purely real in its edge bins, so the inverse transform accepts it.
    let mag = vec![1.0f32.to_bits(); DTLN_FFT_OUT_SIZE];
    let phase = vec![0.7f32.to_bits(); DTLN_FFT_OUT_SIZE];
    let block = inverse(&mag, &phase);
    assert_eq!(block.len(), DTLN_BLOCK_LEN);
}

#[test]
fn test_forward_inverse_round_trip() {
    // The edge bins are rebuilt from magnitude alone, so a block whose DC
    // and Nyquist components are positive reconstructs exactly (up to
    // floating-point rounding); an arbitrary block would lose their signs.
    let block: Vec<u32> = (0..DTLN_BLOCK_LEN)
        .map(|i| {
            let noise = ((i * 2654435761) % 1000) as f32 / 10000.0;
            let parity = if i % 2 == 0 { 0.2f32 } else { 0.0 };
            (2.0f32 + parity + noise).to_bits()
        })
        .collect();
    let (mag, phase) = forward(&block);
    let back = inverse(&mag, &phase);
    let orig = to_floats(&block);
    let got = to_floats(&back);
    for i in 0..DTLN_BLOCK_LEN {
        assert!((orig[i] - got[i]).abs() < 1e-3, "sample {i}: {} vs {}", orig[i], got[i]);
    }
}

#[test]
fn test_first_cycle_matches_spectral_composition() {
    // One chunk through pass-through estimators equals the composition of
    // the public spectral pieces: mask = magnitude, so the masked magnitude
    // is the square of each bin's magnitude.
    let chunk = test_signal(DTLN_BLOCK_SHIFT);
    let mut window = vec![0u32; DTLN_BLOCK_LEN - DTLN_BLOCK_SHIFT];
    window.extend(&chunk);
    let (mag, phase) = forward(&window);
    let masked: Vec<u32> = to_floats(&mag).iter().map(|m| (m * m).to_bits()).collect();
    let est = inverse(&masked, &phase);

    let mut engine = DtlnEngine::new(PassEstimator, PassEstimator);
    let out = engine.denoise(&chunk).unwrap();
    // The synthesis window held zeros, so the first emitted region is the
    // refined block itself added to zero.
    let expected: Vec<u32> = est[..DTLN_BLOCK_SHIFT]
        .iter()
        .map(|b| (0.0f32 + f32::from_bits(*b)).to_bits())
        .collect();
    assert_eq!(out, expected);
}

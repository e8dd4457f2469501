use dtln_rs::constants::{DTLN_BLOCK_LEN, DTLN_BLOCK_SHIFT};
use dtln_rs::engine::DtlnEngine;
use dtln_rs::error::DtlnError;
use dtln_rs::estimator::{FailingEstimator, PassEstimator, ZeroEstimator};
use dtln_rs::processor::{
    max_retrieval_wait_ms, DtlnDeferredProcessor, DtlnImmediateProcessor,
};
use dtln_rs::registry::{
    dtln_create_global, dtln_denoise_global, dtln_destroy_global, EngineTable,
};

fn test_signal(len: usize) -> Vec<u32> {
    (0..len)
        .map(|i| (((i * 2654435761) % 2000) as f32 / 1000.0 - 1.0).to_bits())
        .collect()
}

#[test]
fn test_deferred_denoise() {
    let engine = DtlnEngine::new(PassEstimator, PassEstimator);
    let mut processor = DtlnDeferredProcessor::new(engine);
    // Make vector 16384 long of floats between 0 and 10.
    let samples: Vec<u32> = (0..16384)
        .map(|_| (rand::random::<f32>() * 10.0).to_bits())
        .collect();

    let result = processor.denoise(&samples).unwrap();

    // First sample shouldn't be starved, and should be silent.
    assert_eq!(result.samples, vec![0u32; result.samples.len()]);
    assert_eq!(result.processor_starved, false);

    processor.work().unwrap();
    let result = processor.denoise(&samples).unwrap();

    // Assert the output samples length is less than or equal to the input samples length.
    assert!(result.samples.len() <= samples.len());
    assert_eq!(result.processor_starved, false);

    // Assert the result is not silence (should be the result of the previous call).
    assert_ne!(result.samples, vec![0u32; result.samples.len()]);

    // Process frames 50 times, and make sure the result matches our frame size.
    for _ in 0..50 {
        processor.work().unwrap();
        let result = processor.denoise(&samples).unwrap();
        assert_eq!(result.processor_starved, false);
        // Assert samples fit
        assert!(result.samples.len() == samples.len());
    }
}

#[test]
pub fn test_immediate_denoise() {
    let engine = DtlnEngine::new(PassEstimator, PassEstimator);
    let mut processor = DtlnImmediateProcessor::new(engine);
    // Make vector 16384 long of floats between 0 and 10.
    let samples: Vec<u32> = (0..16384)
        .map(|_| (rand::random::<f32>() * 10.0).to_bits())
        .collect();
    let result = processor.denoise(&samples).unwrap();

    // Assert the output samples length is less than or equal to the input samples length.
    assert!(result.samples.len() <= samples.len());
    assert_eq!(result.processor_starved, false);

    // Assert the result is not silence
    assert_ne!(result.samples, vec![0u32; result.samples.len()]);

    // Process frames 50 times, and make sure the result matches our frame size.
    for _ in 0..50 {
        let result = processor.denoise(&samples).unwrap();
        assert_eq!(result.processor_starved, false);
        // Assert samples fit
        assert!(result.samples.len() == samples.len());
    }
}

#[test]
fn test_first_submit_is_silent_not_starved() {
    let engine = DtlnEngine::new(PassEstimator, PassEstimator);
    let mut processor = DtlnDeferredProcessor::new(engine);
    let chunk = test_signal(1280);
    let result = processor.denoise(&chunk).unwrap();
    assert_eq!(result.samples, vec![0u32; 1280]);
    assert_eq!(result.processor_starved, false);
}

#[test]
fn test_starved_submit_returns_silence() {
    let engine = DtlnEngine::new(PassEstimator, PassEstimator);
    let mut processor = DtlnDeferredProcessor::new(engine);
    let chunk = test_signal(1280);
    let first = processor.denoise(&chunk).unwrap();
    assert!(!first.processor_starved);
    // No worker step ran, so the second submit finds nothing ready.
    let second = processor.denoise(&chunk).unwrap();
    assert!(second.processor_starved);
    assert_eq!(second.samples, vec![0u32; 1280]);
}

#[test]
fn test_ordering_under_load() {
    // Results come back in submission order with a one-chunk offset, even
    // across a starved call.
    let chunk_a = test_signal(1280);
    let chunk_b: Vec<u32> = test_signal(1280).into_iter().rev().collect();
    let chunk_c = vec![0u32; 1280];
    let chunk_d = vec![0u32; 1280];

    let mut reference = DtlnEngine::new(PassEstimator, PassEstimator);
    let out_a = reference.denoise(&chunk_a).unwrap();
    let out_b = reference.denoise(&chunk_b).unwrap();
    let out_c = reference.denoise(&chunk_c).unwrap();

    let engine = DtlnEngine::new(PassEstimator, PassEstimator);
    let mut processor = DtlnDeferredProcessor::new(engine);

    let r1 = processor.denoise(&chunk_a).unwrap();
    assert!(!r1.processor_starved);
    assert_eq!(r1.samples, vec![0u32; 1280]);

    // The worker has not run: starved, and A's result stays queued for later.
    let r2 = processor.denoise(&chunk_b).unwrap();
    assert!(r2.processor_starved);
    assert_eq!(r2.samples, vec![0u32; 1280]);

    // The worker catches up on A and B.
    assert_eq!(processor.work().unwrap(), true);
    assert_eq!(processor.work().unwrap(), true);

    let r3 = processor.denoise(&chunk_c).unwrap();
    assert!(!r3.processor_starved);
    assert_eq!(r3.samples, out_a);

    let r4 = processor.denoise(&chunk_d).unwrap();
    assert!(!r4.processor_starved);
    assert_eq!(r4.samples, out_b);

    assert_eq!(processor.work().unwrap(), true);
    let r5 = processor.denoise(&chunk_d).unwrap();
    assert!(!r5.processor_starved);
    assert_eq!(r5.samples, out_c);
}

#[test]
fn test_submit_after_stop_fails() {
    let engine = DtlnEngine::new(PassEstimator, PassEstimator);
    let mut processor = DtlnDeferredProcessor::new(engine);
    let chunk = test_signal(1280);
    processor.denoise(&chunk).unwrap();
    processor.stop();
    assert_eq!(processor.denoise(&chunk), Err(DtlnError::Stopped));
    assert_eq!(processor.work(), Err(DtlnError::Stopped));
}

#[test]
fn test_deferred_rejects_unaligned_chunk() {
    let engine = DtlnEngine::new(PassEstimator, PassEstimator);
    let mut processor = DtlnDeferredProcessor::new(engine);
    let chunk = test_signal(100);
    assert_eq!(processor.denoise(&chunk), Err(DtlnError::UnalignedInputLength));
}

#[test]
fn test_worker_failure_stops_pipeline() {
    let engine = DtlnEngine::new(FailingEstimator, PassEstimator);
    let mut processor = DtlnDeferredProcessor::new(engine);
    let chunk = test_signal(1280);
    processor.denoise(&chunk).unwrap();
    assert_eq!(processor.work(), Err(DtlnError::EstimatorFailure));
    assert_eq!(processor.denoise(&chunk), Err(DtlnError::Stopped));
}

#[test]
fn test_max_retrieval_wait() {
    // Just under the real-time duration of one chunk at 16 kHz.
    assert_eq!(max_retrieval_wait_ms(16384), 1023);
    assert_eq!(max_retrieval_wait_ms(1280), 79);
    assert_eq!(max_retrieval_wait_ms(0), 0);
}

#[test]
fn test_registry_lifecycle() {
    let mut table: EngineTable<ZeroEstimator, ZeroEstimator> = EngineTable::new();
    let id_a = dtln_create_global(&mut table, ZeroEstimator, ZeroEstimator);
    let id_b = dtln_create_global(&mut table, ZeroEstimator, ZeroEstimator);
    assert_ne!(id_a, id_b);

    // Load a signal into the first engine's audio buffer and denoise it in
    // place: the zero mask forces silence.
    table.entries[0].audio = test_signal(DTLN_BLOCK_LEN);
    dtln_denoise_global(&mut table, id_a).unwrap();
    assert_eq!(table.entries[0].audio, vec![0u32; DTLN_BLOCK_LEN]);

    dtln_destroy_global(&mut table, id_a);
    assert_eq!(table.entries.len(), 1);
    assert_eq!(table.entries[0].id, id_b);
    // Destroying an absent id changes nothing.
    dtln_destroy_global(&mut table, id_a);
    assert_eq!(table.entries.len(), 1);
}

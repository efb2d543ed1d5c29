//! Memory leak detection tests
//!
//! These tests are designed to detect memory leaks in the audio
//! processing pipeline.  They should be run with a memory debugging
//! tool to do their full work; under the plain harness they check that
//! the operations complete.

use contexture_core::audio::checksum::{calculate_checksum, ChecksumAlgorithm};

/// Test for memory leaks in checksum calculation
#[test]
fn test_checksum_memory_leak() {
    // Create a large buffer to stress test memory allocation
    let large_buffer: Vec<i16> = (0..100_000).map(|i| (i % 32767) as i16).collect();

    // Run checksum calculation multiple times to detect leaks
    for _ in 0..100 {
        let _checksum = calculate_checksum(&large_buffer, ChecksumAlgorithm::Simple);
        let _crc32 = calculate_checksum(&large_buffer, ChecksumAlgorithm::Crc32);
        let _md5 = calculate_checksum(&large_buffer, ChecksumAlgorithm::Md5);
        let _sha256 = calculate_checksum(&large_buffer, ChecksumAlgorithm::Sha256);
    }

    // If we reach here without crashing, the test passes
    assert!(true);
}

fn recursive_process(depth: usize, data: Vec<u8>) -> Vec<u8> {
    if depth == 0 {
        return data;
    }

    let mut new_data = data;
    new_data.extend_from_slice(&[depth as u8; 10]);

    // Process data
    let _sum: usize = new_data.iter().map(|&x| x as usize).sum();

    recursive_process(depth - 1, new_data)
}

/// Test for memory leaks in recursive operations
#[test]
fn test_recursive_memory_leak() {
    // Run recursive operations multiple times
    for i in 0..100 {
        let initial_data = vec![i as u8; 50];
        let _result = recursive_process(10, initial_data);
    }

    assert!(true);
}

const STRESS_ITERATIONS: usize = 1000;
const STRESS_BUFFER_SIZE: usize = 1000;

/// Test for memory stress across allocation patterns
#[test]
fn test_memory_stress() {
    for iteration in 0..STRESS_ITERATIONS {
        // Allocate various types of data
        let int_buffer: Vec<i32> = (0..STRESS_BUFFER_SIZE).map(|i| i as i32).collect();
        let float_buffer: Vec<f64> = (0..STRESS_BUFFER_SIZE).map(|i| i as f64 * 0.001).collect();
        let string_buffer: Vec<String> = (0..100).map(|i| format!("string_{}", i)).collect();

        // Process the data
        let _int_sum: i32 = int_buffer.iter().sum();
        let _float_avg = float_buffer.iter().sum::<f64>() / float_buffer.len() as f64;
        let _string_len: usize = string_buffer.iter().map(|s| s.len()).sum();

        // Create some nested structures
        let nested: Vec<Vec<u8>> = (0..10)
            .map(|i| (0..100).map(|j| (i + j) as u8).collect())
            .collect();

        let _nested_sum: usize = nested.iter().flatten().map(|&x| x as usize).sum();

        // Simulate some audio processing
        if iteration % 100 == 0 {
            let audio_samples: Vec<i16> = (0..STRESS_BUFFER_SIZE)
                .map(|i| ((i as f64 * 0.1).sin() * 32767.0) as i16)
                .collect();

            let _checksum = calculate_checksum(&audio_samples, ChecksumAlgorithm::Simple);
        }
    }

    assert!(true);
}

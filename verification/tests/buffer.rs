use ipc_clock::buffer::prefetch;
use ipc_clock::config::{message_sizes, LARGEST_MESSAGE, SAMPLE_CEILING};

#[test]
fn prefetch_adds_two_to_zeroed_buffer() {
    let mut data = vec![0u8; 4096];
    prefetch(&mut data);
    assert!(data.iter().all(|b| *b == 2));
    assert_eq!(data.len(), 4096);
}

#[test]
fn prefetch_keeps_distinct_bytes_apart() {
    let mut data = vec![1u8, 7, 100, 253];
    prefetch(&mut data);
    assert_eq!(data, vec![3u8, 9, 102, 255]);
}

#[test]
fn prefetch_empty_buffer() {
    let mut data: Vec<u8> = Vec::new();
    prefetch(&mut data);
    assert!(data.is_empty());
}

#[test]
fn message_sizes_are_the_benchmarked_ones() {
    assert_eq!(message_sizes(), vec![4, 16, 64, 256, 1024, 4096, 16384]);
    assert_eq!(*message_sizes().last().unwrap(), LARGEST_MESSAGE);
    assert_eq!(SAMPLE_CEILING, 1_000_000_000);
}

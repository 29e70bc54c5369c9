use lumina_video::audio_ring_buffer::{
    audio_ring_buffer, next_power_of_two, ReadSample, RingBufferConfig,
};

fn bits(values: &[f32]) -> Vec<u32> {
    values.iter().map(|v| v.to_bits()).collect()
}

fn sample(value: f32) -> ReadSample {
    ReadSample::Sample(value.to_bits())
}

#[test]
fn test_basic_write_read() {
    let config = RingBufferConfig { capacity_samples: 1024, prefill_samples: 4 };
    let (producer, mut consumer, mut shared) = audio_ring_buffer(config);

    // Write some samples (>= prefill threshold of 4)
    producer.write(&mut shared, &bits(&[1.0, 2.0, 3.0, 4.0, 5.0]));

    // Read them back
    assert_eq!(consumer.read_sample(&mut shared), sample(1.0));
    assert_eq!(consumer.read_sample(&mut shared), sample(2.0));
    assert_eq!(consumer.read_sample(&mut shared), sample(3.0));
    assert_eq!(consumer.read_sample(&mut shared), sample(4.0));
    assert_eq!(consumer.read_sample(&mut shared), sample(5.0));
    // Empty, which does not re-enter the prefill
    assert_eq!(consumer.read_sample(&mut shared), ReadSample::Empty);

    producer.write(&mut shared, &bits(&[6.0, 7.0]));
    assert_eq!(consumer.read_sample(&mut shared), sample(6.0));
    assert_eq!(consumer.read_sample(&mut shared), sample(7.0));
}

#[test]
fn test_stall_mode() {
    let config = RingBufferConfig { capacity_samples: 1024, prefill_samples: 10 };
    let (producer, mut consumer, mut shared) = audio_ring_buffer(config);

    producer.write(&mut shared, &bits(&[1.0, 2.0, 3.0]));
    assert_eq!(consumer.read_sample(&mut shared), ReadSample::Empty);

    producer.write(&mut shared, &bits(&[4.0, 5.0, 6.0, 7.0, 8.0, 9.0, 10.0]));
    assert_eq!(consumer.read_sample(&mut shared), sample(1.0));
    assert_eq!(consumer.read_sample(&mut shared), sample(2.0));
}

#[test]
fn test_overflow_overwrites_old() {
    let config = RingBufferConfig { capacity_samples: 1024, prefill_samples: 1 };
    let (producer, _consumer, mut shared) = audio_ring_buffer(config);

    let fill_data: Vec<f32> = (0..1024).map(|i| i as f32).collect();
    producer.write(&mut shared, &bits(&fill_data));

    let overflow_data: Vec<f32> = (1024..1124).map(|i| i as f32).collect();
    producer.write(&mut shared, &bits(&overflow_data));

    let metrics = producer.metrics(&shared);
    assert!(
        metrics.overflow_count > 0,
        "expected overflow, got count={}",
        metrics.overflow_count
    );
}

#[test]
fn test_consumer_skip_on_lap() {
    let config = RingBufferConfig { capacity_samples: 1024, prefill_samples: 4 };
    let (producer, mut consumer, mut shared) = audio_ring_buffer(config);
    let cap = 1024;

    let data: Vec<f32> = (0..10).map(|i| i as f32).collect();
    producer.write(&mut shared, &bits(&data));

    assert_eq!(consumer.read_sample(&mut shared), sample(0.0));
    assert_eq!(consumer.read_sample(&mut shared), sample(1.0));

    let big_data: Vec<f32> = (0..cap * 2).map(|i| (100 + i) as f32).collect();
    producer.write(&mut shared, &bits(&big_data));

    let read = consumer.read_sample(&mut shared);
    assert!(matches!(read, ReadSample::Sample(_)), "should get a sample after skip");
    // The oldest that is still held
    assert_eq!(read, sample(1124.0));
    assert_eq!(consumer.read_sample(&mut shared), sample(1125.0));
}

#[test]
fn test_wraparound() {
    let config = RingBufferConfig { capacity_samples: 1024, prefill_samples: 4 };
    let (producer, mut consumer, mut shared) = audio_ring_buffer(config);

    for round in 0..300 {
        let base = round as f32 * 4.0;
        producer.write(&mut shared, &bits(&[base, base + 1.0, base + 2.0, base + 3.0]));
        assert_eq!(consumer.read_sample(&mut shared), sample(base));
        assert_eq!(consumer.read_sample(&mut shared), sample(base + 1.0));
        assert_eq!(consumer.read_sample(&mut shared), sample(base + 2.0));
        assert_eq!(consumer.read_sample(&mut shared), sample(base + 3.0));
    }
}

#[test]
fn positions_wrap_at_the_width_of_the_counter() {
    let config = RingBufferConfig { capacity_samples: 1024, prefill_samples: 1 };
    let (producer, mut consumer, mut shared) = audio_ring_buffer(config);
    shared.write_pos = usize::MAX - 1;
    shared.write_head = usize::MAX - 1;
    shared.read_pos = usize::MAX - 1;
    producer.write(&mut shared, &bits(&[1.0, 2.0, 3.0, 4.0]));
    assert_eq!(producer.fill_level(&shared), 4);
    for value in [1.0, 2.0, 3.0, 4.0] {
        assert_eq!(consumer.read_sample(&mut shared), sample(value));
    }
    assert_eq!(consumer.read_sample(&mut shared), ReadSample::Empty);
}

#[test]
fn test_producer_drop_signals_dead() {
    let config = RingBufferConfig { capacity_samples: 1024, prefill_samples: 2 };
    let (producer, mut consumer, mut shared) = audio_ring_buffer(config);

    producer.write(&mut shared, &bits(&[1.0, 2.0, 3.0]));
    assert!(consumer.is_producer_alive(&shared));

    producer.close(&mut shared);
    assert!(!consumer.is_producer_alive(&shared));

    // Can still read remaining samples
    assert_eq!(consumer.read_sample(&mut shared), sample(1.0));
}

#[test]
fn test_metrics() {
    let config = RingBufferConfig { capacity_samples: 1024, prefill_samples: 4 };
    let (producer, mut consumer, mut shared) = audio_ring_buffer(config);

    producer.write(&mut shared, &bits(&[1.0, 2.0, 3.0, 4.0, 5.0]));

    let pm = producer.metrics(&shared);
    assert_eq!(pm.total_written, 5);
    assert_eq!(pm.fill_samples, 5);

    consumer.read_sample(&mut shared);
    consumer.read_sample(&mut shared);

    let cm = consumer.metrics(&shared);
    assert_eq!(cm.total_read, 2);
    assert_eq!(cm.fill_samples, 3);
}

#[test]
fn unpublished_overwrite_is_not_read_as_an_old_sample() {
    let (producer, mut consumer, mut shared) = audio_ring_buffer(RingBufferConfig {
        capacity_samples: 1024,
        prefill_samples: 1,
    });
    producer.write(&mut shared, &bits(&[1.0]));
    // Pause a producer between overwriting a slot and committing write_pos.
    shared.write_head = 1025;
    shared.buffer[0] = 1025.0_f32.to_bits();
    assert_eq!(consumer.read_sample(&mut shared), ReadSample::Empty);
    assert_eq!(shared.read_pos, 0);
}

#[test]
fn test_concurrent_write_read() {
    // The two ends take turns: a write each time, a read two times out of three.
    let config = RingBufferConfig { capacity_samples: 4096, prefill_samples: 100 };
    let (producer, mut consumer, mut shared) = audio_ring_buffer(config);
    let mut read_count = 0u64;
    let mut last_val = -1.0f32;
    for i in 0..10_000usize {
        producer.write(&mut shared, &bits(&[i as f32]));
        if i % 3 != 0 {
            if let ReadSample::Sample(val) = consumer.read_sample(&mut shared) {
                let val = f32::from_bits(val);
                assert!(val >= last_val, "went backwards: {} after {}", val, last_val);
                last_val = val;
                read_count += 1;
            }
        }
    }
    producer.close(&mut shared);
    // What is left is read until nothing comes and the producer is gone.
    loop {
        match consumer.read_sample(&mut shared) {
            ReadSample::Sample(val) => {
                let val = f32::from_bits(val);
                assert!(val >= last_val, "went backwards: {} after {}", val, last_val);
                last_val = val;
                read_count += 1;
            }
            ReadSample::Empty | ReadSample::Flushed => {
                if !consumer.is_producer_alive(&shared) {
                    break;
                }
            }
        }
    }
    assert_eq!(last_val, 9999.0);
    assert_eq!(read_count, 10_000);
    assert!(read_count > 0, "should have read some samples, got {}", read_count);
}

#[test]
fn test_flush_basic() {
    let config = RingBufferConfig { capacity_samples: 1024, prefill_samples: 4 };
    let (producer, mut consumer, mut shared) = audio_ring_buffer(config);

    producer.write(&mut shared, &bits(&[1.0, 2.0, 3.0, 4.0, 5.0]));
    assert_eq!(consumer.read_sample(&mut shared), sample(1.0));
    assert_eq!(consumer.read_sample(&mut shared), sample(2.0));

    producer.request_flush(&mut shared);
    assert_eq!(consumer.read_sample(&mut shared), ReadSample::Flushed);
    assert_eq!(consumer.read_sample(&mut shared), ReadSample::Empty);

    producer.write(&mut shared, &bits(&[10.0, 11.0, 12.0, 13.0]));
    assert_eq!(consumer.read_sample(&mut shared), sample(10.0));
    assert_eq!(consumer.read_sample(&mut shared), sample(11.0));
}

#[test]
fn prefill_is_counted_from_the_flush() {
    let config = RingBufferConfig { capacity_samples: 1024, prefill_samples: 4 };
    let (producer, mut consumer, mut shared) = audio_ring_buffer(config);

    producer.write(&mut shared, &bits(&[1.0, 2.0, 3.0, 4.0, 5.0]));
    assert_eq!(consumer.read_sample(&mut shared), sample(1.0));
    producer.request_flush(&mut shared);
    producer.write(&mut shared, &bits(&[10.0]));
    assert_eq!(consumer.read_sample(&mut shared), ReadSample::Flushed);
    producer.write(&mut shared, &bits(&[20.0]));
    assert_eq!(consumer.read_sample(&mut shared), ReadSample::Empty);
    producer.write(&mut shared, &bits(&[21.0, 22.0, 23.0]));
    assert_eq!(consumer.read_sample(&mut shared), sample(20.0));
}

#[test]
fn fill_is_what_was_written_less_what_was_read() {
    let config = RingBufferConfig { capacity_samples: 1024, prefill_samples: 2 };
    let (producer, mut consumer, mut shared) = audio_ring_buffer(config);
    for round in 1..=40u64 {
        producer.write(&mut shared, &bits(&[0.25; 5]));
        consumer.read_sample(&mut shared);
        consumer.read_sample(&mut shared);
        let metrics = producer.metrics(&shared);
        assert_eq!((metrics.total_written, metrics.total_read), (5 * round, 2 * round));
        assert_eq!(producer.fill_level(&shared) as u64, 3 * round);
    }
    producer.write(&mut shared, &bits(&[0.25; 1024]));
    assert_eq!(producer.fill_level(&shared), 1024);
}

#[test]
fn test_flush_resets_prefill() {
    let config = RingBufferConfig { capacity_samples: 1024, prefill_samples: 10 };
    let (producer, mut consumer, mut shared) = audio_ring_buffer(config);

    let data: Vec<f32> = (0..15).map(|i| i as f32).collect();
    producer.write(&mut shared, &bits(&data));
    assert_eq!(consumer.read_sample(&mut shared), sample(0.0));

    producer.request_flush(&mut shared);
    assert_eq!(consumer.read_sample(&mut shared), ReadSample::Flushed);

    producer.write(&mut shared, &bits(&[100.0, 101.0, 102.0]));
    assert_eq!(consumer.read_sample(&mut shared), ReadSample::Empty);

    producer.write(&mut shared, &bits(&[103.0, 104.0, 105.0, 106.0, 107.0, 108.0, 109.0]));
    assert_eq!(consumer.read_sample(&mut shared), sample(100.0));
}

#[test]
fn test_multiple_rapid_flushes() {
    let config = RingBufferConfig { capacity_samples: 1024, prefill_samples: 4 };
    let (producer, mut consumer, mut shared) = audio_ring_buffer(config);

    producer.write(&mut shared, &bits(&[1.0, 2.0, 3.0, 4.0]));
    assert_eq!(consumer.read_sample(&mut shared), sample(1.0));

    producer.request_flush(&mut shared);
    producer.request_flush(&mut shared);
    producer.request_flush(&mut shared);

    assert_eq!(consumer.read_sample(&mut shared), ReadSample::Flushed);
    assert_eq!(consumer.read_sample(&mut shared), ReadSample::Empty);

    producer.write(&mut shared, &bits(&[50.0, 51.0, 52.0, 53.0]));
    assert_eq!(consumer.read_sample(&mut shared), sample(50.0));
}

#[test]
fn config_presets() {
    let vod = RingBufferConfig::for_vod(48_000, 2);
    assert_eq!((vod.capacity_samples, vod.prefill_samples), (48_000, 4_800));
    let live = RingBufferConfig::for_format(44_100, 1);
    assert_eq!((live.capacity_samples, live.prefill_samples), (88_200, 22_050));
    let default = RingBufferConfig::default();
    assert_eq!((default.capacity_samples, default.prefill_samples), (192_000, 48_000));
}

#[test]
fn capacity_is_a_power_of_two_of_at_least_1024() {
    assert_eq!(next_power_of_two(0), 1);
    assert_eq!(next_power_of_two(1), 1);
    assert_eq!(next_power_of_two(1000), 1024);
    assert_eq!(next_power_of_two(1025), 2048);
    let (producer, _consumer, shared) = audio_ring_buffer(RingBufferConfig {
        capacity_samples: 3,
        prefill_samples: 5_000,
    });
    assert_eq!(producer.capacity(&shared), 1024);
    assert_eq!(shared.prefill_threshold, 512);
}

#[test]
fn neither_end_moves_the_other() {
    let config = RingBufferConfig { capacity_samples: 1024, prefill_samples: 4 };
    let (producer, mut consumer, mut shared) = audio_ring_buffer(config);
    producer.write(&mut shared, &bits(&[0.5; 8]));
    assert_eq!(shared.read_pos, 0);
    let (write_pos, write_head) = (shared.write_pos, shared.write_head);
    for read in 1..=8 {
        assert_eq!(consumer.read_sample(&mut shared), sample(0.5));
        assert_eq!(shared.read_pos, read);
    }
    assert_eq!((shared.write_pos, shared.write_head), (write_pos, write_head));
}

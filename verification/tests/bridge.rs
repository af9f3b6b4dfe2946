use orb_sound::system::sound::MemorySource;
use orb_sound::system::sound::create_bridge;

#[test]
fn source_iterator() {
    let (mut producer, mut consumer) = create_bridge(MemorySource::new(vec![1, 2]), 2, 0, 0);
    let out_of_data = producer.fill_buffer();
    assert!(!out_of_data);
    assert_eq!(consumer.next(), Some(1));
    assert_eq!(consumer.next(), Some(2));
    // buffer underrun
    assert_eq!(consumer.next(), Some(0));
    drop(producer);
    assert_eq!(consumer.next(), None);
}

#[test]
fn fill_buffer() {
    let (mut sound, mut source) = create_bridge(MemorySource::new(vec![1i16; 15]), 10, 0, 0);
    let out_of_data = sound.fill_buffer();
    assert!(!out_of_data);
    assert_eq!(source.available(), 10);
    for _ in 0..10 {
        assert_eq!(source.next(), Some(1));
    }
    assert_eq!(source.next(), Some(0));
    let out_of_data = sound.fill_buffer();
    assert!(out_of_data);
    assert_eq!(source.available(), 5);
    drop(sound);
    for _ in 0..5 {
        assert_eq!(source.next(), Some(1));
    }
    assert_eq!(source.next(), None);
}

#[test]
fn consumer_reports_fixed_format() {
    let (_producer, mut consumer) = create_bridge(MemorySource::new(vec![7]), 4, 2, 44_100);
    assert_eq!(consumer.channels(), 2);
    assert_eq!(consumer.sample_rate(), 44_100);
    let _ = consumer.next();
    assert_eq!(consumer.channels(), 2);
    assert_eq!(consumer.sample_rate(), 44_100);
}

#[test]
fn top_up_writes_at_most_budget() {
    let (mut producer, mut consumer) = create_bridge(MemorySource::new(vec![9i16; 100]), 10, 1, 8_000);
    // Ten free slots: exactly ten samples land, and the source did not run
    // dry during the call.
    let out_of_data = producer.fill_up_to(10);
    assert!(!out_of_data);
    assert_eq!(consumer.available(), 10);
    // No free slot: nothing is written, and nothing is reported dry.
    let out_of_data = producer.fill_up_to(0);
    assert!(!out_of_data);
    assert_eq!(consumer.available(), 10);
}

#[test]
fn top_up_reports_end_of_stream_iff_source_ran_dry() {
    let (mut producer, mut consumer) = create_bridge(MemorySource::new(vec![3, 4, 5]), 10, 1, 8_000);
    // The source yields only three of the ten requested samples.
    let out_of_data = producer.fill_buffer();
    assert!(out_of_data);
    assert_eq!(consumer.available(), 3);
    assert_eq!(consumer.next(), Some(3));
    assert_eq!(consumer.next(), Some(4));
    assert_eq!(consumer.next(), Some(5));
}

#[test]
fn underrun_substitutes_silence_while_producer_lives() {
    let (mut producer, mut consumer) = create_bridge(MemorySource::new(Vec::new()), 4, 1, 8_000);
    let out_of_data = producer.fill_buffer();
    assert!(out_of_data);
    // Producer alive, queue empty: silence, again and again.
    assert_eq!(consumer.next(), Some(0));
    assert_eq!(consumer.next(), Some(0));
    drop(producer);
    // Producer gone and queue drained: end of stream, permanently.
    assert_eq!(consumer.next(), None);
    assert_eq!(consumer.next(), None);
    assert_eq!(consumer.available(), 0);
}

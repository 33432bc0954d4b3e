use iceoryx2::chunk::ChunkState;
use iceoryx2::errors::LoanError;
use iceoryx2::publisher::Publisher;
use iceoryx2::sample::SampleMut;
use iceoryx2::sample::SampleMutUninit;
use iceoryx2::segment::DataSegment;

#[test]
fn loan_and_release_restores_free_chunk_count() {
    let mut publisher: Publisher<u64> = Publisher::new(4, 1, 1);
    assert_eq!(publisher.segment().free_chunk_count(), 4);

    let first = publisher.loan_uninit().unwrap();
    let second = publisher.loan_uninit().unwrap();
    assert!(publisher.segment().chunk_state(first.offset_to_chunk()).is_loaned());
    assert!(!publisher.segment().chunk_state(first.offset_to_chunk()).is_free());
    assert_eq!(publisher.segment().free_chunk_count(), 2);

    publisher.return_loaned(first);
    assert_eq!(publisher.segment().free_chunk_count(), 3);
    publisher.return_loaned(second);
    assert_eq!(publisher.segment().free_chunk_count(), 4);
}

#[test]
fn releasing_a_written_sample_restores_free_chunk_count() {
    let mut publisher: Publisher<u64> = Publisher::new(2, 1, 1);
    let sample = publisher.loan_uninit().unwrap();
    let sample = sample.write_payload(1234);
    assert_eq!(publisher.segment().free_chunk_count(), 1);

    publisher.return_loaned_init(sample);
    assert_eq!(publisher.segment().free_chunk_count(), 2);
}

#[test]
fn loan_write_send_moves_exactly_one_chunk_in_flight() {
    let mut publisher: Publisher<u64> = Publisher::new(3, 1, 1);
    let sample = publisher.loan_uninit().unwrap();
    let offset = sample.offset_to_chunk();
    assert!(publisher.segment().chunk_state(offset).is_loaned());
    assert_eq!(publisher.segment().free_chunk_count(), 2);

    let sample = sample.write_payload(42);
    sample.send(&mut publisher).unwrap();

    assert!(publisher.segment().chunk_state(offset).is_in_flight());
    assert_eq!(publisher.segment().free_chunk_count(), 2);
    let mut in_flight: usize = 0;
    for off in 0..publisher.segment().chunk_capacity() {
        if publisher.segment().chunk_state(off) == ChunkState::InFlight {
            in_flight += 1;
        }
    }
    assert_eq!(in_flight, 1);
}

#[test]
fn exhausting_the_pool_fails_with_pool_exhausted() {
    let mut publisher: Publisher<u64> = Publisher::new(2, 1, 1);
    let first = publisher.loan_uninit().unwrap();
    let _second = publisher.loan_uninit().unwrap();

    let third = publisher.loan_uninit();
    assert!(matches!(third, Err(LoanError::PoolExhausted)));
    assert_eq!(publisher.segment().free_chunk_count(), 0);

    publisher.return_loaned(first);
    assert_eq!(publisher.segment().free_chunk_count(), 1);
    assert!(publisher.loan_uninit().is_ok());
}

#[test]
fn too_long_slice_fails_with_invalid_length() {
    let mut publisher: Publisher<u64> = Publisher::new(4, 16, 1);
    let sample = publisher.loan_slice_uninit(17);
    assert!(matches!(sample, Err(LoanError::InvalidLength)));

    let sample = publisher.loan_slice_uninit(16);
    assert!(sample.is_ok());
}

#[test]
fn send_with_zero_subscribers_returns_zero_delivered() {
    let mut publisher: Publisher<u64> = Publisher::new(2, 1, 1);
    let sample = publisher.loan_uninit().unwrap();
    let sample = sample.write_payload(9);

    let delivered = sample.send(&mut publisher);
    assert_eq!(delivered, Ok(0));
}

#[test]
fn send_delivers_offset_to_every_subscriber() {
    let mut publisher: Publisher<u64> = Publisher::new(4, 1, 1);
    let sub_0 = publisher.connect_subscriber();
    let sub_1 = publisher.connect_subscriber();

    let sample = publisher.loan_uninit().unwrap();
    let offset = sample.offset_to_chunk();
    let sample = sample.write_payload(7);
    let delivered = sample.send(&mut publisher);
    assert_eq!(delivered, Ok(2));

    assert_eq!(publisher.segment().delivery_queue(sub_0), &vec![offset]);
    assert_eq!(publisher.segment().delivery_queue(sub_1), &vec![offset]);
}

#[test]
fn sends_arrive_in_send_order() {
    let mut publisher: Publisher<u64> = Publisher::new(4, 1, 1);
    let sub = publisher.connect_subscriber();

    let first = publisher.loan_uninit().unwrap();
    let first_offset = first.offset_to_chunk();
    first.write_payload(1).send(&mut publisher).unwrap();

    let second = publisher.loan_uninit().unwrap();
    let second_offset = second.offset_to_chunk();
    second.write_payload(2).send(&mut publisher).unwrap();

    assert_eq!(
        publisher.segment().delivery_queue(sub),
        &vec![first_offset, second_offset]
    );
}

#[test]
fn write_payload_initializes_the_single_element() {
    let mut publisher: Publisher<u64> = Publisher::new(2, 1, 1);
    let sample: SampleMutUninit<u64> = publisher.loan_uninit().unwrap();
    assert_eq!(sample.len(), 1);
    assert_eq!(sample.payload()[0], None);

    let mut sample: SampleMut<u64> = sample.write_payload(1234);
    assert_eq!(sample.payload(), &vec![1234]);

    sample.payload_mut()[0] = 456;
    assert_eq!(sample.payload(), &vec![456]);
}

#[test]
fn write_from_fn_initializes_each_element() {
    let mut publisher: Publisher<usize> = Publisher::new(2, 16, 1);
    let sample = publisher.loan_slice_uninit(12).unwrap();
    let sample = sample.write_from_fn(|n| n + 123);

    assert_eq!(sample.len(), 12);
    for n in 0..12 {
        assert_eq!(sample.payload()[n], n + 123);
    }
}

#[test]
fn assume_init_after_writing_every_element() {
    let mut publisher: Publisher<u64> = Publisher::new(2, 8, 1);
    let mut sample = publisher.loan_slice_uninit(3).unwrap();
    for slot in sample.payload_mut().iter_mut() {
        *slot = Some(1234);
    }
    let sample = sample.assume_init();
    assert_eq!(sample.payload(), &vec![1234, 1234, 1234]);
}

#[test]
fn loan_initializes_with_the_default_value() {
    let mut publisher: Publisher<u64> = Publisher::new(2, 1, 1);
    let sample = publisher.loan().unwrap();
    assert_eq!(sample.payload(), &vec![0]);
}

#[test]
fn loan_slice_initializes_every_element_with_the_default_value() {
    let mut publisher: Publisher<u64> = Publisher::new(2, 8, 1);
    let sample = publisher.loan_slice(5).unwrap();
    assert_eq!(sample.payload(), &vec![0, 0, 0, 0, 0]);
}

#[test]
fn header_carries_the_publisher_id() {
    let mut publisher: Publisher<u64> = Publisher::new(2, 4, 12345678901234567890);
    assert_eq!(publisher.id(), 12345678901234567890);

    let sample = publisher.loan_uninit().unwrap();
    assert_eq!(sample.header().publisher_id(), 12345678901234567890);

    let sample = sample.write_payload(1);
    assert_eq!(sample.header().publisher_id(), 12345678901234567890);
}

#[test]
fn segment_reports_its_configuration() {
    let publisher: Publisher<u64> = Publisher::new(8, 16, 1);
    assert_eq!(publisher.segment().chunk_capacity(), 8);
    assert_eq!(publisher.segment().max_slice_len(), 16);
    assert_eq!(publisher.segment().subscriber_count(), 0);
    assert_eq!(publisher.max_slice_len(), 16);
}

#[test]
fn data_segment_can_be_driven_directly() {
    let mut segment: DataSegment<u64> = DataSegment::new(1, 2);
    let offset = segment.loan_slice(2).unwrap();
    assert!(matches!(segment.loan(), Err(LoanError::PoolExhausted)));

    segment.return_loaned_sample(offset);
    let offset = segment.loan().unwrap();
    let sub = segment.connect_subscriber();
    let delivered = segment.send_sample(offset, vec![11, 22]).unwrap();
    assert_eq!(delivered, 1);
    assert_eq!(segment.delivery_queue(sub), &vec![offset]);
    assert_eq!(segment.in_flight_payload(offset), &vec![11, 22]);
}

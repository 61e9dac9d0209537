use storm::fram_test::{FramRequest, TestFm, TEST_ADDRESS, TEST_LEN};

#[test]
fn first_status_writes_the_test_buffer() {
    let mut client = TestFm::new(vec![7u8, 0xb2, 0, 0]);
    assert_eq!(
        client.status(0),
        Some(FramRequest::Write { address: 8, buffer: vec![7u8, 0xb2, 0, 0], len: 4 })
    );
}

#[test]
fn later_status_writes_nothing() {
    let mut client = TestFm::new(1u32);
    assert!(client.status(0).is_some());
    assert_eq!(client.status(0), None);
    assert_eq!(client.status(5), None);
}

#[test]
fn done_reads_back() {
    let client = TestFm::new(1u32);
    assert_eq!(
        client.done(9u32),
        FramRequest::Read { address: TEST_ADDRESS, buffer: 9u32, len: TEST_LEN }
    );
    assert_eq!(TEST_ADDRESS, 8);
    assert_eq!(TEST_LEN, 4);
}

#[test]
fn at_most_one_write_over_a_run() {
    let mut client = TestFm::new(3u8);
    let mut writes = 0;
    for round in 0..10u8 {
        if let Some(FramRequest::Write { .. }) = client.status(round) {
            writes += 1;
        }
        let _ = client.done(round);
    }
    assert_eq!(writes, 1);
}

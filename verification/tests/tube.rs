use quasar_telemetry::tube::{new_tube, new_tube_with_pool};

#[derive(Default, Debug, PartialEq)]
struct TestData {
    value: i32,
    payload: Vec<u8>,
}

#[test]
fn test_tube_send_recv() {
    let (mut tube_send, tube_recv) = new_tube::<TestData>();

    let send_buffer = tube_send.get_send_buffer();
    send_buffer.value = 42;
    send_buffer.payload = vec![1, 2, 3];

    assert!(tube_send.send().is_ok());

    let recv_buffer = tube_recv.recv().unwrap();
    assert_eq!(recv_buffer.value, 42);
}

#[test]
fn test_tube_recycle() {
    let (mut tube_send, tube_recv) = new_tube::<TestData>();

    let send_buffer = tube_send.get_send_buffer();
    send_buffer.value = 42;
    send_buffer.payload = vec![1, 2, 3];

    assert!(tube_send.send().is_ok());

    let recv_buffer = tube_recv.recv().unwrap();
    assert_eq!(recv_buffer.value, 42);

    assert!(tube_recv.recycle(recv_buffer).is_ok());

    let send_buffer = tube_send.get_send_buffer();
    assert_eq!(send_buffer.value, 0);
}

#[test]
fn test_tube_shutdown() {
    let (mut tube_send, tube_recv) = new_tube::<TestData>();

    drop(tube_recv);

    assert!(matches!(
        tube_send.send(),
        Err(e) if e.message() == "[utility] 管道已关闭，发送被阻止"
    ));
}

#[test]
fn test_tube_recv_shutdown() {
    let (tube_send, tube_recv) = new_tube::<TestData>();

    drop(tube_send);

    assert!(matches!(
        tube_recv.recv(),
        Err(e) if e.message() == "[utility] 管道已关闭，接收被阻止"
    ));
}

#[test]
fn test_tube_recycle_shutdown() {
    let (mut tube_send, tube_recv) = new_tube::<TestData>();

    assert!(tube_send.send().is_ok());

    let recv_buffer = tube_recv.recv();
    assert!(recv_buffer.is_ok());

    drop(tube_send);

    let empty_dish = recv_buffer.unwrap();
    assert!(matches!(
        tube_recv.recycle(empty_dish),
        Err(e) if e.message() == "[utility] 管道已关闭，回收被阻止"
    ));
}

#[test]
fn scenario_pool_two_commit_recycle_drop() {
    let (mut tube_send, tube_recv) = new_tube::<TestData>();

    tube_send.get_send_buffer().value = 42;
    assert!(tube_send.send().is_ok());
    let first = tube_recv.recv().unwrap();
    assert_eq!(first.value, 42);
    assert!(tube_recv.recycle(first).is_ok());

    tube_send.get_send_buffer().value = 7;
    assert!(tube_send.send().is_ok());
    let second = tube_recv.recv().unwrap();
    assert_eq!(second.value, 7);

    // Without recycling: the commit succeeds but is silently dropped, and
    // nothing new is pending on the consumer side.
    tube_send.get_send_buffer().value = 99;
    assert!(tube_send.send().is_ok());
    assert_eq!(tube_send.dropped_commits(), 1);
    assert!(matches!(tube_recv.try_recv(), Ok(None)));
}

#[test]
fn failed_commit_may_pull_a_queued_recycled_slot() {
    let (mut tube_send, tube_recv) = new_tube::<TestData>();

    tube_send.get_send_buffer().value = 42;
    assert!(tube_send.send().is_ok());
    let first = tube_recv.recv().unwrap();
    assert!(tube_recv.recycle(first).is_ok());
    drop(tube_recv);

    // The recycled slot is still queued when the consumer goes away: the
    // failing commit pulls it in, and the front slot (holding 7) is lost
    // to the dead supply channel. The queue is not left untouched here;
    // only a commit against a closed *and empty* recycle path is.
    tube_send.get_send_buffer().value = 7;
    assert!(tube_send.send().is_err());
    assert_eq!(tube_send.get_send_buffer().value, 42);

    // Now the recycle path is closed and empty: this failing commit
    // leaves the queue exactly as it is.
    tube_send.get_send_buffer().value = 9;
    assert!(tube_send.send().is_err());
    assert_eq!(tube_send.get_send_buffer().value, 9);
    assert_eq!(tube_send.dropped_commits(), 0);
}

#[test]
fn pool_of_three_allows_two_outstanding_slots() {
    let (mut tube_send, tube_recv) = new_tube_with_pool::<TestData>(3);

    for i in 1..=3 {
        tube_send.get_send_buffer().value = i;
        assert!(tube_send.send().is_ok());
    }
    // Two slots could be delivered before the producer was starved; the
    // third commit was dropped to keep one slot writable.
    assert_eq!(tube_send.dropped_commits(), 1);
    assert_eq!(tube_recv.recv().unwrap().value, 1);
    assert_eq!(tube_recv.recv().unwrap().value, 2);
    assert!(matches!(tube_recv.try_recv(), Ok(None)));
}

#[test]
fn commits_never_block_without_recycling() {
    let (mut tube_send, tube_recv) = new_tube::<TestData>();

    // First commit delivers its slot.
    tube_send.get_send_buffer().value = 1;
    assert!(tube_send.send().is_ok());
    assert_eq!(tube_send.dropped_commits(), 0);

    // The consumer never recycles: every further commit returns at once,
    // succeeds, and is counted as dropped.
    for i in 0..50 {
        tube_send.get_send_buffer().value = i;
        assert!(tube_send.send().is_ok());
    }
    assert_eq!(tube_send.dropped_commits(), 50);

    // Exactly one slot ever reached the consumer.
    let only = tube_recv.recv().unwrap();
    assert_eq!(only.value, 1);
    assert!(matches!(tube_recv.try_recv(), Ok(None)));
}

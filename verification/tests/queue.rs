use vvdoom::error::ErrorKind;
use vvdoom::keys::{KeyQueue, KEY_QUEUE_LEN};
use vvdoom::queue::{BoundedQueue, LatestQueue, QueueClosed, QueueKind};

#[test]
fn latest_queue_replaces_stale_frame() {
    let mut queue = LatestQueue::new();
    queue.push(1).unwrap();
    queue.push(2).unwrap();
    assert_eq!(queue.pop(), Some(2));
}

#[test]
fn bounded_queue_drops_oldest_audio() {
    let mut queue = BoundedQueue::new(2);
    queue.push(1).unwrap();
    queue.push(2).unwrap();
    queue.push(3).unwrap();
    assert_eq!(queue.pop(), Some(2));
    assert_eq!(queue.pop(), Some(3));
}

#[test]
fn closed_latest_queue_drains() {
    let mut queue = LatestQueue::new();
    assert!(queue.must_wait());
    queue.push(1).unwrap();
    assert!(!queue.must_wait());
    queue.close();
    assert!(queue.push(2).is_err());
    assert_eq!(queue.pop(), Some(1));
    assert!(!queue.must_wait());
    assert_eq!(queue.pop(), None);
    assert_eq!(QueueClosed.message(QueueKind::Latest), "latest-frame queue is closed");
    assert_eq!(QueueClosed.kind(), ErrorKind::BrokenPipe);
}

#[test]
fn closed_bounded_queue_drains() {
    let mut queue = BoundedQueue::new(8);
    assert!(queue.must_wait());
    queue.push(1).unwrap();
    queue.push(2).unwrap();
    queue.close();
    assert!(queue.push(3).is_err());
    assert!(!queue.must_wait());
    assert_eq!(queue.pop(), Some(1));
    assert_eq!(queue.pop(), Some(2));
    assert_eq!(queue.pop(), None);
    assert!(!queue.must_wait());
    assert_eq!(QueueClosed.message(QueueKind::Bounded), "bounded media queue is closed");
}

#[test]
fn bounded_queue_of_one_keeps_the_newest() {
    let mut queue = BoundedQueue::new(1);
    for item in 0..10 {
        queue.push(item).unwrap();
    }
    assert_eq!(queue.pop(), Some(9));
    assert_eq!(queue.pop(), None);
    queue.push(10).unwrap();
    assert_eq!(queue.pop(), Some(10));
}

#[test]
fn full_key_queue_drops_oldest_without_appearing_empty() {
    let mut queue = KeyQueue::new();
    for _ in 0..KEY_QUEUE_LEN {
        queue.enqueue_key(true, 1);
    }
    let read = queue.read_idx;
    let write = queue.write_idx;
    assert_ne!(read, write);
}

#[test]
fn full_key_queue_keeps_the_newest_in_order() {
    let mut queue = KeyQueue::new();
    for key in 0..40 {
        queue.enqueue_key(key % 2 == 0, key);
    }
    for key in 9..40 {
        assert_eq!(queue.pop_key(), Some((i32::from(key % 2 == 0), key)));
    }
    assert_eq!(queue.pop_key(), None);
}

#[test]
fn key_queue_keeps_presses_and_releases_apart() {
    let mut queue = KeyQueue::new();
    assert_eq!(queue.pop_key(), None);
    queue.enqueue_key(true, 0xff);
    queue.enqueue_key(false, 0xff);
    queue.enqueue_key(false, 0);
    assert_eq!(queue.pop_key(), Some((1, 0xff)));
    assert_eq!(queue.pop_key(), Some((0, 0xff)));
    assert_eq!(queue.pop_key(), Some((0, 0)));
    assert_eq!(queue.pop_key(), None);
}

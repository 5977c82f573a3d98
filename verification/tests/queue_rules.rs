use authorization::error::AuthorizationError;
use authorization::queue::{
    append, from_batch, none_pending, peek_front, pending_count, request_at, snapshot, take_front,
};
use authorization::values::Request;
use std::collections::VecDeque;

fn request(bytes: &[u8]) -> Request {
    Request { bytes: bytes.to_vec() }
}

#[test]
fn from_batch_keeps_the_order() {
    let batch = vec![request(&[1]), request(&[2, 2]), request(&[])];
    let queue = from_batch(&batch);
    assert_eq!(queue.len(), 3);
    assert_eq!(queue[0], request(&[1]));
    assert_eq!(queue[1], request(&[2, 2]));
    assert_eq!(queue[2], request(&[]));
}

#[test]
fn from_batch_of_nothing_is_empty() {
    let queue = from_batch(&[]);
    assert!(queue.is_empty());
}

#[test]
fn peek_front_copies_the_first() {
    let queue = from_batch(&[request(&[7, 8]), request(&[9])]);
    assert_eq!(peek_front(&queue), Ok(request(&[7, 8])));
    assert_eq!(peek_front(&queue), Ok(request(&[7, 8])));
    assert_eq!(queue.len(), 2);
}

#[test]
fn peek_front_of_empty_queue_fails() {
    let queue: VecDeque<Request> = VecDeque::new();
    assert_eq!(peek_front(&queue), Err(AuthorizationError::EmptyQueue));
}

#[test]
fn take_front_removes_the_first() {
    let mut queue = from_batch(&[request(&[1]), request(&[2]), request(&[3])]);
    assert_eq!(take_front(&mut queue), Ok(request(&[1])));
    assert_eq!(queue.len(), 2);
    assert_eq!(queue[0], request(&[2]));
    assert_eq!(queue[1], request(&[3]));
}

#[test]
fn take_front_of_empty_queue_fails_and_keeps_it() {
    let mut queue: VecDeque<Request> = VecDeque::new();
    assert_eq!(take_front(&mut queue), Err(AuthorizationError::EmptyQueue));
    assert!(queue.is_empty());
}

#[test]
fn request_at_reads_each_position() {
    let queue = from_batch(&[request(&[10]), request(&[20]), request(&[30])]);
    assert_eq!(request_at(&queue, 0), Ok(request(&[10])));
    assert_eq!(request_at(&queue, 1), Ok(request(&[20])));
    assert_eq!(request_at(&queue, 2), Ok(request(&[30])));
    assert_eq!(queue.len(), 3);
}

#[test]
fn request_at_past_the_end_names_the_index() {
    let queue = from_batch(&[request(&[10])]);
    assert_eq!(request_at(&queue, 1), Err(AuthorizationError::IndexOutOfRange { index: 1 }));
    assert_eq!(
        request_at(&queue, usize::MAX),
        Err(AuthorizationError::IndexOutOfRange { index: usize::MAX })
    );
    let empty: VecDeque<Request> = VecDeque::new();
    assert_eq!(request_at(&empty, 0), Err(AuthorizationError::IndexOutOfRange { index: 0 }));
}

#[test]
fn append_goes_to_the_back() {
    let mut queue = from_batch(&[request(&[1])]);
    append(&mut queue, request(&[2]));
    append(&mut queue, request(&[3]));
    assert_eq!(queue.len(), 3);
    assert_eq!(take_front(&mut queue), Ok(request(&[1])));
    assert_eq!(take_front(&mut queue), Ok(request(&[2])));
    assert_eq!(take_front(&mut queue), Ok(request(&[3])));
}

#[test]
fn snapshot_is_a_queue_of_its_own() {
    let mut queue = from_batch(&[request(&[1]), request(&[2])]);
    let mut copy = snapshot(&queue);
    assert_eq!(copy, queue);
    append(&mut copy, request(&[3]));
    assert_eq!(take_front(&mut queue), Ok(request(&[1])));
    assert_eq!(queue.len(), 1);
    assert_eq!(copy.len(), 3);
    assert_eq!(copy[0], request(&[1]));
}

#[test]
fn takes_hand_out_what_request_at_showed() {
    let batch = vec![request(&[5]), request(&[6]), request(&[7]), request(&[8])];
    let mut queue = from_batch(&batch);
    let shown: Vec<Request> = (0..batch.len()).map(|i| request_at(&queue, i).unwrap()).collect();
    for expected in shown {
        assert_eq!(take_front(&mut queue), Ok(expected));
    }
    assert_eq!(take_front(&mut queue), Err(AuthorizationError::EmptyQueue));
}

#[test]
fn request_clone_keeps_the_bytes() {
    let source = request(&[1, 2, 3]);
    let copy = source.clone();
    assert_eq!(copy.bytes, vec![1, 2, 3]);
    assert_eq!(copy, source);
}

#[test]
fn pending_count_follows_the_queue() {
    let mut queue: VecDeque<Request> = VecDeque::new();
    assert_eq!(pending_count(&queue), 0);
    append(&mut queue, request(&[1]));
    append(&mut queue, request(&[2]));
    assert_eq!(pending_count(&queue), 2);
    assert_eq!(take_front(&mut queue), Ok(request(&[1])));
    assert_eq!(pending_count(&queue), 1);
}

#[test]
fn none_pending_only_of_an_empty_queue() {
    let mut queue: VecDeque<Request> = VecDeque::new();
    assert!(none_pending(&queue));
    append(&mut queue, request(&[]));
    assert!(!none_pending(&queue));
    assert_eq!(take_front(&mut queue), Ok(request(&[])));
    assert!(none_pending(&queue));
}

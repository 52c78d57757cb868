use hypha::ring::Ring;
use std::rc::Rc;

#[test]
fn a_new_ring_is_empty() {
    let ring = Ring::<u32, 4>::new();
    assert!(ring.is_empty());
    assert_eq!(ring.len(), 0);
    assert!(Ring::<u32, 4>::default().is_empty());
}

#[test]
fn items_leave_in_the_order_in_which_they_came() {
    let mut ring = Ring::<u32, 4>::new();
    let mut producer = ring.producer().unwrap();
    let mut consumer = ring.consumer().unwrap();
    for round in 0..10 {
        assert_eq!(producer.push(&mut ring, 3 * round), Ok(()));
        assert_eq!(producer.push(&mut ring, 3 * round + 1), Ok(()));
        assert_eq!(producer.push(&mut ring, 3 * round + 2), Ok(()));
        assert_eq!(consumer.pop(&mut ring), Some(3 * round));
        assert_eq!(consumer.pop(&mut ring), Some(3 * round + 1));
        assert_eq!(consumer.pop(&mut ring), Some(3 * round + 2));
        assert_eq!(consumer.pop(&mut ring), None);
    }
}

#[test]
fn a_full_ring_hands_the_item_back() {
    let mut ring = Ring::<u32, 3>::new();
    let mut producer = ring.producer().unwrap();
    assert_eq!(producer.push(&mut ring, 1), Ok(()));
    assert_eq!(producer.push(&mut ring, 2), Ok(()));
    assert_eq!(producer.push(&mut ring, 3), Err(3));
    assert_eq!(ring.len(), 2);
    assert_eq!(producer.len(&ring), 2);
    assert!(!producer.is_empty(&ring));
}

#[test]
fn a_ring_of_one_slot_holds_nothing() {
    let mut ring = Ring::<u32, 1>::new();
    let mut producer = ring.producer().unwrap();
    assert_eq!(producer.push(&mut ring, 1), Err(1));
    assert_eq!(producer.extend(&mut ring, vec![1, 2]), Err(vec![1, 2]));
    assert!(ring.is_empty());
}

#[test]
fn what_does_not_fit_is_handed_back() {
    let mut ring = Ring::<u32, 5>::new();
    let mut producer = ring.producer().unwrap();
    let mut consumer = ring.consumer().unwrap();
    assert_eq!(producer.extend(&mut ring, vec![1, 2]), Ok(()));
    assert_eq!(producer.extend(&mut ring, vec![3, 4, 5, 6]), Err(vec![5, 6]));
    assert_eq!(consumer.len(&ring), 4);
    assert_eq!(consumer.drain(&mut ring), vec![1, 2, 3, 4]);
    assert!(consumer.is_empty(&ring));
    assert!(producer.is_empty(&ring));
}

#[test]
fn as_many_as_wanted_are_taken() {
    let mut ring = Ring::<u32, 8>::new();
    let mut producer = ring.producer().unwrap();
    let mut consumer = ring.consumer().unwrap();
    assert_eq!(producer.extend(&mut ring, vec![1, 2, 3, 4, 5]), Ok(()));
    assert_eq!(consumer.take(&mut ring, 2), vec![1, 2]);
    assert_eq!(consumer.take(&mut ring, 0), Vec::<u32>::new());
    assert_eq!(consumer.take(&mut ring, 9), vec![3, 4, 5]);
}

#[test]
fn each_end_is_there_once() {
    let mut ring = Ring::<u32, 4>::new();
    let consumer = ring.consumer().unwrap();
    assert!(ring.consumer().is_none());
    let producer = ring.producer().unwrap();
    assert!(ring.producer().is_none());
    consumer.release(&mut ring);
    assert!(ring.consumer().is_some());
    producer.release(&mut ring);
    assert!(ring.producer().is_some());
}

#[test]
fn an_end_goes_on_where_the_last_one_stopped() {
    let mut ring = Ring::<u32, 4>::new();
    let mut producer = ring.producer().unwrap();
    assert_eq!(producer.push(&mut ring, 1), Ok(()));
    producer.release(&mut ring);
    let mut producer = ring.producer().unwrap();
    assert_eq!(producer.push(&mut ring, 2), Ok(()));
    let mut consumer = ring.consumer().unwrap();
    assert_eq!(consumer.pop(&mut ring), Some(1));
    consumer.release(&mut ring);
    let mut consumer = ring.consumer().unwrap();
    assert_eq!(consumer.pop(&mut ring), Some(2));
}

#[test]
fn a_reader_is_notified_of_items() {
    let mut ring = Ring::<u32, 4>::new();
    let mut producer = ring.producer().unwrap();
    let mut consumer = ring.consumer().unwrap();
    assert!(!consumer.notified(&mut ring));
    assert_eq!(producer.push(&mut ring, 1), Ok(()));
    assert!(consumer.notified(&mut ring));
    assert_eq!(ring.len(), 1);
    assert_eq!(consumer.drain(&mut ring), vec![1]);
    assert!(!consumer.notified(&mut ring));
}

#[test]
fn a_reader_that_waits_is_woken_once() {
    let mut ring = Ring::<u32, 3>::new();
    let mut producer = ring.producer().unwrap();
    let consumer = ring.consumer().unwrap();
    assert!(!ring.take_wake());
    assert!(!consumer.notified(&mut ring));
    assert!(!ring.take_wake());
    assert_eq!(producer.extend(&mut ring, Vec::new()), Ok(()));
    assert!(!ring.take_wake());
    assert_eq!(producer.push(&mut ring, 1), Ok(()));
    assert!(ring.take_wake());
    assert!(!ring.take_wake());
    assert_eq!(producer.push(&mut ring, 2), Ok(()));
    assert!(!ring.take_wake());
    assert_eq!(producer.push(&mut ring, 3), Err(3));
}

#[test]
fn items_that_were_written_before_keep_a_reader_from_waiting() {
    let mut ring = Ring::<u32, 3>::new();
    let mut producer = ring.producer().unwrap();
    let consumer = ring.consumer().unwrap();
    assert_eq!(producer.push(&mut ring, 1), Ok(()));
    assert!(consumer.notified(&mut ring));
    assert_eq!(producer.push(&mut ring, 2), Ok(()));
    assert!(!ring.take_wake());
}

#[test]
fn a_ring_that_is_given_up_hands_its_items_back() {
    let item = Rc::new(());
    let mut ring = Ring::<Rc<()>, 3>::new();
    let mut producer = ring.producer().unwrap();
    assert!(producer.extend(&mut ring, vec![item.clone(), item.clone()]).is_ok());
    assert_eq!(Rc::strong_count(&item), 3);
    assert_eq!(ring.release().len(), 2);
    assert_eq!(Rc::strong_count(&item), 1);
}

#[test]
fn items_that_go_round_the_end_are_not_dropped_with_the_ring() {
    let item = Rc::new(());
    let mut ring = Ring::<Rc<()>, 3>::new();
    let mut producer = ring.producer().unwrap();
    let mut consumer = ring.consumer().unwrap();
    assert!(producer.extend(&mut ring, vec![item.clone(), item.clone()]).is_ok());
    assert!(consumer.pop(&mut ring).is_some());
    assert!(producer.push(&mut ring, item.clone()).is_ok());
    assert_eq!(Rc::strong_count(&item), 3);
    assert!(ring.release().is_empty());
    assert_eq!(Rc::strong_count(&item), 3);
}

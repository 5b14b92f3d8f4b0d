use window_host::lifecycle::Coordinator;
use window_host::queue::EventQueue;

#[test]
fn new_queue_is_empty() {
    let queue: EventQueue<u8> = EventQueue::new();
    assert!(queue.is_empty());
    assert_eq!(queue.len(), 0);
}

#[test]
fn drain_returns_events_in_arrival_order_exactly_once() {
    let mut queue = EventQueue::new();
    for event in [7, 3, 3, 9, 1] {
        queue.push(event);
    }
    assert_eq!(queue.len(), 5);
    assert!(!queue.is_empty());
    assert_eq!(queue.drain(), vec![7, 3, 3, 9, 1]);
    assert!(queue.is_empty());
    assert_eq!(queue.drain(), Vec::<i32>::new());
}

#[test]
fn events_between_two_drains_are_seen_by_the_second() {
    let mut queue = EventQueue::new();
    queue.push("a".to_string());
    assert_eq!(queue.drain(), vec!["a".to_string()]);
    queue.push("b".to_string());
    queue.push("c".to_string());
    assert_eq!(queue.drain(), vec!["b".to_string(), "c".to_string()]);
}

#[test]
fn coordinator_drain_hands_over_arrivals_in_order() {
    let mut coordinator: Coordinator<u32> = Coordinator::new();
    for event in 0..100 {
        coordinator.enqueue(event);
    }
    assert_eq!(coordinator.pending_events(), 100);
    assert_eq!(coordinator.drain(), Some((0..100).collect::<Vec<u32>>()));
    assert_eq!(coordinator.pending_events(), 0);
    assert_eq!(coordinator.drain(), None);
    coordinator.enqueue(5);
    coordinator.enqueue(4);
    assert_eq!(coordinator.drain(), Some(vec![5, 4]));
}

#[test]
fn draining_an_empty_queue_never_flips_the_redraw_flag() {
    let mut coordinator: Coordinator<u32> = Coordinator::new();
    assert!(!coordinator.redraw_needed());
    assert_eq!(coordinator.drain(), None);
    assert!(!coordinator.redraw_needed());

    coordinator.enqueue(1);
    assert_eq!(coordinator.drain(), Some(vec![1]));
    assert!(coordinator.redraw_needed());
    assert_eq!(coordinator.drain(), None);
    assert!(coordinator.redraw_needed());
}

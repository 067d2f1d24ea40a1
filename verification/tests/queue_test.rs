use rsvr::queue::Queue;

#[test]
fn stack_mode_pops_newest_first() {
    let mut q: Queue<u32> = Queue::new();
    assert!(q.is_empty());
    q.push(1);
    q.push(2);
    q.push(3);
    assert_eq!(q.len(), 3);
    assert_eq!(q.pop(), Some(3));
    assert_eq!(q.pop(), Some(2));
    q.push(4);
    assert_eq!(q.pop(), Some(4));
    assert_eq!(q.pop(), Some(1));
    assert_eq!(q.pop(), None);
    assert!(q.is_empty());
}

#[test]
fn circle_mode_pops_in_arrival_order() {
    let mut q: Queue<&str> = Queue::new();
    q.enable_circle();
    q.push("a");
    q.push("b");
    q.push("c");
    assert_eq!(q.pop(), Some("a"));
    q.push("d");
    assert_eq!(q.pop(), Some("b"));
    assert_eq!(q.pop(), Some("c"));
    assert!(!q.is_empty());
    assert_eq!(q.pop(), Some("d"));
    assert_eq!(q.pop(), None);
    assert!(q.is_empty());
}

#[test]
fn circle_enabled_after_pushes_keeps_order() {
    let mut q: Queue<i32> = Queue::new();
    q.push(10);
    q.push(20);
    q.enable_circle();
    assert_eq!(q.pop(), Some(10));
    assert_eq!(q.pop(), Some(20));
    assert_eq!(q.pop(), None);
}

#[test]
fn len_counts_items_not_yet_moved_over() {
    let mut q: Queue<u8> = Queue::new();
    q.enable_circle();
    q.push(1);
    q.push(2);
    assert_eq!(q.len(), 2);
    assert_eq!(q.pop(), Some(1));
    // the remaining item was moved over for popping
    assert_eq!(q.len(), 0);
    assert!(q.len() <= 1);
    assert!(!q.is_empty());
    q.push(3);
    assert_eq!(q.len(), 1);
}

#[test]
fn pop_on_empty_queue_changes_nothing() {
    let mut q: Queue<u8> = Queue::new();
    assert_eq!(q.pop(), None);
    q.enable_circle();
    assert_eq!(q.pop(), None);
    assert!(q.is_empty());
}

use webhook::{Embed, Webhook, WebhookQueue};

fn payload(tag: &str) -> Webhook {
    Webhook::new("https://discord.example.com/hook").set_content(tag)
}

fn tags(delivered: &[Webhook]) -> Vec<String> {
    delivered.iter().map(|w| w.content.clone().expect("every test payload has content")).collect()
}

#[test]
fn single_enqueues_drain_in_fifo_order() {
    let mut queue = WebhookQueue::new();
    queue.enqueue(payload("first"));
    queue.enqueue(payload("second"));
    queue.enqueue(payload("third"));
    assert_eq!(queue.len(), 3);

    let (delivered, windows) = queue.drain_all();
    assert_eq!(tags(&delivered), vec!["first", "second", "third"]);
    assert_eq!(windows, 2);
    assert_eq!(queue.len(), 0);
}

#[test]
fn multi_enqueue_reverses_the_batch_in_the_queue() {
    let mut queue = WebhookQueue::new();
    queue.enqueue_multi(vec![payload("a"), payload("b"), payload("c")]);

    // The batch sits front to back as c, b, a: the last payload of the batch
    // ends up closest to the front.
    let fronts = tags(queue.webhooks.make_contiguous());
    assert_eq!(fronts, vec!["c", "b", "a"]);

    // The drain pops from the back, so the batch is delivered in its own
    // order relative to itself.
    let (delivered, _) = queue.drain_all();
    assert_eq!(tags(&delivered), vec!["a", "b", "c"]);
}

#[test]
fn five_payloads_drain_in_three_windows() {
    let mut queue = WebhookQueue::new();
    for i in 0..5 {
        queue.enqueue(payload(&format!("payload {}", i)));
    }
    assert_eq!(queue.len(), 5);

    let (delivered, windows) = queue.drain_all();
    assert_eq!(windows, 3);
    assert_eq!(delivered.len(), 5);
    assert_eq!(queue.len(), 0);
}

#[test]
fn drain_window_takes_up_to_two_from_the_back() {
    let mut queue = WebhookQueue::new();
    queue.enqueue(payload("one"));
    queue.enqueue(payload("two"));
    queue.enqueue(payload("three"));

    let (first, second) = queue.drain_window();
    assert_eq!(first.expect("the oldest payload").content.as_deref(), Some("one"));
    assert_eq!(second.expect("the next payload").content.as_deref(), Some("two"));
    assert_eq!(queue.len(), 1);

    let (third, nothing) = queue.drain_window();
    assert_eq!(third.expect("the last payload").content.as_deref(), Some("three"));
    assert!(nothing.is_none());

    let (empty_one, empty_two) = queue.drain_window();
    assert!(empty_one.is_none());
    assert!(empty_two.is_none());
}

#[test]
fn empty_queue_drains_in_zero_windows() {
    let mut queue = WebhookQueue::new();
    let (delivered, windows) = queue.drain_all();
    assert!(delivered.is_empty());
    assert_eq!(windows, 0);
}

use climate::broadcaster::Delivery;
use climate::broadcaster::EventBroadcaster;
use climate::broadcaster::LagPolicy;
use climate::broadcaster::StreamStep;
use climate::broadcaster::Subscription;
use climate::broadcaster::EVENT_CAPACITY;
use tokio::sync::broadcast;

fn next(stream: &mut Subscription) -> Option<Delivery> {
    match stream.receiver.try_recv() {
        Ok((stamp, line)) => Some(Delivery::Line(stamp, line)),
        Err(broadcast::error::TryRecvError::Lagged(missed)) => Some(Delivery::Lagged(missed)),
        Err(broadcast::error::TryRecvError::Closed) => Some(Delivery::Closed),
        Err(broadcast::error::TryRecvError::Empty) => None,
    }
}

fn emitted(stream: &mut Subscription, policy: LagPolicy) -> Option<StreamStep> {
    next(stream).map(|delivery| stream.cursor.accept(delivery, policy))
}

fn line(text: &str) -> StreamStep {
    StreamStep::Emit { line: text.to_string(), missed: 0 }
}

fn cursor_at(position: u64) -> Subscription {
    let mut events = EventBroadcaster::new();
    for _ in 0..position {
        events.publish(String::new());
    }
    events.subscribe().unwrap()
}

#[test]
fn subscriber_sees_lines_published_after_it_attached_in_order() {
    let mut events = EventBroadcaster::new();
    assert_eq!(events.publish("before".to_string()), 0);

    let mut stream = events.subscribe().unwrap();
    assert_eq!(stream.cursor.next_stamp(), 1);
    assert_eq!(next(&mut stream), None);

    assert_eq!(events.publish("one".to_string()), 1);
    assert_eq!(events.publish("two".to_string()), 1);
    assert_eq!(events.publish("three".to_string()), 1);

    assert_eq!(emitted(&mut stream, LagPolicy::Continue), Some(line("one")));
    assert_eq!(emitted(&mut stream, LagPolicy::Continue), Some(line("two")));
    assert_eq!(emitted(&mut stream, LagPolicy::Continue), Some(line("three")));
    assert_eq!(next(&mut stream), None);
    assert_eq!(stream.cursor.next_stamp(), 4);
}

#[test]
fn lines_are_numbered_in_publication_order() {
    let mut events = EventBroadcaster::new();
    assert_eq!(events.number("a".to_string()), Some((0, "a".to_string())));
    assert_eq!(events.number("b".to_string()), Some((1, "b".to_string())));
    assert_eq!(events.publish("c".to_string()), 0);
    assert_eq!(events.number("d".to_string()), Some((3, "d".to_string())));
    events.close();
    assert_eq!(events.number("e".to_string()), None);
}

#[test]
fn every_subscriber_gets_every_line() {
    let mut events = EventBroadcaster::new();
    let mut first = events.subscribe().unwrap();
    assert_eq!(events.publish("a".to_string()), 1);
    let mut second = events.subscribe().unwrap();
    assert_eq!(events.publish("b".to_string()), 2);

    assert_eq!(next(&mut first), Some(Delivery::Line(0, "a".to_string())));
    assert_eq!(next(&mut first), Some(Delivery::Line(1, "b".to_string())));
    assert_eq!(next(&mut second), Some(Delivery::Line(1, "b".to_string())));
    assert_eq!(next(&mut second), None);
}

#[test]
fn slow_subscriber_is_told_of_the_gap_and_the_producer_goes_on() {
    let mut events = EventBroadcaster::with_capacity(2).unwrap();
    let mut slow = events.subscribe().unwrap();
    for n in 0..5 {
        assert_eq!(events.publish(format!("line {}", n)), 1);
    }

    let delivery = next(&mut slow).unwrap();
    assert_eq!(delivery, Delivery::Lagged(3));
    assert_eq!(slow.cursor.accept(delivery, LagPolicy::Continue), StreamStep::Gap(3));
    assert_eq!(slow.cursor.next_stamp(), 3);

    assert_eq!(emitted(&mut slow, LagPolicy::Continue), Some(line("line 3")));
    assert_eq!(emitted(&mut slow, LagPolicy::Continue), Some(line("line 4")));
    assert_eq!(next(&mut slow), None);
}

#[test]
fn slow_subscriber_that_does_not_tolerate_loss_is_disconnected() {
    let mut events = EventBroadcaster::with_capacity(2).unwrap();
    let mut slow = events.subscribe().unwrap();
    for n in 0..4 {
        events.publish(format!("line {}", n));
    }
    let step = emitted(&mut slow, LagPolicy::Disconnect).unwrap();
    assert_eq!(step, StreamStep::Dropped(2));
    assert!(!step.continues());
    assert_eq!(slow.cursor.next_stamp(), 0);
}

#[test]
fn lag_policy_decides_between_gap_and_disconnect() {
    let mut stream = cursor_at(5);
    assert_eq!(stream.cursor.accept(Delivery::Lagged(9), LagPolicy::Disconnect), StreamStep::Dropped(9));
    assert_eq!(stream.cursor.next_stamp(), 5);
    assert_eq!(stream.cursor.accept(Delivery::Lagged(9), LagPolicy::Continue), StreamStep::Gap(9));
    assert_eq!(stream.cursor.next_stamp(), 14);
    assert!(StreamStep::Gap(9).continues());
    assert!(!StreamStep::Dropped(9).continues());
}

#[test]
fn line_at_the_cursor_is_emitted_verbatim() {
    let mut stream = cursor_at(2);
    let text = "  {\"raw\": true}  ".to_string();
    assert_eq!(
        stream.cursor.accept(Delivery::Line(2, text.clone()), LagPolicy::Disconnect),
        StreamStep::Emit { line: text, missed: 0 }
    );
    assert_eq!(stream.cursor.next_stamp(), 3);
    assert!(line("x").continues());
}

#[test]
fn line_before_the_cursor_is_never_emitted() {
    let mut stream = cursor_at(3);
    for stamp in 0..3 {
        assert_eq!(
            stream.cursor.accept(Delivery::Line(stamp, "old".to_string()), LagPolicy::Continue),
            StreamStep::Skip
        );
        assert_eq!(stream.cursor.next_stamp(), 3);
    }
    assert_eq!(stream.cursor.accept(Delivery::Line(3, "new".to_string()), LagPolicy::Continue), line("new"));
    assert_eq!(
        stream.cursor.accept(Delivery::Line(3, "again".to_string()), LagPolicy::Continue),
        StreamStep::Skip
    );
    assert!(StreamStep::Skip.continues());
}

#[test]
fn line_beyond_the_cursor_shows_what_went_missing() {
    let mut stream = cursor_at(1);
    assert_eq!(
        stream.cursor.accept(Delivery::Line(4, "far".to_string()), LagPolicy::Continue),
        StreamStep::Emit { line: "far".to_string(), missed: 3 }
    );
    assert_eq!(stream.cursor.next_stamp(), 5);
    assert_eq!(
        stream.cursor.accept(Delivery::Line(7, "farther".to_string()), LagPolicy::Disconnect),
        StreamStep::Dropped(2)
    );
    assert_eq!(stream.cursor.next_stamp(), 5);
}

#[test]
fn numbers_at_the_end_of_the_range_are_handled() {
    let mut stream = cursor_at(0);
    assert_eq!(
        stream.cursor.accept(Delivery::Line(u64::MAX, "never numbered".to_string()), LagPolicy::Continue),
        StreamStep::Skip
    );
    assert_eq!(
        stream.cursor.accept(Delivery::Line(u64::MAX - 1, "last".to_string()), LagPolicy::Continue),
        StreamStep::Emit { line: "last".to_string(), missed: u64::MAX - 1 }
    );
    assert_eq!(stream.cursor.next_stamp(), u64::MAX);
    assert_eq!(
        stream.cursor.accept(Delivery::Line(u64::MAX - 1, "last".to_string()), LagPolicy::Continue),
        StreamStep::Skip
    );

    let mut stream = cursor_at(10);
    assert_eq!(stream.cursor.accept(Delivery::Lagged(u64::MAX), LagPolicy::Continue), StreamStep::Gap(u64::MAX));
    assert_eq!(stream.cursor.next_stamp(), u64::MAX);
}

#[test]
fn end_of_stream_is_a_normal_end() {
    let mut stream = cursor_at(0);
    assert_eq!(stream.cursor.accept(Delivery::Closed, LagPolicy::Continue), StreamStep::End);
    assert_eq!(stream.cursor.accept(Delivery::Closed, LagPolicy::Disconnect), StreamStep::End);
    assert!(!StreamStep::End.continues());
}

#[test]
fn closed_broadcaster_ends_streams_after_what_is_queued() {
    let mut events = EventBroadcaster::new();
    let mut stream = events.subscribe().unwrap();
    assert_eq!(events.publish("last".to_string()), 1);
    assert!(events.accepts());

    events.close();
    assert!(!events.accepts());
    assert!(events.subscribe().is_none());
    assert_eq!(events.publish("lost".to_string()), 0);

    assert_eq!(emitted(&mut stream, LagPolicy::Continue), Some(line("last")));
    assert_eq!(emitted(&mut stream, LagPolicy::Continue), Some(StreamStep::End));
}

#[test]
fn broadcaster_capacity_must_be_usable() {
    assert!(EventBroadcaster::with_capacity(0).is_none());
    assert!(EventBroadcaster::with_capacity(usize::MAX / 2 + 1).is_none());
    assert!(EventBroadcaster::with_capacity(1).is_some());
    assert_eq!(EVENT_CAPACITY, 1024);
}

#[test]
fn default_ring_keeps_a_thousand_and_twenty_four_lines() {
    let mut events = EventBroadcaster::new();
    let mut stream = events.subscribe().unwrap();
    for n in 0..1025 {
        events.publish(format!("{}", n));
    }
    assert_eq!(emitted(&mut stream, LagPolicy::Continue), Some(StreamStep::Gap(1)));
    assert_eq!(emitted(&mut stream, LagPolicy::Continue), Some(line("1")));
}

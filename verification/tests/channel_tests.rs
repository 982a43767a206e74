use chat::channel::{Channel, Receive, CHANNEL_CAPACITY};
use chat::server::ChatServer;

fn msg(r: Receive) -> String {
    match r {
        Receive::Msg(m) => m,
        other => panic!("expected a message, got {:?}", other),
    }
}

#[test]
fn empty_channel_has_nothing_to_receive() {
    let c = Channel::new(4);
    let mut s = c.subscribe();
    assert!(matches!(s.receive(&c), Receive::Empty));
    assert!(matches!(s.receive(&c), Receive::Empty));
}

#[test]
fn messages_arrive_in_publish_order() {
    let mut c = Channel::new(10);
    let mut s = c.subscribe();
    assert_eq!(c.published(), 0);
    c.publish("one".to_string());
    c.publish("two".to_string());
    c.publish("three".to_string());
    assert_eq!(c.published(), 3);
    assert_eq!(msg(s.receive(&c)), "one");
    assert_eq!(msg(s.receive(&c)), "two");
    assert_eq!(msg(s.receive(&c)), "three");
    assert!(matches!(s.receive(&c), Receive::Empty));
}

#[test]
fn all_subscribers_observe_the_same_order() {
    // Lines published by different sessions interleave into one total
    // order that every subscriber observes identically.
    let mut c = Channel::new(10);
    let mut a = c.subscribe();
    let mut b = c.subscribe();
    c.publish("s1: hello".to_string());
    c.publish("s2: hi".to_string());
    c.publish("s1: bye".to_string());
    let seen_by_a = vec![msg(a.receive(&c)), msg(a.receive(&c)), msg(a.receive(&c))];
    let seen_by_b = vec![msg(b.receive(&c)), msg(b.receive(&c)), msg(b.receive(&c))];
    assert_eq!(seen_by_a, seen_by_b);
    assert_eq!(seen_by_a, vec!["s1: hello", "s2: hi", "s1: bye"]);
}

#[test]
fn late_subscriber_sees_only_later_messages() {
    let mut c = Channel::new(10);
    c.publish("before".to_string());
    let mut s = c.subscribe();
    assert!(matches!(s.receive(&c), Receive::Empty));
    c.publish("after".to_string());
    assert_eq!(msg(s.receive(&c)), "after");
}

#[test]
fn lagging_subscriber_resyncs_to_oldest_retained() {
    // The lag scenario: a subscriber ignores more than the retained
    // window's worth of messages, then asks again. It is told how many
    // it missed and resumes from the oldest retained message, rather
    // than getting an unbounded backlog or a hard error.
    let server = ChatServer::new("127.0.0.1:0".to_string());
    let mut c = server.make_channel();
    let mut s = c.subscribe();
    for i in 0..150 {
        c.publish(format!("m{}", i));
    }
    match s.receive(&c) {
        Receive::Lagged { missed } => assert_eq!(missed, 150 - CHANNEL_CAPACITY),
        other => panic!("expected lag, got {:?}", other),
    }
    assert_eq!(msg(s.receive(&c)), format!("m{}", 150 - CHANNEL_CAPACITY));
    assert_eq!(msg(s.receive(&c)), format!("m{}", 151 - CHANNEL_CAPACITY));
}

#[test]
fn subscriber_within_window_misses_nothing() {
    let mut c = Channel::new(3);
    let mut s = c.subscribe();
    c.publish("a".to_string());
    c.publish("b".to_string());
    c.publish("c".to_string());
    assert_eq!(msg(s.receive(&c)), "a");
    assert_eq!(msg(s.receive(&c)), "b");
    assert_eq!(msg(s.receive(&c)), "c");
}

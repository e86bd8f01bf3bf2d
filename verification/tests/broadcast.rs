use unbounded_broadcaster::BroadcastError;
use unbounded_broadcaster::UnboundedBroadcaster;

#[test]
fn no_subscribers_returns_value() {
    let b: UnboundedBroadcaster<u32> = UnboundedBroadcaster::new();
    match b.send(5) {
        Err(BroadcastError::NoReceivers(v)) => assert_eq!(v, 5),
        _ => panic!("send with no subscribers must fail with NoReceivers"),
    }
}

#[test]
fn single_subscriber_single_value() {
    let b: UnboundedBroadcaster<u32> = UnboundedBroadcaster::new();
    let mut rx = b.receiver().ok().unwrap();
    assert!(b.send(42).is_ok());
    assert_eq!(rx.try_recv().unwrap(), 42);
}

#[test]
fn fan_out_to_two_subscribers() {
    let b: UnboundedBroadcaster<String> = UnboundedBroadcaster::new();
    let mut s1 = b.receiver().ok().unwrap();
    let mut s2 = b.receiver().ok().unwrap();
    assert!(b.send("x".to_string()).is_ok());
    assert_eq!(s1.try_recv().unwrap(), "x");
    assert_eq!(s2.try_recv().unwrap(), "x");
    assert!(s1.try_recv().is_err());
    assert!(s2.try_recv().is_err());
}

#[test]
fn late_join_sees_only_later_values() {
    let b: UnboundedBroadcaster<String> = UnboundedBroadcaster::new();
    assert!(b.send("a".to_string()).is_err());
    let mut s1 = b.receiver().ok().unwrap();
    assert!(b.send("b".to_string()).is_ok());
    assert_eq!(s1.try_recv().unwrap(), "b");
    assert!(s1.try_recv().is_err());
}

#[test]
fn pruning_on_drop_keeps_live_subscriber() {
    let b: UnboundedBroadcaster<String> = UnboundedBroadcaster::new();
    let s1 = b.receiver().ok().unwrap();
    let mut s2 = b.receiver().ok().unwrap();
    drop(s1);
    assert!(b.send("y".to_string()).is_ok());
    assert!(b.send("z".to_string()).is_ok());
    assert_eq!(s2.try_recv().unwrap(), "y");
    assert_eq!(s2.try_recv().unwrap(), "z");
}

#[test]
fn all_subscribers_gone() {
    let b: UnboundedBroadcaster<String> = UnboundedBroadcaster::new();
    let s1 = b.receiver().ok().unwrap();
    drop(s1);
    match b.send("q".to_string()) {
        Err(BroadcastError::NoReceivers(v)) => assert_eq!(v, "q"),
        _ => panic!("send with every subscriber gone must fail with NoReceivers"),
    }
}

#[test]
fn single_subscriber_receives_in_send_order() {
    let b: UnboundedBroadcaster<u32> = UnboundedBroadcaster::new();
    let mut rx = b.receiver().ok().unwrap();
    assert!(b.send(1).is_ok());
    assert!(b.send(2).is_ok());
    assert!(b.send(3).is_ok());
    assert_eq!(rx.try_recv().unwrap(), 1);
    assert_eq!(rx.try_recv().unwrap(), 2);
    assert_eq!(rx.try_recv().unwrap(), 3);
    assert!(rx.try_recv().is_err());
}

#[test]
fn cloned_handle_shares_the_registry() {
    let b: UnboundedBroadcaster<u32> = UnboundedBroadcaster::new();
    let b2 = b.clone();
    let mut rx1 = b.receiver().ok().unwrap();
    assert!(b2.send(10).is_ok());
    assert_eq!(rx1.try_recv().unwrap(), 10);
    let mut rx2 = b2.receiver().ok().unwrap();
    assert!(b.send(11).is_ok());
    assert_eq!(rx1.try_recv().unwrap(), 11);
    assert_eq!(rx2.try_recv().unwrap(), 11);
}

#[test]
fn error_description_is_common_to_both_kinds() {
    let no_rx: BroadcastError<u32> = BroadcastError::NoReceivers(1);
    let poisoned: BroadcastError<u32> = BroadcastError::Poisoned;
    assert_eq!(no_rx.description(), "Broadcast problem. Message can't be sent.");
    assert_eq!(poisoned.description(), "Broadcast problem. Message can't be sent.");
}

#[test]
fn error_messages_name_the_kind() {
    let no_rx: BroadcastError<u32> = BroadcastError::NoReceivers(1);
    let poisoned: BroadcastError<u32> = BroadcastError::Poisoned;
    assert_eq!(no_rx.message(), "No receivers for send");
    assert_eq!(poisoned.message(), "poisoned lock: another task failed");
}

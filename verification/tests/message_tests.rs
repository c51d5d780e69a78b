use std::sync::Arc;

use message_plugins::Message;

#[test]
fn new_wraps_the_value() {
    let m = Message::new(41u32);
    assert_eq!(*m.as_ref(), 41);
}

#[test]
fn from_shared_keeps_the_value() {
    let shared = Arc::new(String::from("hello"));
    let m = Message::from_shared(shared.clone());
    assert_eq!(m.as_ref(), "hello");
}

#[test]
fn clone_carries_the_same_command() {
    let m = Message::new(String::from("broadcast"));
    let copy = m.clone();
    assert_eq!(m.as_ref(), "broadcast");
    assert_eq!(copy.as_ref(), "broadcast");
}
